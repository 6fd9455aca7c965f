//! What extensions have the player do.

use vstd::prelude::*;
use crate::item::{stack_view, ItemModel};
use crate::packets::{Real32, ServerboundPacket, UseEntityKind};
use super::player::{turn, HandsModel, Outbox, Scene, Turn};
use super::rules::BlockState;
use super::state::GameState;

verus! {

/// What tints the screen.
#[derive(Debug, Clone, Copy, PartialEq, Eq, Structural)]
pub enum ScreenOverlay {
    Clear,
    Water,
    Lava,
    Fire,
}

/// What tints the screen: the liquid the eye is in, else flames on the player.
pub open spec fn overlay_of(block: BlockState, on_fire: bool) -> ScreenOverlay {
    if block.id == 8 || block.id == 9 {
        ScreenOverlay::Water
    } else if block.id == 10 || block.id == 11 {
        ScreenOverlay::Lava
    } else if on_fire {
        ScreenOverlay::Fire
    } else {
        ScreenOverlay::Clear
    }
}

/// Nothing has been sent or caused yet.
pub open spec fn fresh(hands: HandsModel) -> Turn {
    Turn { hands, sent: Seq::empty(), effects: Seq::empty() }
}

/// An entity is right-clicked, at a point on it where one is given.
pub open spec fn interacted(t: Turn, id: i32, at: Option<(Real32, Real32, Real32)>) -> Turn {
    let t = t.sync();
    let t = match at {
        Some((x, y, z)) => t.send(
            ServerboundPacket::UseEntity {
                target: id,
                kind: UseEntityKind::InteractAt { x, y, z },
            },
        ),
        None => t,
    };
    t.send(ServerboundPacket::UseEntity { target: id, kind: UseEntityKind::Interact })
}

/// An entity is attacked, after a swing.
pub open spec fn struck(t: Turn, id: i32, slows: bool) -> Turn {
    t.swing().attack(id, slows)
}

/// The stack in hand is placed against the face of a block, and the arm swings.
pub open spec fn built(
    t: Turn,
    x: i32,
    y: i32,
    z: i32,
    face: u8,
    cursor: (u8, u8, u8),
    held: Option<ItemModel>,
    scene: Scene,
) -> Turn {
    t.right_click_block(x, y, z, face, cursor.0, cursor.1, cursor.2, held, scene).0.swing()
}

/// A hotbar slot is selected and reported.
pub open spec fn slot_chosen(hands: HandsModel, slot: i32) -> (HandsModel, ServerboundPacket) {
    let to = nearest_slot(slot);
    (
        HandsModel { selected_slot: to, current_player_item: to, ..hands },
        ServerboundPacket::HeldItemChange { slot: to as i16 },
    )
}

/// The hotbar slot nearest to a number.
pub open spec fn nearest_slot(slot: i32) -> i32 {
    if slot < 0 {
        0
    } else if slot > 8 {
        8
    } else {
        slot
    }
}

impl GameState {
    /// What tints the screen, given the block the eye is in.
    pub fn screen_overlay(&self, block: BlockState) -> (overlay: ScreenOverlay)
        ensures
            overlay == overlay_of(block, self.session.on_fire),
    {
        if block.id == 8 || block.id == 9 {
            ScreenOverlay::Water
        } else if block.id == 10 || block.id == 11 {
            ScreenOverlay::Lava
        } else if self.session.on_fire {
            ScreenOverlay::Fire
        } else {
            ScreenOverlay::Clear
        }
    }

    /// Place the stack in hand against the face of a block, and swing.
    pub fn ext_place_block(
        &mut self,
        x: i32,
        y: i32,
        z: i32,
        face: u8,
        cursor: (u8, u8, u8),
        scene: &Scene,
    ) -> (out: Outbox)
        requires
            old(self).wf(),
            i32::MIN < x < i32::MAX,
            i32::MIN < y < i32::MAX,
            i32::MIN < z < i32::MAX,
        ensures
            final(self).wf(),
            turn(final(self).hands, out) == built(
                fresh(old(self).hands@),
                x,
                y,
                z,
                face,
                cursor,
                stack_view(old(self).windows.inventory@[36 + old(self).hands.selected_slot]),
                *scene,
            ),
            *final(self) == (GameState { hands: final(self).hands, ..*old(self) }),
    {
        let mut out = Outbox::new();
        self.hands.on_player_right_click(
            x,
            y,
            z,
            face,
            cursor.0,
            cursor.1,
            cursor.2,
            self.windows.held_item(self.hands.selected_slot),
            scene,
            &mut out,
        );
        self.hands.swing_item(&mut out);
        out
    }

    /// Attack an entity, after a swing.
    pub fn ext_attack_entity(&mut self, id: i32, slows: bool) -> (out: Outbox)
        requires
            old(self).wf(),
        ensures
            final(self).wf(),
            turn(final(self).hands, out) == struck(fresh(old(self).hands@), id, slows),
            *final(self) == (GameState { hands: final(self).hands, ..*old(self) }),
    {
        let mut out = Outbox::new();
        self.hands.swing_item(&mut out);
        self.hands.attack_entity(id, slows, &mut out);
        out
    }

    /// Right-click an entity, at a point on it where one is given.
    pub fn ext_interact_entity(&mut self, id: i32, at: Option<(Real32, Real32, Real32)>) -> (out:
        Outbox)
        requires
            old(self).wf(),
        ensures
            final(self).wf(),
            turn(final(self).hands, out) == interacted(fresh(old(self).hands@), id, at),
            *final(self) == (GameState { hands: final(self).hands, ..*old(self) }),
    {
        let mut out = Outbox::new();
        self.hands.sync_current_play_item(&mut out);
        if let Some((x, y, z)) = at {
            out.packets.push(
                ServerboundPacket::UseEntity {
                    target: id,
                    kind: UseEntityKind::InteractAt { x, y, z },
                },
            );
            self.hands.sync_current_play_item(&mut out);
        }
        out.packets.push(
            ServerboundPacket::UseEntity { target: id, kind: UseEntityKind::Interact },
        );
        out
    }

    /// Use the stack in hand on nothing.
    pub fn ext_use_item(&mut self) -> (out: Outbox)
        requires
            old(self).wf(),
        ensures
            final(self).wf(),
            turn(final(self).hands, out) == fresh(old(self).hands@).use_item(
                stack_view(old(self).windows.inventory@[36 + old(self).hands.selected_slot]),
            ),
            *final(self) == (GameState { hands: final(self).hands, ..*old(self) }),
    {
        let mut out = Outbox::new();
        self.hands.send_use_item(self.windows.held_item(self.hands.selected_slot), &mut out);
        out
    }

    /// Swing the arm.
    pub fn ext_swing(&mut self) -> (out: Outbox)
        requires
            old(self).wf(),
        ensures
            final(self).wf(),
            turn(final(self).hands, out) == fresh(old(self).hands@).swing(),
            *final(self) == (GameState { hands: final(self).hands, ..*old(self) }),
    {
        let mut out = Outbox::new();
        self.hands.swing_item(&mut out);
        out
    }

    /// Select a hotbar slot and report it; numbers past either end select the slot
    /// there.
    pub fn ext_select_slot(&mut self, slot: i32) -> (packet: ServerboundPacket)
        requires
            old(self).wf(),
        ensures
            final(self).wf(),
            (final(self).hands@, packet) == slot_chosen(old(self).hands@, slot),
            *final(self) == (GameState { hands: final(self).hands, ..*old(self) }),
    {
        let to: i32 = if slot < 0 {
            0
        } else if slot > 8 {
            8
        } else {
            slot
        };
        self.hands.selected_slot = to;
        self.hands.current_player_item = to;
        ServerboundPacket::HeldItemChange { slot: to as i16 }
    }
}

/// After an extension selects a slot, the server knows it: nothing more is reported
/// for it.
pub proof fn law_selected_slots_are_reported_once(hands: HandsModel, slot: i32)
    ensures
        ({
            let after = HandsModel {
                selected_slot: nearest_slot(slot),
                current_player_item: nearest_slot(slot),
                ..hands
            };
            fresh(after).sync() == fresh(after)
        }),
{
}

} // verus!
