//! What the local player does with mouse and keys: swinging, attacking, digging,
//! placing and using items, and the packets that report it.

use vstd::prelude::*;
use crate::item::{copy_stack, same_stack, stack_view, ItemModel, SlotItem};
use crate::packets::{DiggingStatus, HeldItem, Real32, ServerboundPacket, UseEntityKind};
use super::mining::{
    block_break_ticks, placement_block_state, spec_break_ticks, spec_placement_state, Condition,
    Shape,
};
use super::noise::{hash2d, spec_hash2d};
use super::rules::{
    face_offset, is_block_item, is_interactable, is_replaceable, is_sword, item_use_action,
    spec_face_offset, spec_interactable, spec_replaceable, spec_sword, spec_use_action, BlockState,
    ItemUseAction,
};

verus! {

/// Length of the arm swing, in ticks.
pub const ARM_SWING_END_TICKS: i32 = 6;

/// Hotbar slots.
pub const HOTBAR: i32 = 9;

/// What the crosshair points at. Faces are numbered down, up, north, south,
/// west, east.
#[derive(Debug, Clone, Copy, PartialEq, Eq, Structural)]
pub enum InteractionTarget {
    Block { x: i32, y: i32, z: i32, face: u8, cursor_x: u8, cursor_y: u8, cursor_z: u8 },
    /// An entity, with the hit point relative to it.
    Entity { id: i32, hit_x: Real32, hit_y: Real32, hit_z: Real32 },
}

/// What the world holds where the crosshair points, at one moment.
#[derive(Debug, Clone, Copy, PartialEq, Eq, Structural)]
pub struct Scene {
    pub target: Option<InteractionTarget>,
    /// The block pointed at.
    pub block: BlockState,
    /// The block in the cell a placement would fill.
    pub cell: BlockState,
    /// Whether that cell's column is loaded.
    pub cell_loaded: bool,
    /// Whether the placed block would overlap the player.
    pub blocked: bool,
    /// Where the player looks: quarter turns from south.
    pub facing: u8,
    /// How the held block takes its state.
    pub shape: Shape,
    /// Whether a sprinting attacker is slowed by hitting the target entity.
    pub slows: bool,
    /// Whether the player sneaks.
    pub sneaking: bool,
    pub condition: Condition,
}

impl Scene {
    /// The neighbours of the cell pointed at have coordinates.
    pub open spec fn wf(self) -> bool {
        match self.target {
            Some(InteractionTarget::Block { x, y, z, .. }) => {
                &&& i32::MIN < x < i32::MAX
                &&& i32::MIN < y < i32::MAX
                &&& i32::MIN < z < i32::MAX
            },
            _ => true,
        }
    }
}

/// One tick's input.
#[derive(Debug, Clone, Copy, PartialEq, Eq, Structural)]
pub struct TickActions {
    pub slot_select: Option<i32>,
    pub slot_scroll: i32,
    pub attack_pressed: bool,
    pub use_pressed: bool,
    pub left_held: bool,
    pub right_held: bool,
    /// Lets the arm swing while blocking; no packet goes out for it.
    pub old_animations: bool,
}

impl Default for TickActions {
    fn default() -> (a: Self)
        ensures
            a == (TickActions {
                slot_select: None,
                slot_scroll: 0,
                attack_pressed: false,
                use_pressed: false,
                left_held: false,
                right_held: false,
                old_animations: false,
            }),
    {
        TickActions {
            slot_select: None,
            slot_scroll: 0,
            attack_pressed: false,
            use_pressed: false,
            left_held: false,
            right_held: false,
            old_animations: false,
        }
    }
}

/// A block being mined.
#[derive(Debug)]
pub struct BreakProgress {
    pub x: i32,
    pub y: i32,
    pub z: i32,
    /// Ticks dug so far.
    pub done: u64,
    /// Ticks the block takes; nothing if it never breaks.
    pub ticks: Option<u64>,
    /// The stack in hand when the dig began: another one restarts it.
    pub item: Option<SlotItem>,
}

/// The value of a [`BreakProgress`].
pub struct BreakModel {
    pub x: i32,
    pub y: i32,
    pub z: i32,
    pub done: int,
    pub ticks: Option<int>,
    pub item: Option<ItemModel>,
}

impl View for BreakProgress {
    type V = BreakModel;

    open spec fn view(&self) -> BreakModel {
        BreakModel {
            x: self.x,
            y: self.y,
            z: self.z,
            done: self.done as int,
            ticks: match self.ticks {
                Some(n) => Some(n as int),
                None => None,
            },
            item: stack_view(self.item),
        }
    }
}

impl BreakModel {
    /// The dig is not over.
    pub open spec fn wf(self) -> bool {
        0 <= self.done && match self.ticks {
            Some(n) => self.done < n,
            None => true,
        }
    }

    /// One tick further; a block that never breaks makes no progress.
    pub open spec fn advanced(self) -> BreakModel {
        match self.ticks {
            Some(n) => BreakModel { done: self.done + 1, ..self },
            None => self,
        }
    }

    /// The crack stage, in tenths of the way.
    pub open spec fn stage(self) -> int {
        match self.ticks {
            Some(n) => self.done * 10 / n,
            None => 0,
        }
    }
}

/// The local player's hands: selection, dig, item use and swing.
#[derive(Debug)]
pub struct Hands {
    /// Selected hotbar slot.
    pub selected_slot: i32,
    /// The slot last reported to the server.
    pub current_player_item: i32,
    pub creative: bool,
    pub sprinting: bool,
    pub breaking: Option<BreakProgress>,
    pub use_action: ItemUseAction,
    pub use_item_ticks: i32,
    /// Left clicks are ignored while this runs.
    pub left_click_counter: i32,
    /// Ticks to the next repeated right click.
    pub right_click_delay_timer: i32,
    /// Pause after a block broke.
    pub block_hit_delay: i32,
    pub swing_progress_int: i32,
    pub is_swinging: bool,
}

/// The value of [`Hands`].
pub struct HandsModel {
    pub selected_slot: i32,
    pub current_player_item: i32,
    pub creative: bool,
    pub sprinting: bool,
    pub breaking: Option<BreakModel>,
    pub use_action: ItemUseAction,
    pub use_item_ticks: int,
    pub left_click_counter: int,
    pub right_click_delay_timer: int,
    pub block_hit_delay: int,
    pub swing_progress_int: int,
    pub is_swinging: bool,
}

impl View for Hands {
    type V = HandsModel;

    open spec fn view(&self) -> HandsModel {
        HandsModel {
            selected_slot: self.selected_slot,
            current_player_item: self.current_player_item,
            creative: self.creative,
            sprinting: self.sprinting,
            breaking: match self.breaking {
                Some(b) => Some(b@),
                None => None,
            },
            use_action: self.use_action,
            use_item_ticks: self.use_item_ticks as int,
            left_click_counter: self.left_click_counter as int,
            right_click_delay_timer: self.right_click_delay_timer as int,
            block_hit_delay: self.block_hit_delay as int,
            swing_progress_int: self.swing_progress_int as int,
            is_swinging: self.is_swinging,
        }
    }
}

impl HandsModel {
    /// What always holds of the hands: a hotbar slot is selected, timers run
    /// within their lengths, and an open dig is not over.
    pub open spec fn wf(self) -> bool {
        &&& 0 <= self.selected_slot < HOTBAR
        &&& 0 <= self.left_click_counter <= 10
        &&& 0 <= self.right_click_delay_timer <= 4
        &&& 0 <= self.block_hit_delay <= 5
        &&& -1 <= self.swing_progress_int < ARM_SWING_END_TICKS
        &&& 0 <= self.use_item_ticks
        &&& match self.breaking {
            Some(b) => b.wf(),
            None => true,
        }
    }

    pub open spec fn using_item(self) -> bool {
        self.use_action != ItemUseAction::Nothing
    }

    /// The hands at the start of a session.
    pub open spec fn initial() -> HandsModel {
        HandsModel {
            selected_slot: 0,
            current_player_item: 0,
            creative: false,
            sprinting: false,
            breaking: None,
            use_action: ItemUseAction::Nothing,
            use_item_ticks: 0,
            left_click_counter: 0,
            right_click_delay_timer: 0,
            block_hit_delay: 0,
            swing_progress_int: 0,
            is_swinging: false,
        }
    }

    /// The same cell and the same stack as when the dig began.
    pub open spec fn hitting(self, x: i32, y: i32, z: i32, held: Option<ItemModel>) -> bool {
        match self.breaking {
            Some(b) => b.x == x && b.y == y && b.z == z && b.item == held,
            None => false,
        }
    }

    /// A new swing starts when none runs or the running one is half over.
    pub open spec fn swung(self) -> HandsModel {
        if !self.is_swinging || self.swing_progress_int >= ARM_SWING_END_TICKS / 2
            || self.swing_progress_int < 0 {
            HandsModel { swing_progress_int: -1, is_swinging: true, ..self }
        } else {
            self
        }
    }

    /// One tick of the swing.
    pub open spec fn swing_step(self) -> HandsModel {
        if self.is_swinging && self.swing_progress_int + 1 < ARM_SWING_END_TICKS {
            HandsModel { swing_progress_int: self.swing_progress_int + 1, ..self }
        } else {
            HandsModel { swing_progress_int: 0, is_swinging: false, ..self }
        }
    }

    /// One tick of the click timers.
    pub open spec fn timers_step(self) -> HandsModel {
        HandsModel {
            right_click_delay_timer: if self.right_click_delay_timer > 0 {
                self.right_click_delay_timer - 1
            } else {
                self.right_click_delay_timer
            },
            left_click_counter: if self.left_click_counter > 0 {
                self.left_click_counter - 1
            } else {
                self.left_click_counter
            },
            ..self
        }
    }
}

/// A change to make in the world.
#[derive(Debug, Clone, Copy, PartialEq, Eq, Structural)]
pub enum Effect {
    /// Clear a block that just broke.
    Break { x: i32, y: i32, z: i32 },
    /// Show a block that was just placed.
    Place { x: i32, y: i32, z: i32, state: BlockState },
    /// Slow the player's run: a sprint hit landed.
    SlowDown,
    /// A bite or gulp is heard; the roll varies its sound.
    Chew { drink: bool, roll: u32 },
}

/// What a turn produced: packets to send and changes to make, in order.
#[derive(Debug, PartialEq, Eq)]
pub struct Outbox {
    pub packets: Vec<ServerboundPacket>,
    pub effects: Vec<Effect>,
}

impl Outbox {
    pub fn new() -> (out: Outbox)
        ensures
            out.packets@ == Seq::<ServerboundPacket>::empty(),
            out.effects@ == Seq::<Effect>::empty(),
    {
        Outbox { packets: Vec::new(), effects: Vec::new() }
    }
}

impl Default for Outbox {
    fn default() -> (out: Self)
        ensures
            out.packets@ == Seq::<ServerboundPacket>::empty(),
            out.effects@ == Seq::<Effect>::empty(),
    {
        Outbox::new()
    }
}

/// The hands together with what they produced so far this tick.
pub struct Turn {
    pub hands: HandsModel,
    pub sent: Seq<ServerboundPacket>,
    pub effects: Seq<Effect>,
}

/// The turn that hands and outbox stand for.
pub open spec fn turn(hands: Hands, out: Outbox) -> Turn {
    Turn { hands: hands@, sent: out.packets@, effects: out.effects@ }
}

/// A digging packet.
pub open spec fn dig_packet(status: DiggingStatus, x: i32, y: i32, z: i32, face: u8) -> ServerboundPacket {
    ServerboundPacket::PlayerDigging { status, x, y, z, face }
}

/// A stack as a placement packet reports it.
pub open spec fn reported(held: Option<ItemModel>) -> Option<HeldItem> {
    match held {
        Some(item) => Some(
            HeldItem { id: item.id as i16, count: item.count as u8, damage: item.damage as i16 },
        ),
        None => None,
    }
}

/// Whether the stack in hand is a sword.
pub open spec fn holds_sword(held: Option<ItemModel>) -> bool {
    match held {
        Some(item) => spec_sword(item.id),
        None => false,
    }
}

/// What using the stack in hand does.
pub open spec fn use_of(held: Option<ItemModel>) -> ItemUseAction {
    match held {
        Some(item) => spec_use_action(item.id as i16, item.damage as i16),
        None => ItemUseAction::Nothing,
    }
}

/// Where a placement against a face lands, and as what; nothing if it is not
/// allowed there.
pub open spec fn spec_resolve_placement(
    item: ItemModel,
    x: i32,
    y: i32,
    z: i32,
    face: u8,
    cursor_y: u8,
    scene: Scene,
) -> Option<Effect> {
    match spec_placement_state(
        item.id as i16,
        item.damage as i16,
        face,
        scene.facing,
        cursor_y,
        scene.shape,
    ) {
        Some(state) => if spec_replaceable(scene.cell) && !scene.blocked {
            let (dx, dy, dz) = spec_face_offset(face);
            Some(
                Effect::Place {
                    x: (x + dx) as i32,
                    y: (y + dy) as i32,
                    z: (z + dz) as i32,
                    state,
                },
            )
        } else {
            None
        },
        None => None,
    }
}

impl Turn {
    pub open spec fn send(self, packet: ServerboundPacket) -> Turn {
        Turn { sent: self.sent.push(packet), ..self }
    }

    pub open spec fn cause(self, effect: Effect) -> Turn {
        Turn { effects: self.effects.push(effect), ..self }
    }

    pub open spec fn with(self, hands: HandsModel) -> Turn {
        Turn { hands, ..self }
    }

    /// Swing, and tell the server.
    pub open spec fn swing(self) -> Turn {
        self.with(self.hands.swung()).send(ServerboundPacket::SwingArm)
    }

    /// Report the selected slot if the server was told another one.
    pub open spec fn sync(self) -> Turn {
        if self.hands.selected_slot != self.hands.current_player_item {
            self.with(
                HandsModel { current_player_item: self.hands.selected_slot, ..self.hands },
            ).send(ServerboundPacket::HeldItemChange { slot: self.hands.selected_slot as i16 })
        } else {
            self
        }
    }

    /// Attack an entity. A sprint hit on a target that slows its attacker ends
    /// the sprint.
    pub open spec fn attack(self, id: i32, slows: bool) -> Turn {
        let t = self.sync().send(
            ServerboundPacket::UseEntity { target: id, kind: UseEntityKind::Attack },
        );
        if slows && t.hands.sprinting {
            t.with(HandsModel { sprinting: false, ..t.hands }).cause(Effect::SlowDown)
        } else {
            t
        }
    }

    /// Break a block at once, as creative players do; with a sword in hand it
    /// stays.
    pub open spec fn creative_dig(
        self,
        x: i32,
        y: i32,
        z: i32,
        face: u8,
        held: Option<ItemModel>,
    ) -> Turn {
        let t = self.send(dig_packet(DiggingStatus::StartDestroy, x, y, z, face));
        let t = if holds_sword(held) {
            t
        } else {
            t.cause(Effect::Break { x, y, z })
        };
        t.with(HandsModel { block_hit_delay: 5, ..t.hands })
    }

    /// Begin or restart a dig: a dig elsewhere is called off, with the new face,
    /// and a block that takes one tick breaks at once.
    pub open spec fn start_dig(
        self,
        x: i32,
        y: i32,
        z: i32,
        face: u8,
        held: Option<ItemModel>,
        scene: Scene,
    ) -> Turn {
        let t = match self.hands.breaking {
            Some(b) => self.send(dig_packet(DiggingStatus::CancelDestroy, b.x, b.y, b.z, face)),
            None => self,
        };
        let t = t.send(dig_packet(DiggingStatus::StartDestroy, x, y, z, face));
        let ticks = spec_break_ticks(held, scene.block, scene.condition);
        if ticks == Some(1int) {
            t.with(HandsModel { breaking: None, ..t.hands }).cause(Effect::Break { x, y, z })
        } else {
            t.with(
                HandsModel {
                    breaking: Some(BreakModel { x, y, z, done: 0, ticks, item: held }),
                    ..t.hands
                },
            )
        }
    }

    /// Left-click a block.
    pub open spec fn click_block(
        self,
        x: i32,
        y: i32,
        z: i32,
        face: u8,
        held: Option<ItemModel>,
        scene: Scene,
    ) -> Turn {
        if self.hands.creative {
            self.creative_dig(x, y, z, face, held)
        } else if self.hands.hitting(x, y, z, held) {
            self
        } else {
            self.start_dig(x, y, z, face, held, scene)
        }
    }

    /// A left click: swing, then attack, dig, or miss. A miss in survival locks
    /// left clicks for ten ticks.
    pub open spec fn click(self, held: Option<ItemModel>, scene: Scene) -> Turn {
        if self.hands.left_click_counter > 0 {
            self
        } else {
            let t = self.swing();
            match scene.target {
                Some(InteractionTarget::Entity { id, .. }) => t.attack(id, scene.slows),
                Some(InteractionTarget::Block { x, y, z, face, .. }) => t.click_block(
                    x,
                    y,
                    z,
                    face,
                    held,
                    scene,
                ),
                None => if t.hands.creative {
                    t
                } else {
                    t.with(HandsModel { left_click_counter: 10, ..t.hands })
                },
            }
        }
    }

    /// Dig on for a tick; also whether the arm swings with it.
    pub open spec fn damage_block(
        self,
        x: i32,
        y: i32,
        z: i32,
        face: u8,
        held: Option<ItemModel>,
        scene: Scene,
    ) -> (Turn, bool) {
        let t = self.sync();
        if t.hands.block_hit_delay > 0 {
            (
                t.with(HandsModel { block_hit_delay: t.hands.block_hit_delay - 1, ..t.hands }),
                true,
            )
        } else if t.hands.creative {
            (t.creative_dig(x, y, z, face, held), true)
        } else if t.hands.hitting(x, y, z, held) {
            let b = t.hands.breaking->0;
            if scene.block.spec_air() {
                (t.with(HandsModel { breaking: None, ..t.hands }), false)
            } else if b.ticks == Some(b.done + 1) {
                let t = t.with(HandsModel { breaking: None, block_hit_delay: 5, ..t.hands });
                (
                    t.send(dig_packet(DiggingStatus::FinishDestroy, x, y, z, face)).cause(
                        Effect::Break { x, y, z },
                    ),
                    true,
                )
            } else {
                (
                    t.with(
                        HandsModel {
                            breaking: Some(b.advanced()),
                            ..t.hands
                        },
                    ),
                    true,
                )
            }
        } else {
            (t.start_dig(x, y, z, face, held, scene), true)
        }
    }

    /// Call off a dig.
    pub open spec fn reset_dig(self) -> Turn {
        match self.hands.breaking {
            Some(b) => self.with(HandsModel { breaking: None, ..self.hands }).send(
                dig_packet(DiggingStatus::CancelDestroy, b.x, b.y, b.z, 0),
            ),
            None => self,
        }
    }

    /// What every tick does with the state of the left button.
    pub open spec fn hold_left(self, held_down: bool, held: Option<ItemModel>, scene: Scene) -> Turn {
        let t = if held_down {
            self
        } else {
            self.with(HandsModel { left_click_counter: 0, ..self.hands })
        };
        if t.hands.left_click_counter > 0 || t.hands.using_item() {
            t
        } else if !held_down || scene.block.spec_air() {
            t.reset_dig()
        } else {
            match scene.target {
                Some(InteractionTarget::Block { x, y, z, face, .. }) => {
                    let (d, live) = t.damage_block(x, y, z, face, held, scene);
                    if live {
                        d.swing()
                    } else {
                        d
                    }
                },
                _ => t.reset_dig(),
            }
        }
    }

    /// Use the stack in hand.
    pub open spec fn use_item(self, held: Option<ItemModel>) -> Turn {
        let t = self.sync().send(
            ServerboundPacket::PlayerBlockPlacement {
                x: (-1) as i32,
                y: (-1) as i32,
                z: (-1) as i32,
                face: 255,
                held_item: reported(held),
                cursor_x: 0,
                cursor_y: 0,
                cursor_z: 0,
            },
        );
        if use_of(held) != ItemUseAction::Nothing {
            t.with(HandsModel { use_action: use_of(held), use_item_ticks: 0, ..t.hands })
        } else {
            t
        }
    }

    /// Stop using the item in use.
    pub open spec fn stop_using(self) -> Turn {
        let t = self.sync().send(dig_packet(DiggingStatus::ReleaseUseItem, 0, 0, 0, 0));
        t.with(HandsModel { use_action: ItemUseAction::Nothing, use_item_ticks: 0, ..t.hands })
    }

    /// Right-click a block; also whether the click was consumed. A block that
    /// activates consumes it, unless the player sneaks with something in hand. A
    /// block item that cannot be placed there sends nothing.
    pub open spec fn right_click_block(
        self,
        x: i32,
        y: i32,
        z: i32,
        face: u8,
        cursor_x: u8,
        cursor_y: u8,
        cursor_z: u8,
        held: Option<ItemModel>,
        scene: Scene,
    ) -> (Turn, bool) {
        let t = self.sync();
        let activated = (!scene.sneaking || held is None) && spec_interactable(
            scene.block.id as int,
        );
        let places = held matches Some(item) && 1 <= item.id < 256;
        let placed = match held {
            Some(item) => spec_resolve_placement(item, x, y, z, face, cursor_y, scene),
            None => None,
        };
        if !activated && places && placed is None {
            (t, false)
        } else {
            let t = t.send(
                ServerboundPacket::PlayerBlockPlacement {
                    x,
                    y,
                    z,
                    face,
                    held_item: reported(held),
                    cursor_x,
                    cursor_y,
                    cursor_z,
                },
            );
            if activated {
                (t, true)
            } else if places && scene.cell_loaded {
                (t.cause(placed->0), true)
            } else {
                (t, false)
            }
        }
    }

    /// A right click: on an entity, then on a block, then the item itself. It
    /// does nothing while a dig is open.
    pub open spec fn right_click(self, held: Option<ItemModel>, scene: Scene) -> Turn {
        if self.hands.breaking is Some {
            self
        } else {
            let t = self.with(HandsModel { right_click_delay_timer: 4, ..self.hands });
            let (t, consumed) = match scene.target {
                Some(InteractionTarget::Entity { id, hit_x, hit_y, hit_z }) => (
                    t.sync().send(
                        ServerboundPacket::UseEntity {
                            target: id,
                            kind: UseEntityKind::InteractAt { x: hit_x, y: hit_y, z: hit_z },
                        },
                    ).send(
                        ServerboundPacket::UseEntity { target: id, kind: UseEntityKind::Interact },
                    ),
                    false,
                ),
                Some(
                    InteractionTarget::Block { x, y, z, face, cursor_x, cursor_y, cursor_z },
                ) => {
                    let (d, hit) = t.right_click_block(
                        x,
                        y,
                        z,
                        face,
                        cursor_x,
                        cursor_y,
                        cursor_z,
                        held,
                        scene,
                    );
                    if hit {
                        (d.swing(), true)
                    } else {
                        (d, false)
                    }
                },
                None => (t, false),
            };
            if !consumed && held is Some {
                t.use_item(held)
            } else {
                t
            }
        }
    }
}

// ── Steps ─────────────────────────────────────────────────────────────────

impl Hands {
    /// The hands at the start of a session.
    pub fn new() -> (hands: Hands)
        ensures
            hands@ == HandsModel::initial(),
            hands@.wf(),
    {
        Hands {
            selected_slot: 0,
            current_player_item: 0,
            creative: false,
            sprinting: false,
            breaking: None,
            use_action: ItemUseAction::Nothing,
            use_item_ticks: 0,
            left_click_counter: 0,
            right_click_delay_timer: 0,
            block_hit_delay: 0,
            swing_progress_int: 0,
            is_swinging: false,
        }
    }

    pub fn is_using_item(&self) -> (yes: bool)
        ensures
            yes == self@.using_item(),
    {
        self.use_action != ItemUseAction::Nothing
    }

    /// Start the swing animation; a running one restarts only past its middle.
    pub fn swing_arm(&mut self)
        ensures
            final(self)@ == old(self)@.swung(),
            old(self)@.wf() ==> final(self)@.wf(),
    {
        if !self.is_swinging || self.swing_progress_int >= ARM_SWING_END_TICKS / 2
            || self.swing_progress_int < 0 {
            self.swing_progress_int = -1;
            self.is_swinging = true;
        }
    }

    /// Step the swing animation.
    pub fn update_arm_swing(&mut self)
        requires
            old(self)@.wf(),
        ensures
            final(self)@ == old(self)@.swing_step(),
            final(self)@.wf(),
    {
        if self.is_swinging {
            self.swing_progress_int += 1;
            if self.swing_progress_int >= ARM_SWING_END_TICKS {
                self.swing_progress_int = 0;
                self.is_swinging = false;
            }
        } else {
            self.swing_progress_int = 0;
        }
    }

    /// Run the click timers down.
    pub fn tick_click_timers(&mut self)
        requires
            old(self)@.wf(),
        ensures
            final(self)@ == old(self)@.timers_step(),
            final(self)@.wf(),
    {
        if self.right_click_delay_timer > 0 {
            self.right_click_delay_timer -= 1;
        }
        if self.left_click_counter > 0 {
            self.left_click_counter -= 1;
        }
    }

    /// Swing, and tell the server.
    pub fn swing_item(&mut self, out: &mut Outbox)
        requires
            old(self)@.wf(),
        ensures
            turn(*final(self), *final(out)) == turn(*old(self), *old(out)).swing(),
            final(self)@.wf(),
    {
        self.swing_arm();
        out.packets.push(ServerboundPacket::SwingArm);
    }

    /// Report the selected slot if the server was told another one.
    pub fn sync_current_play_item(&mut self, out: &mut Outbox)
        requires
            old(self)@.wf(),
        ensures
            turn(*final(self), *final(out)) == turn(*old(self), *old(out)).sync(),
            final(self)@.wf(),
    {
        if self.selected_slot != self.current_player_item {
            self.current_player_item = self.selected_slot;
            out.packets.push(
                ServerboundPacket::HeldItemChange { slot: self.selected_slot as i16 },
            );
        }
    }

    /// Attack an entity.
    pub fn attack_entity(&mut self, id: i32, slows: bool, out: &mut Outbox)
        requires
            old(self)@.wf(),
        ensures
            turn(*final(self), *final(out)) == turn(*old(self), *old(out)).attack(id, slows),
            final(self)@.wf(),
    {
        self.sync_current_play_item(out);
        out.packets.push(
            ServerboundPacket::UseEntity { target: id, kind: UseEntityKind::Attack },
        );
        if slows && self.sprinting {
            self.sprinting = false;
            out.effects.push(Effect::SlowDown);
        }
    }

    /// Whether the open dig is on this cell with this stack.
    pub fn is_hitting_position(&self, x: i32, y: i32, z: i32, held: &Option<SlotItem>) -> (yes: bool)
        ensures
            yes == self@.hitting(x, y, z, stack_view(*held)),
    {
        match &self.breaking {
            Some(b) => b.x == x && b.y == y && b.z == z && same_stack(&b.item, held),
            None => false,
        }
    }

    fn creative_dig(&mut self, x: i32, y: i32, z: i32, face: u8, held: &Option<SlotItem>, out: &mut Outbox)
        requires
            old(self)@.wf(),
        ensures
            turn(*final(self), *final(out)) == turn(*old(self), *old(out)).creative_dig(
                x,
                y,
                z,
                face,
                stack_view(*held),
            ),
            final(self)@.wf(),
    {
        out.packets.push(
            ServerboundPacket::PlayerDigging { status: DiggingStatus::StartDestroy, x, y, z, face },
        );
        let sword = match held {
            Some(item) => is_sword(item.id),
            None => false,
        };
        if !sword {
            out.effects.push(Effect::Break { x, y, z });
        }
        self.block_hit_delay = 5;
    }

    fn start_dig(
        &mut self,
        x: i32,
        y: i32,
        z: i32,
        face: u8,
        held: &Option<SlotItem>,
        scene: &Scene,
        out: &mut Outbox,
    )
        requires
            old(self)@.wf(),
        ensures
            turn(*final(self), *final(out)) == turn(*old(self), *old(out)).start_dig(
                x,
                y,
                z,
                face,
                stack_view(*held),
                *scene,
            ),
            final(self)@.wf(),
    {
        if let Some(b) = &self.breaking {
            out.packets.push(
                ServerboundPacket::PlayerDigging {
                    status: DiggingStatus::CancelDestroy,
                    x: b.x,
                    y: b.y,
                    z: b.z,
                    face,
                },
            );
        }
        out.packets.push(
            ServerboundPacket::PlayerDigging { status: DiggingStatus::StartDestroy, x, y, z, face },
        );
        let ticks = block_break_ticks(held, scene.block, scene.condition);
        let instant = match ticks {
            Some(n) => n == 1,
            None => false,
        };
        if instant {
            self.breaking = None;
            out.effects.push(Effect::Break { x, y, z });
        } else {
            self.breaking = Some(
                BreakProgress { x, y, z, done: 0, ticks, item: copy_stack(held) },
            );
        }
    }

    /// Left-click a block.
    pub fn click_block(
        &mut self,
        x: i32,
        y: i32,
        z: i32,
        face: u8,
        held: &Option<SlotItem>,
        scene: &Scene,
        out: &mut Outbox,
    )
        requires
            old(self)@.wf(),
        ensures
            turn(*final(self), *final(out)) == turn(*old(self), *old(out)).click_block(
                x,
                y,
                z,
                face,
                stack_view(*held),
                *scene,
            ),
            final(self)@.wf(),
    {
        if self.creative {
            self.creative_dig(x, y, z, face, held, out);
            return ;
        }
        if !self.is_hitting_position(x, y, z, held) {
            self.start_dig(x, y, z, face, held, scene, out);
        }
    }

    /// A left click.
    pub fn click_mouse(&mut self, held: &Option<SlotItem>, scene: &Scene, out: &mut Outbox)
        requires
            old(self)@.wf(),
        ensures
            turn(*final(self), *final(out)) == turn(*old(self), *old(out)).click(
                stack_view(*held),
                *scene,
            ),
            final(self)@.wf(),
    {
        if self.left_click_counter > 0 {
            return ;
        }
        self.swing_item(out);
        match scene.target {
            Some(InteractionTarget::Entity { id, .. }) => {
                self.attack_entity(id, scene.slows, out);
            },
            Some(InteractionTarget::Block { x, y, z, face, .. }) => {
                self.click_block(x, y, z, face, held, scene, out);
            },
            None => {
                if !self.creative {
                    self.left_click_counter = 10;
                }
            },
        }
    }

    /// Dig on for a tick; whether the arm swings with it.
    pub fn on_player_damage_block(
        &mut self,
        x: i32,
        y: i32,
        z: i32,
        face: u8,
        held: &Option<SlotItem>,
        scene: &Scene,
        out: &mut Outbox,
    ) -> (live: bool)
        requires
            old(self)@.wf(),
        ensures
            (turn(*final(self), *final(out)), live) == turn(*old(self), *old(out)).damage_block(
                x,
                y,
                z,
                face,
                stack_view(*held),
                *scene,
            ),
            final(self)@.wf(),
    {
        self.sync_current_play_item(out);
        if self.block_hit_delay > 0 {
            self.block_hit_delay -= 1;
            return true;
        }
        if self.creative {
            self.creative_dig(x, y, z, face, held, out);
            return true;
        }
        if !self.is_hitting_position(x, y, z, held) {
            self.start_dig(x, y, z, face, held, scene, out);
            return true;
        }
        let mut dig: Option<BreakProgress> = None;
        std::mem::swap(&mut dig, &mut self.breaking);
        if scene.block.is_air() {
            return false;
        }
        if let Some(b) = dig {
            let (done, finished): (u64, bool) = match b.ticks {
                Some(n) => (b.done + 1, n == b.done + 1),
                None => (b.done, false),
            };
            if finished {
                out.packets.push(
                    ServerboundPacket::PlayerDigging {
                        status: DiggingStatus::FinishDestroy,
                        x,
                        y,
                        z,
                        face,
                    },
                );
                out.effects.push(Effect::Break { x, y, z });
                self.block_hit_delay = 5;
            } else {
                self.breaking = Some(
                    BreakProgress {
                        x: b.x,
                        y: b.y,
                        z: b.z,
                        done,
                        ticks: b.ticks,
                        item: b.item,
                    },
                );
            }
        }
        true
    }
}

impl Hands {
    /// Call off a dig.
    pub fn reset_block_removing(&mut self, out: &mut Outbox)
        requires
            old(self)@.wf(),
        ensures
            turn(*final(self), *final(out)) == turn(*old(self), *old(out)).reset_dig(),
            final(self)@.wf(),
    {
        if let Some(packet) = self.cancel_breaking() {
            out.packets.push(packet);
        }
    }

    /// Call off a dig, returning the packet that tells the server.
    pub fn cancel_breaking(&mut self) -> (packet: Option<ServerboundPacket>)
        ensures
            final(self)@ == (HandsModel { breaking: None, ..old(self)@ }),
            packet == match old(self)@.breaking {
                Some(b) => Some(dig_packet(DiggingStatus::CancelDestroy, b.x, b.y, b.z, 0)),
                None => None,
            },
    {
        let mut dig: Option<BreakProgress> = None;
        std::mem::swap(&mut dig, &mut self.breaking);
        match dig {
            Some(b) => Some(
                ServerboundPacket::PlayerDigging {
                    status: DiggingStatus::CancelDestroy,
                    x: b.x,
                    y: b.y,
                    z: b.z,
                    face: 0,
                },
            ),
            None => None,
        }
    }

    /// What every tick does with the state of the left button: dig on over a
    /// block, or call the dig off.
    pub fn send_click_block_to_controller(
        &mut self,
        left_click: bool,
        held: &Option<SlotItem>,
        scene: &Scene,
        out: &mut Outbox,
    )
        requires
            old(self)@.wf(),
        ensures
            turn(*final(self), *final(out)) == turn(*old(self), *old(out)).hold_left(
                left_click,
                stack_view(*held),
                *scene,
            ),
            final(self)@.wf(),
    {
        if !left_click {
            self.left_click_counter = 0;
        }
        if self.left_click_counter > 0 || self.is_using_item() {
            return ;
        }
        if left_click && !scene.block.is_air() {
            if let Some(InteractionTarget::Block { x, y, z, face, .. }) = scene.target {
                if self.on_player_damage_block(x, y, z, face, held, scene, out) {
                    self.swing_item(out);
                }
                return ;
            }
        }
        self.reset_block_removing(out);
    }

    /// The block being mined and its crack stage, 0 to 9.
    pub fn breaking_overlay(&self) -> (crack: Option<(i32, i32, i32, u8)>)
        requires
            self@.wf(),
        ensures
            match (crack, self@.breaking) {
                (Some(c), Some(b)) => c.0 == b.x && c.1 == b.y && c.2 == b.z && c.3 == b.stage()
                    && c.3 <= 9,
                (None, None) => true,
                _ => false,
            },
    {
        match &self.breaking {
            Some(b) => {
                let stage: u8 = match b.ticks {
                    Some(n) => {
                        assert(0 <= (b.done * 10) / (n as int) <= 9) by (nonlinear_arith)
                            requires
                                0 <= b.done < n,
                        ;
                        ((b.done as u128 * 10) / (n as u128)) as u8
                    },
                    None => 0,
                };
                Some((b.x, b.y, b.z, stage))
            },
            None => None,
        }
    }

    /// Use the stack in hand; a sword is raised to block.
    pub fn send_use_item(&mut self, held: &Option<SlotItem>, out: &mut Outbox)
        requires
            old(self)@.wf(),
        ensures
            turn(*final(self), *final(out)) == turn(*old(self), *old(out)).use_item(
                stack_view(*held),
            ),
            final(self)@.wf(),
    {
        self.sync_current_play_item(out);
        out.packets.push(
            ServerboundPacket::PlayerBlockPlacement {
                x: -1,
                y: -1,
                z: -1,
                face: 255,
                held_item: report(held),
                cursor_x: 0,
                cursor_y: 0,
                cursor_z: 0,
            },
        );
        if let Some(item) = held {
            let action = item_use_action(item.id, item.damage);
            if action != ItemUseAction::Nothing {
                self.use_action = action;
                self.use_item_ticks = 0;
            }
        }
    }

    /// Stop using the item in use; a sword is lowered.
    pub fn on_stopped_using_item(&mut self, out: &mut Outbox)
        requires
            old(self)@.wf(),
        ensures
            turn(*final(self), *final(out)) == turn(*old(self), *old(out)).stop_using(),
            final(self)@.wf(),
    {
        self.sync_current_play_item(out);
        out.packets.push(
            ServerboundPacket::PlayerDigging {
                status: DiggingStatus::ReleaseUseItem,
                x: 0,
                y: 0,
                z: 0,
                face: 0,
            },
        );
        self.use_action = ItemUseAction::Nothing;
        self.use_item_ticks = 0;
    }

    /// Right-click a block; whether the click was consumed.
    pub fn on_player_right_click(
        &mut self,
        x: i32,
        y: i32,
        z: i32,
        face: u8,
        cursor_x: u8,
        cursor_y: u8,
        cursor_z: u8,
        held: &Option<SlotItem>,
        scene: &Scene,
        out: &mut Outbox,
    ) -> (consumed: bool)
        requires
            old(self)@.wf(),
            i32::MIN < x < i32::MAX,
            i32::MIN < y < i32::MAX,
            i32::MIN < z < i32::MAX,
        ensures
            (turn(*final(self), *final(out)), consumed) == turn(
                *old(self),
                *old(out),
            ).right_click_block(
                x,
                y,
                z,
                face,
                cursor_x,
                cursor_y,
                cursor_z,
                stack_view(*held),
                *scene,
            ),
            final(self)@.wf(),
    {
        self.sync_current_play_item(out);
        let activated = (!scene.sneaking || held.is_none()) && is_interactable(scene.block);
        let (places, placed) = match held {
            Some(item) => (
                is_block_item(item.id),
                resolve_placement(item, x, y, z, face, cursor_y, scene),
            ),
            None => (false, None),
        };
        if !activated && places && placed.is_none() {
            return false;
        }
        out.packets.push(
            ServerboundPacket::PlayerBlockPlacement {
                x,
                y,
                z,
                face,
                held_item: report(held),
                cursor_x,
                cursor_y,
                cursor_z,
            },
        );
        if activated {
            return true;
        }
        if places && scene.cell_loaded {
            if let Some(effect) = placed {
                out.effects.push(effect);
            }
            true
        } else {
            false
        }
    }

    /// A right click.
    pub fn right_click_mouse(&mut self, held: &Option<SlotItem>, scene: &Scene, out: &mut Outbox)
        requires
            old(self)@.wf(),
            scene.wf(),
        ensures
            turn(*final(self), *final(out)) == turn(*old(self), *old(out)).right_click(
                stack_view(*held),
                *scene,
            ),
            final(self)@.wf(),
    {
        if self.breaking.is_some() {
            return ;
        }
        self.right_click_delay_timer = 4;
        let mut consumed = false;
        match scene.target {
            Some(InteractionTarget::Entity { id, hit_x, hit_y, hit_z }) => {
                self.sync_current_play_item(out);
                out.packets.push(
                    ServerboundPacket::UseEntity {
                        target: id,
                        kind: UseEntityKind::InteractAt { x: hit_x, y: hit_y, z: hit_z },
                    },
                );
                out.packets.push(
                    ServerboundPacket::UseEntity { target: id, kind: UseEntityKind::Interact },
                );
            },
            Some(InteractionTarget::Block { x, y, z, face, cursor_x, cursor_y, cursor_z }) => {
                if self.on_player_right_click(
                    x,
                    y,
                    z,
                    face,
                    cursor_x,
                    cursor_y,
                    cursor_z,
                    held,
                    scene,
                    out,
                ) {
                    consumed = true;
                    self.swing_item(out);
                }
            },
            None => {},
        }
        if !consumed && held.is_some() {
            self.send_use_item(held, out);
        }
    }
}

/// A stack as a placement packet reports it.
fn report(held: &Option<SlotItem>) -> (item: Option<HeldItem>)
    ensures
        item == reported(stack_view(*held)),
{
    match held {
        Some(item) => Some(HeldItem { id: item.id, count: item.count, damage: item.damage }),
        None => None,
    }
}

/// Where a placement lands and as what; nothing if it is not allowed.
pub fn resolve_placement(
    item: &SlotItem,
    x: i32,
    y: i32,
    z: i32,
    face: u8,
    cursor_y: u8,
    scene: &Scene,
) -> (placed: Option<Effect>)
    requires
        i32::MIN < x < i32::MAX,
        i32::MIN < y < i32::MAX,
        i32::MIN < z < i32::MAX,
    ensures
        placed == spec_resolve_placement(item@, x, y, z, face, cursor_y, *scene),
{
    match placement_block_state(item, face, scene.facing, cursor_y, scene.shape) {
        Some(state) => if is_replaceable(scene.cell) && !scene.blocked {
            let (dx, dy, dz) = face_offset(face);
            Some(Effect::Place { x: x + dx, y: y + dy, z: z + dz, state })
        } else {
            None
        },
        None => None,
    }
}

// ── One tick of input ─────────────────────────────────────────────────────

/// The slot selected after this tick's input: chosen directly, or scrolled to
/// around the hotbar.
pub open spec fn slot_after(selected: int, a: TickActions) -> int {
    match a.slot_select {
        Some(slot) => if slot < 0 {
            0
        } else if slot >= HOTBAR {
            HOTBAR - 1
        } else {
            slot as int
        },
        None => (selected + a.slot_scroll) % (HOTBAR as int),
    }
}

impl Turn {
    /// Select a slot; changing it stops the use of an item.
    pub open spec fn select(self, a: TickActions) -> Turn {
        let slot = slot_after(self.hands.selected_slot as int, a) as i32;
        let t = self.with(HandsModel { selected_slot: slot, ..self.hands });
        if slot != self.hands.selected_slot && self.hands.using_item() {
            t.stop_using()
        } else {
            t
        }
    }

    /// Count the use of an item on. It ends when another item is in hand. Eating
    /// and drinking are heard every fourth tick from the eighth.
    pub open spec fn use_on(self, held: Option<ItemModel>, counter: i32) -> Turn {
        if !self.hands.using_item() {
            self
        } else if use_of(held) != self.hands.use_action {
            self.with(
                HandsModel { use_action: ItemUseAction::Nothing, use_item_ticks: 0, ..self.hands },
            )
        } else {
            let n = self.hands.use_item_ticks + 1;
            let t = self.with(HandsModel { use_item_ticks: n, ..self.hands });
            let drink = self.hands.use_action == ItemUseAction::Drink;
            if (drink || self.hands.use_action == ItemUseAction::Eat) && n >= 8 && n % 4 == 0 {
                t.cause(Effect::Chew { drink, roll: spec_hash2d(counter, n as i32, 0x9e37) })
            } else {
                t
            }
        }
    }

    /// What a tick does before any click: selection and the use of an item. Then
    /// a held-up use swallows all clicks; releasing the button ends it.
    pub open spec fn begin(self, a: TickActions, held: Option<ItemModel>, counter: i32) -> Turn {
        let t = self.use_on(held, counter);
        if t.hands.using_item() {
            let t = if a.right_held {
                t
            } else {
                t.stop_using()
            };
            if a.old_animations && a.attack_pressed {
                t.with(t.hands.swung())
            } else {
                t
            }
        } else {
            t
        }
    }
}

/// What the tick asks of the world next.
#[derive(Debug, Clone, Copy, PartialEq, Eq, Structural)]
pub enum Step {
    /// A left click.
    Attack,
    /// A right click.
    Use,
    /// A repeated right click.
    Repeat,
    /// The left button, held or not.
    Hold,
    Done,
}

/// The steps of a tick, in order, with the clicks a use in progress swallowed
/// left out.
pub open spec fn spec_next_step(after: Step, a: TickActions, swallowed: bool, hands: HandsModel) -> Step {
    match after {
        Step::Done => if a.attack_pressed && !swallowed {
            Step::Attack
        } else {
            spec_next_step_after_attack(a, swallowed, hands)
        },
        Step::Attack => spec_next_step_after_attack(a, swallowed, hands),
        Step::Use => spec_next_step_after_use(a, hands),
        Step::Repeat => Step::Hold,
        Step::Hold => Step::Done,
    }
}

pub open spec fn spec_next_step_after_attack(a: TickActions, swallowed: bool, hands: HandsModel) -> Step {
    if a.use_pressed && !swallowed {
        Step::Use
    } else {
        spec_next_step_after_use(a, hands)
    }
}

pub open spec fn spec_next_step_after_use(a: TickActions, hands: HandsModel) -> Step {
    if a.right_held && hands.right_click_delay_timer == 0 && !hands.using_item() {
        Step::Repeat
    } else {
        Step::Hold
    }
}

impl Turn {
    /// The effect of a step, with what the crosshair points at during it.
    pub open spec fn step(self, step: Step, a: TickActions, held: Option<ItemModel>, scene: Scene) -> Turn {
        match step {
            Step::Attack => self.click(held, scene),
            Step::Use | Step::Repeat => self.right_click(held, scene),
            Step::Hold => self.hold_left(a.left_held, held, scene),
            Step::Done => self,
        }
    }
}

/// A hotbar slot some steps on, around the hotbar.
fn scrolled(slot: i32, by: i32) -> (to: i32)
    requires
        0 <= slot < HOTBAR,
    ensures
        to == (slot + by) % HOTBAR as int,
        0 <= to < HOTBAR,
{
    // A multiple of the hotbar's length keeps the sum positive.
    let sum: i64 = slot as i64 + by as i64 + 2_147_483_655;
    assert(sum % 9 == (slot + by) % 9);
    (sum % 9) as i32
}

impl Hands {
    /// Apply this tick's hotbar selection. The server hears of it with the next
    /// action.
    pub fn select_slot(&mut self, a: &TickActions, out: &mut Outbox)
        requires
            old(self)@.wf(),
        ensures
            turn(*final(self), *final(out)) == turn(*old(self), *old(out)).select(*a),
            final(self)@.wf(),
    {
        let before = self.selected_slot;
        match a.slot_select {
            Some(slot) => {
                self.selected_slot = if slot < 0 {
                    0
                } else if slot >= HOTBAR {
                    HOTBAR - 1
                } else {
                    slot
                };
            },
            None => {
                self.selected_slot = scrolled(self.selected_slot, a.slot_scroll);
            },
        }
        if self.selected_slot != before && self.is_using_item() {
            self.on_stopped_using_item(out);
        }
    }

    /// Start a tick: count the use of an item on, and handle its release. Returns
    /// whether this tick's clicks are swallowed. `held` is the stack in the
    /// selected slot and `counter` the running tick count.
    pub fn begin_actions(
        &mut self,
        a: &TickActions,
        held: &Option<SlotItem>,
        counter: i32,
        out: &mut Outbox,
    ) -> (swallowed: bool)
        requires
            old(self)@.wf(),
            old(self)@.use_item_ticks < i32::MAX,
        ensures
            turn(*final(self), *final(out)) == turn(*old(self), *old(out)).begin(
                *a,
                stack_view(*held),
                counter,
            ),
            swallowed == turn(*old(self), *old(out)).use_on(
                stack_view(*held),
                counter,
            ).hands.using_item(),
            final(self)@.wf(),
    {
        if self.is_using_item() {
            let action = match held {
                Some(item) => item_use_action(item.id, item.damage),
                None => ItemUseAction::Nothing,
            };
            if action != self.use_action {
                self.use_action = ItemUseAction::Nothing;
                self.use_item_ticks = 0;
            } else {
                self.use_item_ticks += 1;
                let drink = self.use_action == ItemUseAction::Drink;
                if (drink || self.use_action == ItemUseAction::Eat) && self.use_item_ticks >= 8
                    && self.use_item_ticks % 4 == 0 {
                    out.effects.push(
                        Effect::Chew { drink, roll: hash2d(counter, self.use_item_ticks, 0x9e37) },
                    );
                }
            }
        }
        if !self.is_using_item() {
            return false;
        }
        if !a.right_held {
            self.on_stopped_using_item(out);
        }
        if a.old_animations && a.attack_pressed {
            self.swing_arm();
        }
        true
    }

    /// The step that comes after `after`; a tick starts and ends with
    /// [`Step::Done`].
    pub fn next_step(&self, after: Step, a: &TickActions, swallowed: bool) -> (step: Step)
        ensures
            step == spec_next_step(after, *a, swallowed, self@),
    {
        match after {
            Step::Done => if a.attack_pressed && !swallowed {
                return Step::Attack;
            },
            Step::Repeat => {
                return Step::Hold;
            },
            Step::Hold => {
                return Step::Done;
            },
            _ => {},
        }
        if after != Step::Use && a.use_pressed && !swallowed {
            return Step::Use;
        }
        if a.right_held && self.right_click_delay_timer == 0 && !self.is_using_item() {
            Step::Repeat
        } else {
            Step::Hold
        }
    }

    /// Carry out a step.
    pub fn perform(
        &mut self,
        step: Step,
        a: &TickActions,
        held: &Option<SlotItem>,
        scene: &Scene,
        out: &mut Outbox,
    )
        requires
            old(self)@.wf(),
            scene.wf(),
        ensures
            turn(*final(self), *final(out)) == turn(*old(self), *old(out)).step(
                step,
                *a,
                stack_view(*held),
                *scene,
            ),
            final(self)@.wf(),
    {
        match step {
            Step::Attack => self.click_mouse(held, scene, out),
            Step::Use | Step::Repeat => self.right_click_mouse(held, scene, out),
            Step::Hold => self.send_click_block_to_controller(a.left_held, held, scene, out),
            Step::Done => {},
        }
    }
}

// ── Laws ──────────────────────────────────────────────────────────────────

/// Dig on for `n` ticks at one cell.
pub open spec fn dig_on(
    t: Turn,
    n: nat,
    x: i32,
    y: i32,
    z: i32,
    face: u8,
    held: Option<ItemModel>,
    scene: Scene,
) -> Turn
    decreases n,
{
    if n == 0 {
        t
    } else {
        dig_on(t, (n - 1) as nat, x, y, z, face, held, scene).damage_block(
            x,
            y,
            z,
            face,
            held,
            scene,
        ).0
    }
}

/// A survival dig that was just started takes its number of ticks: with the same
/// stack, before them nothing is sent, and the last one reports the finished dig
/// and clears the block.
pub proof fn law_dig_takes_its_ticks(
    t: Turn,
    n: nat,
    x: i32,
    y: i32,
    z: i32,
    face: u8,
    held: Option<ItemModel>,
    scene: Scene,
)
    requires
        t.hands.wf(),
        !t.hands.creative,
        t.hands.selected_slot == t.hands.current_player_item,
        t.hands.block_hit_delay == 0,
        t.hands.breaking matches Some(b) && b.x == x && b.y == y && b.z == z && b.item == held
            && b.done == 0 && (b.ticks matches Some(ticks) && n <= ticks),
        !scene.block.spec_air(),
    ensures
        ({
            let after = dig_on(t, n, x, y, z, face, held, scene);
            let b = t.hands.breaking->0;
            if n < b.ticks->0 {
                after == t.with(
                    HandsModel { breaking: Some(BreakModel { done: n as int, ..b }), ..t.hands },
                )
            } else {
                after.sent == t.sent.push(
                    dig_packet(DiggingStatus::FinishDestroy, x, y, z, face),
                ) && after.effects == t.effects.push(Effect::Break { x, y, z })
                    && after.hands.breaking is None
            }
        }),
    decreases n,
{
    if n > 0 {
        law_dig_takes_its_ticks(t, (n - 1) as nat, x, y, z, face, held, scene);
    }
}

/// While an item is in use, clicks are swallowed: with the right button held, a
/// tick sends nothing at all, whatever is clicked and pointed at.
pub proof fn law_use_swallows_clicks(
    t: Turn,
    a: TickActions,
    held: Option<ItemModel>,
    scene: Scene,
    counter: i32,
)
    requires
        t.hands.using_item(),
        use_of(held) == t.hands.use_action,
        a.right_held,
    ensures
        ({
            let begun = t.begin(a, held, counter);
            &&& begun.sent == t.sent
            &&& spec_next_step(Step::Done, a, true, begun.hands) == Step::Hold
            &&& begun.step(Step::Hold, a, held, scene).sent == t.sent
        }),
{
}

/// After a left click that hit nothing in survival, left clicks do nothing for as
/// long as the lockout runs.
pub proof fn law_a_miss_locks_left_clicks(t: Turn, held: Option<ItemModel>, later: Turn, scene: Scene, miss: Scene)
    requires
        !t.hands.creative,
        t.hands.left_click_counter <= 0,
        miss.target is None,
        0 < later.hands.left_click_counter <= t.click(held, miss).hands.left_click_counter,
    ensures
        t.click(held, miss).hands.left_click_counter == 10,
        later.click(held, scene) == later,
{
}

/// Nothing is placed or used while a dig is open.
pub proof fn law_digging_blocks_right_clicks(t: Turn, held: Option<ItemModel>, scene: Scene)
    requires
        t.hands.breaking is Some,
    ensures
        t.right_click(held, scene) == t,
{
}

/// Attacking, using an item and releasing it report the selected slot first: the
/// server knows it afterwards.
pub proof fn law_actions_report_their_slot(
    t: Turn,
    held: Option<ItemModel>,
    id: i32,
    slows: bool,
)
    ensures
        t.use_item(held).hands.current_player_item == t.hands.selected_slot,
        t.attack(id, slows).hands.current_player_item == t.hands.selected_slot,
        t.stop_using().hands.current_player_item == t.hands.selected_slot,
{
}

} // verus!
