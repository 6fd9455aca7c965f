//! What clicks and keys are for: left clicks attack and dig, right clicks interact, place
//! and use, and each is told to the server as what it is.

use vstd::prelude::*;
use crate::item::ItemModel;
use crate::packets::{DiggingStatus, Real32, ServerboundPacket, UseEntityKind};
use super::actions::{interacted, nearest_slot, overlay_of, ScreenOverlay};
use super::mining::{spec_break_ticks, Shape};
use super::player::{
    slot_after, spec_next_step, use_of, BreakModel, Effect, HandsModel, InteractionTarget, Scene,
    Step, TickActions, Turn,
};
use super::rules::{spec_interactable, spec_replaceable, BlockState, ItemUseAction};

verus! {

/// What the server is told of the selected slot before an action: the slot, if it knows
/// another one.
pub open spec fn slot_told(h: HandsModel) -> Seq<ServerboundPacket> {
    if h.selected_slot == h.current_player_item {
        seq![]
    } else {
        seq![ServerboundPacket::HeldItemChange { slot: h.selected_slot as i16 }]
    }
}

/// A packet that strikes an entity or a block.
pub open spec fn strikes(packet: ServerboundPacket) -> bool {
    match packet {
        ServerboundPacket::UseEntity { kind, .. } => kind == UseEntityKind::Attack,
        ServerboundPacket::PlayerDigging { status, .. } => status != DiggingStatus::ReleaseUseItem,
        _ => false,
    }
}

/// A packet that uses an entity, a block or an item.
pub open spec fn uses(packet: ServerboundPacket) -> bool {
    match packet {
        ServerboundPacket::UseEntity { kind, .. } => kind != UseEntityKind::Attack,
        ServerboundPacket::PlayerBlockPlacement { .. } => true,
        _ => false,
    }
}

/// The placement packet that uses the stack in hand on nothing: it names no block.
pub open spec fn uses_in_air(packet: ServerboundPacket, held: ItemModel) -> bool {
    packet matches ServerboundPacket::PlayerBlockPlacement {
        x,
        y,
        z,
        face,
        held_item,
        cursor_x,
        cursor_y,
        cursor_z,
    } && x == -1 && y == -1 && z == -1 && face == 255 && cursor_x == 0 && cursor_y == 0 && cursor_z
        == 0 && (held_item matches Some(item) && item.id == held.id as i16 && item.count
        == held.count as u8 && item.damage == held.damage as i16)
}

// ── Right clicks ──────────────────────────────────────────────────────────

/// A right click on an entity tells where on it it went, then that it interacts with it;
/// with something in hand that is used too. Nothing is struck and nothing in the world
/// changes.
pub proof fn law_right_clicks_interact_with_entities(
    t: Turn,
    held: Option<ItemModel>,
    scene: Scene,
    id: i32,
    hit_x: Real32,
    hit_y: Real32,
    hit_z: Real32,
)
    requires
        t.hands.breaking is None,
        scene.target == Some(InteractionTarget::Entity { id, hit_x, hit_y, hit_z }),
    ensures
        ({
            let after = t.right_click(held, scene);
            let n = (t.sent.len() + slot_told(t.hands).len()) as int;
            &&& after.sent.len() == n + if held is Some {
                3int
            } else {
                2
            }
            &&& after.sent.take(n) == t.sent + slot_told(t.hands)
            &&& after.sent[n] == (ServerboundPacket::UseEntity {
                target: id,
                kind: UseEntityKind::InteractAt { x: hit_x, y: hit_y, z: hit_z },
            })
            &&& after.sent[n + 1] == (ServerboundPacket::UseEntity {
                target: id,
                kind: UseEntityKind::Interact,
            })
            &&& held matches Some(item) ==> uses_in_air(after.sent[n + 2], item)
            &&& after.effects == t.effects
        }),
{
    let after = t.right_click(held, scene);
    let n = (t.sent.len() + slot_told(t.hands).len()) as int;
    assert(after.sent.take(n) =~= t.sent + slot_told(t.hands));
}

/// No right click strikes anything, whatever is pointed at and held.
pub proof fn law_right_clicks_never_strike(
    t: Turn,
    held: Option<ItemModel>,
    scene: Scene,
    i: int,
)
    requires
        t.sent.len() <= i < t.right_click(held, scene).sent.len(),
    ensures
        !strikes(t.right_click(held, scene).sent[i]),
{
}

/// No right click takes back what was sent, breaks a block or ends a sprint, and each waits
/// four ticks for the next.
pub proof fn law_right_clicks_only_add(t: Turn, held: Option<ItemModel>, scene: Scene)
    requires
        t.hands.breaking is None,
    ensures
        ({
            let after = t.right_click(held, scene);
            &&& after.sent.take(t.sent.len() as int) == t.sent
            &&& after.hands.right_click_delay_timer == 4
            &&& after.hands.breaking is None
            &&& after.hands.sprinting == t.hands.sprinting
            &&& after.hands.selected_slot == t.hands.selected_slot
            &&& after.hands.left_click_counter == t.hands.left_click_counter
            &&& after.effects.len() <= t.effects.len() + 1
            &&& after.effects.take(t.effects.len() as int) == t.effects
            &&& after.effects.len() > t.effects.len() ==> after.effects.last() is Place
        }),
{
    let after = t.right_click(held, scene);
    assert(after.sent.take(t.sent.len() as int) =~= t.sent);
    assert(after.effects.take(t.effects.len() as int) =~= t.effects);
}

/// A right click in the air uses the stack in hand, if there is one.
pub proof fn law_right_clicks_in_the_air_use_the_item(
    t: Turn,
    held: Option<ItemModel>,
    scene: Scene,
)
    requires
        t.hands.breaking is None,
        scene.target is None,
    ensures
        ({
            let after = t.right_click(held, scene);
            &&& held is None ==> after.sent == t.sent
            &&& held matches Some(item) ==> after.sent.len() == t.sent.len() + slot_told(
                t.hands,
            ).len() + 1 && uses_in_air(after.sent.last(), item)
            &&& after.effects == t.effects
        }),
{
}

/// The cell that a face of a block leads to, and the one that it comes from: down and up are
/// 0 and 1, north and south 2 and 3, west and east 4 and 5.
pub open spec fn beyond(face: u8, x: int, y: int, z: int, nx: int, ny: int, nz: int) -> bool {
    &&& face == 0 ==> nx == x && ny == y - 1 && nz == z
    &&& face == 1 ==> nx == x && ny == y + 1 && nz == z
    &&& face == 2 ==> nx == x && ny == y && nz == z - 1
    &&& face == 3 ==> nx == x && ny == y && nz == z + 1
    &&& face == 4 ==> nx == x - 1 && ny == y && nz == z
    &&& face == 5 ==> nx == x + 1 && ny == y && nz == z
}

/// A block item is placed against the face that was clicked: in the cell beyond it, where
/// that may be built in and the player is not in the way. The click is told as it was and
/// the arm swings.
pub proof fn law_blocks_are_placed_beyond_the_clicked_face(
    t: Turn,
    item: ItemModel,
    scene: Scene,
    x: i32,
    y: i32,
    z: i32,
    face: u8,
    cursor_x: u8,
    cursor_y: u8,
    cursor_z: u8,
)
    requires
        t.hands.breaking is None,
        scene.wf(),
        scene.target == Some(
            InteractionTarget::Block { x, y, z, face, cursor_x, cursor_y, cursor_z },
        ),
        1 <= item.id <= 255,
        item.id != 44 && item.id != 126 && item.id != 182,
        item.id != 17 && item.id != 162 && item.id != 170,
        scene.shape == Shape::Cube,
        0 <= item.damage <= 255,
        spec_replaceable(scene.cell),
        !scene.blocked,
        scene.cell_loaded,
        scene.sneaking || !spec_interactable(scene.block.id as int),
        face <= 5,
    ensures
        ({
            let after = t.right_click(Some(item), scene);
            let n = (t.sent.len() + slot_told(t.hands).len()) as int;
            &&& after.sent.len() == n + 2
            &&& after.sent[n] matches ServerboundPacket::PlayerBlockPlacement {
                x: px,
                y: py,
                z: pz,
                face: side,
                held_item,
                cursor_x: ax,
                cursor_y: ay,
                cursor_z: az,
            } && px == x && py == y && pz == z && side == face && ax == cursor_x && ay == cursor_y
                && az == cursor_z && (held_item matches Some(told) && told.id == item.id as i16
                && told.count == item.count as u8 && told.damage == item.damage as i16)
            &&& after.sent[n + 1] == ServerboundPacket::SwingArm
            &&& after.hands.is_swinging
            &&& after.effects.len() == t.effects.len() + 1
            &&& after.effects.last() matches Effect::Place { x: nx, y: ny, z: nz, state } && beyond(
                face,
                x as int,
                y as int,
                z as int,
                nx as int,
                ny as int,
                nz as int,
            ) && state.id == item.id && state.meta == item.damage
        }),
{
    let dmg = item.damage as i16;
    assert(0 <= dmg <= 255 ==> (dmg as u8) as int == dmg as int) by (bit_vector);
}

/// A block item that cannot be placed where it was clicked sends no placement there, and
/// nothing appears: the item is used on nothing.
pub proof fn law_blocks_are_not_placed_where_they_cannot_be(
    t: Turn,
    item: ItemModel,
    scene: Scene,
    x: i32,
    y: i32,
    z: i32,
    face: u8,
    cursor_x: u8,
    cursor_y: u8,
    cursor_z: u8,
)
    requires
        t.hands.breaking is None,
        scene.target == Some(
            InteractionTarget::Block { x, y, z, face, cursor_x, cursor_y, cursor_z },
        ),
        1 <= item.id <= 255,
        !spec_replaceable(scene.cell) || scene.blocked,
        scene.sneaking || !spec_interactable(scene.block.id as int),
    ensures
        ({
            let after = t.right_click(Some(item), scene);
            &&& after.effects == t.effects
            &&& after.sent.len() == t.sent.len() + slot_told(t.hands).len() + 1
            &&& uses_in_air(after.sent.last(), item)
        }),
{
}

/// A block that activates takes the click, unless the player sneaks with something in hand:
/// the click is told, the arm swings, and neither is a block placed nor the item used.
pub proof fn law_activated_blocks_take_the_click(
    t: Turn,
    held: Option<ItemModel>,
    scene: Scene,
    x: i32,
    y: i32,
    z: i32,
    face: u8,
    cursor_x: u8,
    cursor_y: u8,
    cursor_z: u8,
)
    requires
        t.hands.breaking is None,
        scene.target == Some(
            InteractionTarget::Block { x, y, z, face, cursor_x, cursor_y, cursor_z },
        ),
        spec_interactable(scene.block.id as int),
        !scene.sneaking || held is None,
    ensures
        ({
            let after = t.right_click(held, scene);
            let n = (t.sent.len() + slot_told(t.hands).len()) as int;
            &&& after.sent.len() == n + 2
            &&& after.sent[n] matches ServerboundPacket::PlayerBlockPlacement {
                x: px,
                y: py,
                z: pz,
                face: side,
                held_item,
                cursor_x: ax,
                cursor_y: ay,
                cursor_z: az,
            } && px == x && py == y && pz == z && side == face && ax == cursor_x && ay == cursor_y
                && az == cursor_z && (held_item is Some <==> held is Some)
            &&& after.sent[n + 1] == ServerboundPacket::SwingArm
            &&& after.effects == t.effects
            &&& after.hands.use_action == t.hands.use_action
        }),
{
}

/// Using an item raises a sword, draws a bow, eats or drinks from the start, as the item
/// has it; other items are only told of.
pub proof fn law_using_an_item_begins_its_use(t: Turn, item: ItemModel)
    ensures
        ({
            let after = t.use_item(Some(item));
            let what = use_of(Some(item));
            &&& after.sent == t.sent + slot_told(t.hands) + seq![after.sent.last()]
            &&& uses_in_air(after.sent.last(), item)
            &&& what != ItemUseAction::Nothing ==> after.hands.use_action == what
                && after.hands.use_item_ticks == 0
            &&& what == ItemUseAction::Nothing ==> after.hands.use_action == t.hands.use_action
            &&& after.effects == t.effects
        }),
{
    let after = t.use_item(Some(item));
    assert(after.sent =~= t.sent + slot_told(t.hands) + seq![after.sent.last()]);
}

/// Releasing tells so, and nothing is in use any more.
pub proof fn law_releasing_ends_the_use(t: Turn)
    ensures
        ({
            let after = t.stop_using();
            &&& after.sent == t.sent + slot_told(t.hands) + seq![
                ServerboundPacket::PlayerDigging {
                    status: DiggingStatus::ReleaseUseItem,
                    x: 0,
                    y: 0,
                    z: 0,
                    face: 0,
                },
            ]
            &&& !after.hands.using_item()
            &&& after.hands.use_item_ticks == 0
            &&& after.effects == t.effects
        }),
{
    let last = ServerboundPacket::PlayerDigging {
        status: DiggingStatus::ReleaseUseItem,
        x: 0,
        y: 0,
        z: 0,
        face: 0,
    };
    assert(t.stop_using().sent =~= t.sent + slot_told(t.hands) + seq![last]);
}

// ── Left clicks ───────────────────────────────────────────────────────────

/// A left click on an entity swings and attacks it, and only that. A sprint that hits what
/// slows its attacker ends, and only such a one.
pub proof fn law_left_clicks_attack_entities(
    t: Turn,
    held: Option<ItemModel>,
    scene: Scene,
    id: i32,
    hit_x: Real32,
    hit_y: Real32,
    hit_z: Real32,
)
    requires
        t.hands.left_click_counter == 0,
        scene.target == Some(InteractionTarget::Entity { id, hit_x, hit_y, hit_z }),
    ensures
        ({
            let after = t.click(held, scene);
            let slowed = scene.slows && t.hands.sprinting;
            &&& after.sent == t.sent + seq![ServerboundPacket::SwingArm] + slot_told(t.hands)
                + seq![
                ServerboundPacket::UseEntity { target: id, kind: UseEntityKind::Attack },
            ]
            &&& after.hands.is_swinging
            &&& after.hands.sprinting == (t.hands.sprinting && !slowed)
            &&& slowed ==> after.effects == t.effects.push(Effect::SlowDown)
            &&& !slowed ==> after.effects == t.effects
            &&& after.hands.breaking == t.hands.breaking
            &&& after.hands.left_click_counter == 0
        }),
{
    assert(t.click(held, scene).sent =~= t.sent + seq![ServerboundPacket::SwingArm] + slot_told(
        t.hands,
    ) + seq![ServerboundPacket::UseEntity { target: id, kind: UseEntityKind::Attack }]);
}

/// No left click uses anything, whatever is pointed at and held; nor does holding the
/// button.
pub proof fn law_left_clicks_never_use(
    t: Turn,
    held: Option<ItemModel>,
    scene: Scene,
    down: bool,
    i: int,
)
    ensures
        t.sent.len() <= i < t.click(held, scene).sent.len() ==> !uses(
            t.click(held, scene).sent[i],
        ),
        t.sent.len() <= i < t.hold_left(down, held, scene).sent.len() ==> !uses(
            t.hold_left(down, held, scene).sent[i],
        ),
{
}

/// A left click on a block in survival swings and starts a dig there: a dig elsewhere, or
/// with another stack, is called off first. A block that takes a tick breaks at once.
pub proof fn law_left_clicks_start_digs(
    t: Turn,
    held: Option<ItemModel>,
    scene: Scene,
    x: i32,
    y: i32,
    z: i32,
    face: u8,
    cursor_x: u8,
    cursor_y: u8,
    cursor_z: u8,
)
    requires
        t.hands.left_click_counter == 0,
        !t.hands.creative,
        scene.target == Some(
            InteractionTarget::Block { x, y, z, face, cursor_x, cursor_y, cursor_z },
        ),
        t.hands.breaking matches Some(b) ==> b.x != x || b.y != y || b.z != z || b.item != held,
    ensures
        ({
            let after = t.click(held, scene);
            let ticks = spec_break_ticks(held, scene.block, scene.condition);
            let off = match t.hands.breaking {
                Some(b) => seq![
                    ServerboundPacket::PlayerDigging {
                        status: DiggingStatus::CancelDestroy,
                        x: b.x,
                        y: b.y,
                        z: b.z,
                        face,
                    },
                ],
                None => seq![],
            };
            &&& after.sent == t.sent + seq![ServerboundPacket::SwingArm] + off + seq![
                ServerboundPacket::PlayerDigging {
                    status: DiggingStatus::StartDestroy,
                    x,
                    y,
                    z,
                    face,
                },
            ]
            &&& ticks == Some(1int) ==> after.hands.breaking is None && after.effects
                == t.effects.push(Effect::Break { x, y, z })
            &&& ticks != Some(1int) ==> after.effects == t.effects && (
            after.hands.breaking matches Some(b) && b.x == x && b.y == y && b.z == z && b.done == 0
                && b.ticks == ticks && b.item == held)
        }),
{
    let off = match t.hands.breaking {
        Some(b) => seq![
            ServerboundPacket::PlayerDigging {
                status: DiggingStatus::CancelDestroy,
                x: b.x,
                y: b.y,
                z: b.z,
                face,
            },
        ],
        None => seq![],
    };
    assert(t.click(held, scene).sent =~= t.sent + seq![ServerboundPacket::SwingArm] + off + seq![
        ServerboundPacket::PlayerDigging { status: DiggingStatus::StartDestroy, x, y, z, face },
    ]);
}

/// In creative a left click on a block breaks it at once, unless a sword is in hand; then
/// there is a pause of five ticks.
pub proof fn law_creative_clicks_break_at_once(
    t: Turn,
    held: Option<ItemModel>,
    scene: Scene,
    x: i32,
    y: i32,
    z: i32,
    face: u8,
    cursor_x: u8,
    cursor_y: u8,
    cursor_z: u8,
)
    requires
        t.hands.left_click_counter == 0,
        t.hands.creative,
        scene.target == Some(
            InteractionTarget::Block { x, y, z, face, cursor_x, cursor_y, cursor_z },
        ),
    ensures
        ({
            let after = t.click(held, scene);
            let sword = held matches Some(item) && (item.id == 267 || item.id == 268 || item.id
                == 272 || item.id == 276 || item.id == 283);
            &&& after.sent == t.sent + seq![
                ServerboundPacket::SwingArm,
                ServerboundPacket::PlayerDigging {
                    status: DiggingStatus::StartDestroy,
                    x,
                    y,
                    z,
                    face,
                },
            ]
            &&& sword ==> after.effects == t.effects
            &&& !sword ==> after.effects == t.effects.push(Effect::Break { x, y, z })
            &&& after.hands.block_hit_delay == 5
        }),
{
    assert(t.click(held, scene).sent =~= t.sent + seq![
        ServerboundPacket::SwingArm,
        ServerboundPacket::PlayerDigging { status: DiggingStatus::StartDestroy, x, y, z, face },
    ]);
}

/// A left click on the block and with the stack of the open dig only swings; a left click at
/// nothing only swings too, and in survival locks left clicks for ten ticks.
pub proof fn law_other_left_clicks_only_swing(t: Turn, held: Option<ItemModel>, scene: Scene)
    requires
        t.hands.left_click_counter == 0,
        scene.target is None || !t.hands.creative && (
        scene.target matches Some(InteractionTarget::Block { x, y, z, .. })
            && (t.hands.breaking matches Some(b) && b.x == x && b.y == y && b.z == z && b.item
            == held)),
    ensures
        ({
            let after = t.click(held, scene);
            &&& after.sent == t.sent.push(ServerboundPacket::SwingArm)
            &&& after.effects == t.effects
            &&& after.hands.breaking == t.hands.breaking
            &&& after.hands.is_swinging
            &&& after.hands.left_click_counter == if scene.target is None && !t.hands.creative {
                10int
            } else {
                0
            }
        }),
{
}

/// Without the button held, or with nothing there, an open dig is called off where it was;
/// without one nothing is sent.
pub proof fn law_letting_go_calls_the_dig_off(t: Turn, held: Option<ItemModel>, scene: Scene)
    requires
        !t.hands.using_item(),
    ensures
        ({
            let after = t.hold_left(false, held, scene);
            &&& after.hands.breaking is None
            &&& after.hands.left_click_counter == 0
            &&& after.effects == t.effects
            &&& t.hands.breaking is None ==> after.sent == t.sent
            &&& t.hands.breaking matches Some(b) ==> after.sent == t.sent.push(
                ServerboundPacket::PlayerDigging {
                    status: DiggingStatus::CancelDestroy,
                    x: b.x,
                    y: b.y,
                    z: b.z,
                    face: 0,
                },
            )
        }),
{
}

/// Holding the button on digs on, tick by tick, and swings; the tick that ends the dig tells
/// so and clears the block, and five ticks of pause follow.
pub proof fn law_holding_digs_on(
    t: Turn,
    held: Option<ItemModel>,
    scene: Scene,
    x: i32,
    y: i32,
    z: i32,
    face: u8,
    cursor_x: u8,
    cursor_y: u8,
    cursor_z: u8,
    b: BreakModel,
)
    requires
        t.hands.left_click_counter == 0,
        !t.hands.using_item(),
        !t.hands.creative,
        t.hands.block_hit_delay == 0,
        t.hands.selected_slot == t.hands.current_player_item,
        scene.target == Some(
            InteractionTarget::Block { x, y, z, face, cursor_x, cursor_y, cursor_z },
        ),
        !scene.block.spec_air(),
        t.hands.breaking == Some(b),
        b.x == x && b.y == y && b.z == z && b.item == held,
    ensures
        ({
            let after = t.hold_left(true, held, scene);
            let ends = b.ticks == Some(b.done + 1);
            &&& ends ==> after.sent == t.sent + seq![
                ServerboundPacket::PlayerDigging {
                    status: DiggingStatus::FinishDestroy,
                    x,
                    y,
                    z,
                    face,
                },
                ServerboundPacket::SwingArm,
            ] && after.effects == t.effects.push(Effect::Break { x, y, z })
                && after.hands.breaking is None && after.hands.block_hit_delay == 5
            &&& !ends ==> after.sent == t.sent.push(ServerboundPacket::SwingArm) && after.effects
                == t.effects && (after.hands.breaking matches Some(d) && d.x == x && d.y == y && d.z
                == z && d.item == held && d.ticks == b.ticks && d.done == if b.ticks is Some {
                b.done + 1
            } else {
                b.done
            })
        }),
{
    let after = t.hold_left(true, held, scene);
    if b.ticks == Some(b.done + 1) {
        assert(after.sent =~= t.sent + seq![
            ServerboundPacket::PlayerDigging {
                status: DiggingStatus::FinishDestroy,
                x,
                y,
                z,
                face,
            },
            ServerboundPacket::SwingArm,
        ]);
    }
}

/// After a block broke, holding the button only swings while the pause runs down.
pub proof fn law_digs_pause_after_a_break(
    t: Turn,
    held: Option<ItemModel>,
    scene: Scene,
    x: i32,
    y: i32,
    z: i32,
    face: u8,
    cursor_x: u8,
    cursor_y: u8,
    cursor_z: u8,
)
    requires
        t.hands.left_click_counter == 0,
        !t.hands.using_item(),
        t.hands.block_hit_delay > 0,
        t.hands.selected_slot == t.hands.current_player_item,
        scene.target == Some(
            InteractionTarget::Block { x, y, z, face, cursor_x, cursor_y, cursor_z },
        ),
        !scene.block.spec_air(),
    ensures
        ({
            let after = t.hold_left(true, held, scene);
            &&& after.sent == t.sent.push(ServerboundPacket::SwingArm)
            &&& after.effects == t.effects
            &&& after.hands.block_hit_delay == t.hands.block_hit_delay - 1
            &&& after.hands.breaking == t.hands.breaking
        }),
{
}

/// While an item is in use or left clicks are locked, holding the button does nothing.
pub proof fn law_busy_hands_do_not_dig(t: Turn, held: Option<ItemModel>, scene: Scene)
    requires
        t.hands.left_click_counter > 0 || t.hands.using_item(),
    ensures
        t.hold_left(true, held, scene) == t,
{
}

// ── Extensions ────────────────────────────────────────────────────────────

/// What extensions right-click is interacted with, at the point that they name, and never
/// struck.
pub proof fn law_extensions_interact(t: Turn, id: i32, at: Option<(Real32, Real32, Real32)>)
    ensures
        ({
            let after = interacted(t, id, at);
            let point = match at {
                Some((x, y, z)) => seq![
                    ServerboundPacket::UseEntity {
                        target: id,
                        kind: UseEntityKind::InteractAt { x, y, z },
                    },
                ],
                None => seq![],
            };
            &&& after.sent == t.sent + slot_told(t.hands) + point + seq![
                ServerboundPacket::UseEntity { target: id, kind: UseEntityKind::Interact },
            ]
            &&& after.effects == t.effects
        }),
{
    let point = match at {
        Some((x, y, z)) => seq![
            ServerboundPacket::UseEntity {
                target: id,
                kind: UseEntityKind::InteractAt { x, y, z },
            },
        ],
        None => seq![],
    };
    assert(interacted(t, id, at).sent =~= t.sent + slot_told(t.hands) + point + seq![
        ServerboundPacket::UseEntity { target: id, kind: UseEntityKind::Interact },
    ]);
}

/// An attack of an extension is told as one, after the slot.
pub proof fn law_attacks_are_told(t: Turn, id: i32, slows: bool)
    ensures
        ({
            let after = t.attack(id, slows);
            &&& after.sent == t.sent + slot_told(t.hands) + seq![
                ServerboundPacket::UseEntity { target: id, kind: UseEntityKind::Attack },
            ]
            &&& after.hands.sprinting == (t.hands.sprinting && !slows)
        }),
{
    assert(t.attack(id, slows).sent =~= t.sent + slot_told(t.hands) + seq![
        ServerboundPacket::UseEntity { target: id, kind: UseEntityKind::Attack },
    ]);
}

/// A slot between 0 and 8 is selected as it is; past either end it is the one there.
pub proof fn law_the_nearest_slot_is_selected(slot: i32)
    ensures
        0 <= nearest_slot(slot) <= 8,
        0 <= slot <= 8 ==> nearest_slot(slot) == slot,
        slot < 0 ==> nearest_slot(slot) == 0,
        slot > 8 ==> nearest_slot(slot) == 8,
{
}

/// The screen is tinted by the liquid the eye is in, whatever burns; else by flames.
pub proof fn law_liquids_tint_before_flames(block: BlockState, on_fire: bool)
    ensures
        overlay_of(block, on_fire) == ScreenOverlay::Water <==> block.id == 8 || block.id == 9,
        overlay_of(block, on_fire) == ScreenOverlay::Lava <==> block.id == 10 || block.id == 11,
        overlay_of(block, on_fire) == ScreenOverlay::Fire <==> on_fire && !block.spec_liquid(),
{
}

// ── A tick ────────────────────────────────────────────────────────────────

/// A slot that is chosen is the selected one, and scrolling goes around the nine slots: nine
/// steps lead back, and opposite steps undo each other.
pub proof fn law_scrolling_goes_around(selected: int, a: TickActions)
    requires
        0 <= selected < 9,
    ensures
        0 <= slot_after(selected, a) < 9,
        a.slot_select matches Some(slot) ==> (0 <= slot < 9 ==> slot_after(selected, a) == slot)
            && (slot < 0 ==> slot_after(selected, a) == 0) && (slot > 8 ==> slot_after(selected, a)
            == 8),
        a.slot_select is None ==> {
            &&& (slot_after(selected, a) - selected - a.slot_scroll) % 9 == 0
            &&& 0 <= selected + a.slot_scroll < 9 ==> slot_after(selected, a) == selected
                + a.slot_scroll
        },
{
}

/// Selecting another slot ends the use of an item, selecting the same one does not; no slot
/// is told before the next action.
pub proof fn law_another_slot_ends_the_use(t: Turn, a: TickActions)
    requires
        t.hands.wf(),
    ensures
        ({
            let after = t.select(a);
            let slot = slot_after(t.hands.selected_slot as int, a);
            &&& after.hands.selected_slot == slot
            &&& slot == t.hands.selected_slot ==> after == t
            &&& slot != t.hands.selected_slot ==> !after.hands.using_item()
            &&& !t.hands.using_item() ==> after.sent == t.sent
        }),
{
    law_scrolling_goes_around(t.hands.selected_slot as int, a);
}

/// A use is counted tick by tick while the item is in hand, and ends without it. Bites and
/// gulps are heard at the eighth tick, the twelfth and so on, as what they are.
pub proof fn law_uses_are_counted_and_heard(t: Turn, held: Option<ItemModel>, counter: i32)
    requires
        t.hands.using_item(),
    ensures
        ({
            let after = t.use_on(held, counter);
            let n = t.hands.use_item_ticks + 1;
            let goes_on = use_of(held) == t.hands.use_action;
            let mouth = t.hands.use_action == ItemUseAction::Eat || t.hands.use_action
                == ItemUseAction::Drink;
            let heard = goes_on && mouth && n >= 8 && n % 4 == 0;
            &&& goes_on ==> after.hands.use_action == t.hands.use_action
                && after.hands.use_item_ticks == n
            &&& !goes_on ==> !after.hands.using_item() && after.hands.use_item_ticks == 0
            &&& after.effects.len() == t.effects.len() + if heard {
                1int
            } else {
                0
            }
            &&& heard ==> (after.effects.last() matches Effect::Chew { drink, .. } && drink == (
            t.hands.use_action == ItemUseAction::Drink))
            &&& after.sent == t.sent
        }),
{
}

/// A use goes on while the button is held and ends when it is released.
pub proof fn law_releasing_the_button_ends_the_use(
    t: Turn,
    a: TickActions,
    held: Option<ItemModel>,
    counter: i32,
)
    requires
        t.hands.using_item(),
        use_of(held) == t.hands.use_action,
    ensures
        a.right_held ==> t.begin(a, held, counter).hands.use_action == t.hands.use_action,
        !a.right_held ==> !t.begin(a, held, counter).hands.using_item() && t.begin(
            a,
            held,
            counter,
        ).sent.last() == (ServerboundPacket::PlayerDigging {
            status: DiggingStatus::ReleaseUseItem,
            x: 0,
            y: 0,
            z: 0,
            face: 0,
        }),
{
}

/// The steps of a tick come in one order: the left click, the right click, its repetition,
/// the held button. Each comes at most once, and the held button always does.
pub proof fn law_steps_come_in_order(
    a: TickActions,
    swallowed: bool,
    h0: HandsModel,
    h1: HandsModel,
    h2: HandsModel,
    h3: HandsModel,
)
    ensures
        ({
            let first = spec_next_step(Step::Done, a, swallowed, h0);
            &&& first == Step::Attack <==> a.attack_pressed && !swallowed
            &&& first == Step::Use <==> !a.attack_pressed && a.use_pressed && !swallowed
            &&& first != Step::Done
        }),
        ({
            let second = spec_next_step(Step::Attack, a, swallowed, h1);
            &&& second == Step::Use <==> a.use_pressed && !swallowed
            &&& second == Step::Use || second == Step::Repeat || second == Step::Hold
        }),
        ({
            let third = spec_next_step(Step::Use, a, swallowed, h2);
            &&& third == Step::Repeat <==> a.right_held && h2.right_click_delay_timer == 0
                && !h2.using_item()
            &&& third == Step::Repeat || third == Step::Hold
        }),
        spec_next_step(Step::Repeat, a, swallowed, h3) == Step::Hold,
        spec_next_step(Step::Hold, a, swallowed, h3) == Step::Done,
{
}

/// A swing runs for six ticks and then rests; while its first half runs another click does
/// not start it over.
pub proof fn law_swings_run_their_length(h: HandsModel)
    requires
        h.wf(),
        h.is_swinging,
    ensures
        0 <= h.swing_progress_int < 3 ==> h.swung() == h,
        h.swing_progress_int >= 3 ==> h.swung().swing_progress_int == -1 && h.swung().is_swinging,
        h.swing_progress_int < 5 ==> h.swing_step().is_swinging && h.swing_step().swing_progress_int
            == h.swing_progress_int + 1,
        h.swing_progress_int == 5 ==> !h.swing_step().is_swinging
            && h.swing_step().swing_progress_int == 0,
{
}

/// A resting arm starts to swing from the beginning, and rests until then.
pub proof fn law_resting_arms_start_over(h: HandsModel)
    requires
        !h.is_swinging,
    ensures
        h.swung().is_swinging,
        h.swung().swing_progress_int == -1,
        !h.swing_step().is_swinging,
        h.swing_step().swing_progress_int == 0,
{
}

/// The click timers run down to zero and stay there.
pub proof fn law_click_timers_run_down(h: HandsModel)
    requires
        h.wf(),
    ensures
        ({
            let after = h.timers_step();
            &&& h.right_click_delay_timer > 0 ==> after.right_click_delay_timer
                == h.right_click_delay_timer - 1
            &&& h.right_click_delay_timer == 0 ==> after.right_click_delay_timer == 0
            &&& h.left_click_counter > 0 ==> after.left_click_counter == h.left_click_counter - 1
            &&& h.left_click_counter == 0 ==> after.left_click_counter == 0
            &&& after.block_hit_delay == h.block_hit_delay
            &&& after.selected_slot == h.selected_slot
            &&& after.breaking == h.breaking
            &&& after.use_action == h.use_action
            &&& after.use_item_ticks == h.use_item_ticks
        }),
{
}

/// The cracks of a dig show how many tenths of its ticks are done.
pub proof fn law_cracks_show_tenths(b: BreakModel)
    requires
        b.wf(),
    ensures
        0 <= b.stage() <= 9,
        b.ticks matches Some(n) ==> b.stage() * n <= 10 * b.done < (b.stage() + 1) * n,
        b.ticks is None ==> b.stage() == 0,
{
    if let Some(n) = b.ticks {
        let d = b.done;
        let s = d * 10 / n;
        assert(0 <= s <= 9 && s * n <= 10 * d < (s + 1) * n) by (nonlinear_arith)
            requires
                0 <= d < n,
                s == d * 10 / n,
        ;
    }
}

/// While an item is used the arm swings only where that is wanted and the button was
/// pressed; nothing is told of it.
pub proof fn law_the_arm_swings_in_use_only_where_wanted(
    t: Turn,
    a: TickActions,
    held: Option<ItemModel>,
    counter: i32,
)
    requires
        t.hands.using_item(),
        use_of(held) == t.hands.use_action,
        a.right_held,
        !t.hands.is_swinging,
    ensures
        t.begin(a, held, counter).hands.is_swinging <==> a.old_animations && a.attack_pressed,
        t.begin(a, held, counter).sent == t.sent,
        t.begin(a, held, counter).hands.use_item_ticks == t.hands.use_item_ticks + 1,
{
}

} // verus!
