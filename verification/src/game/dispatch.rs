//! What the client does with each packet from the server: how its own state
//! changes, and what it asks of the world and the audio around it.

use vstd::prelude::*;
use crate::chat::component::{
    flat_message, flatten_chat_json, message_segments, parse_chat_components, segments_text,
};
use crate::chat::lang::Language;
use crate::chat::state::{backlog_view, with_line, LineModel};
use crate::clientbound::{
    AttributeModifier, BoardPacket, BulkChunkData, ClientboundPlayPacket, EntityProperty,
    MetadataEntry, MetadataValue,
};
use crate::container::state::Container;
use crate::container::trades::{parse_trade_list, recipes_view, trade_list_at};
use crate::item::SlotItem;
use crate::packets::{Real32, Real64};
use crate::text::same_text;
use super::entities::{packed_block, spec_packed_block, worn, EntityTables, EQUIPMENT_SLOTS};
use super::fixtures::{flattened, sign_text, BlockPos, Fixtures};
use super::motion::PlayerCapabilities;
use super::music::MusicModel;
use super::player::HandsModel;
use super::rules::BlockState;
use super::sounds::{
    effect_event, sounding, spec_effect_event, EntitySound, EntitySounds, Mood,
};
use super::state::{GameState, Session};
use super::terrain::{are_in_range, records_fit, BlockEdit};
use super::title::times_fit;
use super::vitals::{ActiveEffect, VitalsModel};
use super::weather::{handle_change_game_state, weather_after, Weather};

verus! {

/// What kind of entity appears.
#[derive(Debug, Clone, Copy, PartialEq, Eq, Structural)]
pub enum EntityKind {
    LocalPlayer,
    RemotePlayer,
    Mob(u8),
    Object(u8),
    ExperienceOrb,
}

/// An attribute of the local player that is used.
#[derive(Debug, Clone, Copy, PartialEq, Eq, Structural)]
pub enum AttributeKind {
    MovementSpeed,
    MaxHealth,
}

/// Something to do in the world, or to be heard.
#[allow(inconsistent_fields)]
#[derive(Debug, PartialEq, Eq)]
pub enum Order {
    /// Whether the dimension has a sky.
    SkyLight { on: bool },
    /// Put the player's entity into the world.
    ShowPlayer,
    /// Stop the player's motion.
    Halt,
    /// Move the player; each coordinate is absolute or added to the old one.
    Teleport {
        x: Real64,
        y: Real64,
        z: Real64,
        yaw: Real32,
        pitch: Real32,
        add_x: bool,
        add_y: bool,
        add_z: bool,
        add_yaw: bool,
        add_pitch: bool,
    },
    /// Decode a column into the world; its sections are reported back.
    DecodeColumn {
        x: i32,
        z: i32,
        ground_up: bool,
        primary_bit_mask: u16,
        sky_light: bool,
        data: Vec<u8>,
    },
    /// Take a column out of the world; that it is gone is reported back.
    RemoveColumn { x: i32, z: i32 },
    SetBlock { edit: BlockEdit },
    Particle {
        particle_id: i32,
        x: Real32,
        y: Real32,
        z: Real32,
        offset_x: Real32,
        offset_y: Real32,
        offset_z: Real32,
        speed: Real32,
        count: i32,
        args: Vec<i32>,
    },
    Spawn {
        id: i32,
        kind: EntityKind,
        x: Real64,
        y: Real64,
        z: Real64,
        yaw: Real32,
        pitch: Real32,
    },
    /// Set an entity's motion.
    Velocity { id: i32, vx: Real64, vy: Real64, vz: Real64 },
    /// Set the player's motion.
    Push { vx: Real64, vy: Real64, vz: Real64 },
    /// Move an entity by an offset, keeping its look where none is given.
    Move { id: i32, dx: Real64, dy: Real64, dz: Real64, look: Option<(Real32, Real32)> },
    Look { id: i32, yaw: Real32, pitch: Real32 },
    Place { id: i32, x: Real64, y: Real64, z: Real64, yaw: Real32, pitch: Real32 },
    HeadLook { id: i32, yaw: Real32 },
    Remove { id: i32 },
    StopSound { sound: u64 },
    Swing { id: i32 },
    Hurt { id: i32 },
    Die { id: i32 },
    /// The player's own hurt animation and sound.
    HurtPlayer,
    Attribute { kind: AttributeKind, property: EntityProperty },
    Pose { id: i32, sneaking: bool, using_item: bool, on_fire: bool, invisible: bool },
    Name { id: i32, name: Option<String> },
    NameShown { id: i32, shown: bool },
    EntityHealth { id: i32, health: Real32 },
    PlaySound { name: String, x: Real64, y: Real64, z: Real64, volume: Real32, pitch: u8 },
    Thunder { x: Real64, y: Real64, z: Real64 },
    /// A world effect that is heard.
    WorldEffect { effect_id: i32, x: i32, y: i32, z: i32, data: i32 },
    Note { x: i32, y: i32, z: i32, instrument: u8, note: u8 },
    ChestLid { x: i32, y: i32, z: i32, open: bool },
    /// The player picked something up; the roll varies the sound.
    Pickup { id: i32, xp: bool, roll: u32 },
    Board { packet: BoardPacket },
    Disconnected { reason_json: String },
}

/// What came of a packet: orders to carry out, and whether terrain changed.
#[derive(Debug, PartialEq, Eq)]
pub struct Outcome {
    pub orders: Vec<Order>,
    pub remesh: bool,
}

/// One order.
pub open spec fn one(order: Order) -> Seq<Order> {
    seq![order]
}

/// An order about an entity, unless it is the player's own.
pub open spec fn remote(me: i32, id: i32, order: Order) -> Seq<Order> {
    if id == me {
        Seq::empty()
    } else {
        seq![order]
    }
}

/// Whether a movement flag is set.
pub open spec fn flag(flags: i8, bit: i8) -> bool {
    flags & bit != 0
}

// ── Metadata ──────────────────────────────────────────────────────────────

/// The orders that one metadata entry of an entity gives.
pub open spec fn entry_orders(me: i32, id: i32, entry: MetadataEntry) -> Seq<Order> {
    if id == me {
        Seq::empty()
    } else {
        match (entry.index, entry.value) {
            (0u8, MetadataValue::Byte(flags)) => one(
                Order::Pose {
                    id,
                    sneaking: flag(flags, 0x02),
                    using_item: flag(flags, 0x10),
                    on_fire: flag(flags, 0x01),
                    invisible: flag(flags, 0x20),
                },
            ),
            (2u8, MetadataValue::Str(name)) => one(
                Order::Name {
                    id,
                    name: if name@.len() == 0 {
                        None
                    } else {
                        Some(name)
                    },
                },
            ),
            (3u8, MetadataValue::Byte(shown)) => one(Order::NameShown { id, shown: shown != 0 }),
            (6u8, MetadataValue::Float(health)) => if health.spec_not_positive() {
                seq![Order::EntityHealth { id, health }, Order::Die { id }]
            } else {
                one(Order::EntityHealth { id, health })
            },
            _ => Seq::empty(),
        }
    }
}

/// The orders that the first `n` metadata entries give.
pub open spec fn metadata_orders(me: i32, id: i32, entries: Seq<MetadataEntry>, n: int) -> Seq<Order>
    decreases n,
{
    if n <= 0 {
        Seq::empty()
    } else {
        metadata_orders(me, id, entries, n - 1) + entry_orders(me, id, entries[n - 1])
    }
}

/// The stack that the first `n` metadata entries give a dropped item.
pub open spec fn metadata_item(entries: Seq<MetadataEntry>, n: int) -> Option<SlotItem>
    decreases n,
{
    if n <= 0 {
        None
    } else {
        match (entries[n - 1].index, entries[n - 1].value) {
            (10u8, MetadataValue::Slot(Some(item))) => Some(item),
            _ => metadata_item(entries, n - 1),
        }
    }
}

/// Whether the player burns after the first `n` metadata entries of its own.
pub open spec fn metadata_fire(entries: Seq<MetadataEntry>, n: int, before: bool) -> bool
    decreases n,
{
    if n <= 0 {
        before
    } else {
        match (entries[n - 1].index, entries[n - 1].value) {
            (0u8, MetadataValue::Byte(flags)) => flag(flags, 0x01),
            _ => metadata_fire(entries, n - 1, before),
        }
    }
}

// ── Attributes ────────────────────────────────────────────────────────────

/// The attribute that a key names, if it is used.
pub open spec fn attribute_kind(key: Seq<char>) -> Option<AttributeKind> {
    if key == "generic.movementSpeed"@ {
        Some(AttributeKind::MovementSpeed)
    } else if key == "generic.maxHealth"@ {
        Some(AttributeKind::MaxHealth)
    } else {
        None
    }
}

/// The orders that the first `n` attributes give.
pub open spec fn attribute_orders(properties: Seq<EntityProperty>, n: int) -> Seq<Order>
    decreases n,
{
    if n <= 0 {
        Seq::empty()
    } else {
        let rest = attribute_orders(properties, n - 1);
        match attribute_kind(properties[n - 1].key@) {
            Some(kind) => rest.push(Order::Attribute { kind, property: properties[n - 1] }),
            None => rest,
        }
    }
}

/// The modifier that stands for sprinting, which the movement rules add
/// themselves.
pub open spec fn sprint_boost() -> Seq<u8> {
    seq![
        0x66u8,
        0x2au8,
        0x6bu8,
        0x8du8,
        0xdau8,
        0x3eu8,
        0x4cu8,
        0x1cu8,
        0x88u8,
        0x13u8,
        0x96u8,
        0xeau8,
        0x60u8,
        0x97u8,
        0x27u8,
        0x8du8,
    ]
}

/// The modifier that does not count towards an attribute: the sprint boost for
/// speed, the nameless one for health.
pub open spec fn excluded_modifier(kind: AttributeKind) -> Seq<u8> {
    match kind {
        AttributeKind::MovementSpeed => sprint_boost(),
        AttributeKind::MaxHealth => Seq::new(16, |i: int| 0u8),
    }
}

/// Whether a modifier counts towards an attribute.
fn modifier_counts(kind: AttributeKind, modifier: &AttributeModifier) -> (yes: bool)
    ensures
        yes == (modifier.uuid@ != excluded_modifier(kind)),
{
    let excluded: Vec<u8> = match kind {
        AttributeKind::MovementSpeed => vec![
            0x66u8,
            0x2a,
            0x6b,
            0x8d,
            0xda,
            0x3e,
            0x4c,
            0x1c,
            0x88,
            0x13,
            0x96,
            0xea,
            0x60,
            0x97,
            0x27,
            0x8d,
        ],
        AttributeKind::MaxHealth => vec![0u8, 0, 0, 0, 0, 0, 0, 0, 0, 0, 0, 0, 0, 0, 0, 0],
    };
    let ghost wanted = excluded_modifier(kind);
    assert(excluded@ =~= wanted);
    let mut i: usize = 0;
    while i < 16
        invariant
            i <= 16,
            excluded@ == wanted,
            wanted == excluded_modifier(kind),
            wanted.len() == 16,
            modifier.uuid@.len() == 16,
            forall|j: int| 0 <= j < i ==> modifier.uuid@[j] == wanted[j],
        decreases 16 - i,
    {
        if modifier.uuid[i] != excluded[i] {
            assert(modifier.uuid@[i as int] != wanted[i as int]);
            return true;
        }
        i += 1;
    }
    assert(modifier.uuid@ =~= wanted);
    false
}

/// The modifiers of an attribute with one operation that count, among the first `n`.
pub open spec fn counted(
    kind: AttributeKind,
    modifiers: Seq<AttributeModifier>,
    operation: i8,
    n: int,
) -> Seq<AttributeModifier>
    decreases n,
{
    if n <= 0 {
        Seq::empty()
    } else {
        let rest = counted(kind, modifiers, operation, n - 1);
        let m = modifiers[n - 1];
        if m.operation == operation && m.uuid@ != excluded_modifier(kind) {
            rest.push(m)
        } else {
            rest
        }
    }
}

fn push_counted(
    kind: AttributeKind,
    modifiers: &Vec<AttributeModifier>,
    operation: i8,
    out: &mut Vec<AttributeModifier>,
)
    ensures
        final(out)@ == old(out)@ + counted(kind, modifiers@, operation, modifiers@.len() as int),
{
    let mut i: usize = 0;
    assert(out@ =~= old(out)@ + counted(kind, modifiers@, operation, 0));
    while i < modifiers.len()
        invariant
            i <= modifiers@.len(),
            out@ == old(out)@ + counted(kind, modifiers@, operation, i as int),
        decreases modifiers@.len() - i,
    {
        if modifiers[i].operation == operation && modifier_counts(kind, &modifiers[i]) {
            out.push(modifiers[i]);
        }
        i += 1;
        assert(out@ =~= old(out)@ + counted(kind, modifiers@, operation, i as int));
    }
}

/// The modifiers that make the value of an attribute, in the order in which they are
/// applied.
pub open spec fn steps_of(kind: AttributeKind, modifiers: Seq<AttributeModifier>) -> Seq<
    AttributeModifier,
> {
    let n = modifiers.len() as int;
    counted(kind, modifiers, 0, n) + counted(kind, modifiers, 1, n) + counted(kind, modifiers, 2, n)
}

/// The modifiers that make the value of an attribute, in the order in which they are
/// applied: first those that add to the base, then those that add a share of that sum,
/// then those that scale the result. Other operations do nothing. The arithmetic, on
/// floating-point numbers, is left to the host.
pub fn attribute_steps(kind: AttributeKind, modifiers: &Vec<AttributeModifier>) -> (steps: Vec<
    AttributeModifier,
>)
    ensures
        steps@ == steps_of(kind, modifiers@),
{
    let mut steps: Vec<AttributeModifier> = Vec::new();
    push_counted(kind, modifiers, 0, &mut steps);
    push_counted(kind, modifiers, 1, &mut steps);
    push_counted(kind, modifiers, 2, &mut steps);
    let ghost n = modifiers@.len() as int;
    assert(Seq::<AttributeModifier>::empty() + counted(kind, modifiers@, 0, n) =~= counted(
        kind,
        modifiers@,
        0,
        n,
    ));
    steps
}

// ── Blocks and columns ────────────────────────────────────────────────────

/// The orders for block changes that are made now.
pub open spec fn edit_orders(edits: Seq<BlockEdit>) -> Seq<Order> {
    Seq::new(edits.len(), |i: int| Order::SetBlock { edit: edits[i] })
}

/// The packet's numbers are in the range that coordinates and times have.
pub open spec fn packet_fits(g: GameState, packet: ClientboundPlayPacket) -> bool {
    match packet {
        ClientboundPlayPacket::MultiBlockChange { chunk_x, chunk_z, changes } => records_fit(
            chunk_x as int,
            chunk_z as int,
            changes@,
        ),
        ClientboundPlayPacket::TimeUpdate { time_of_day } => time_of_day > i64::MIN,
        ClientboundPlayPacket::Title { action } => times_fit(g.title@, action),
        _ => true,
    }
}

/// The orders for the first `n` columns of many: an empty one is unloaded, the
/// others are decoded.
pub open spec fn bulk_orders(chunks: Seq<BulkChunkData>, sky_light: bool, n: int) -> Seq<Order>
    decreases n,
{
    if n <= 0 {
        Seq::empty()
    } else {
        bulk_orders(chunks, sky_light, n - 1).push(
            column_order(
                chunks[n - 1].x,
                chunks[n - 1].z,
                true,
                chunks[n - 1].primary_bit_mask,
                sky_light,
                chunks[n - 1].data,
            ),
        )
    }
}

/// The order for one column: an empty full one is unloaded.
pub open spec fn column_order(
    x: i32,
    z: i32,
    ground_up: bool,
    primary_bit_mask: u16,
    sky_light: bool,
    data: Vec<u8>,
) -> Order {
    if ground_up && primary_bit_mask == 0 {
        Order::RemoveColumn { x, z }
    } else {
        Order::DecodeColumn { x, z, ground_up, primary_bit_mask, sky_light, data }
    }
}

// ── What each packet does ─────────────────────────────────────────────────

/// Entities are gone from the tables.
pub open spec fn entities_gone(after: GameState, before: GameState, ids: Seq<i32>) -> bool {
    let gone = ids.to_set();
    &&& after.tables.uuids@ == before.tables.uuids@.remove_keys(gone)
    &&& after.tables.items@ == before.tables.items@.remove_keys(gone)
    &&& after.tables.xp@ == before.tables.xp@.remove_keys(gone)
    &&& after.tables.falling@ == before.tables.falling@.remove_keys(gone)
    &&& after.tables.equipment@ == before.tables.equipment@.remove_keys(gone)
    &&& forall|p: i32|
        #[trigger] after.tables.riders.vehicle(p) == match before.tables.riders.vehicle(p) {
            Some(v) => if ids.contains(p) || ids.contains(v) {
                None
            } else {
                Some(v)
            },
            None => None,
        }
    &&& forall|s: EntitySound|
        #[trigger] after.entity_sounds.sounds@.contains(s) == (
        before.entity_sounds.sounds@.contains(s) && !ids.contains(s.entity))
    &&& after.entity_sounds.next_id == before.entity_sounds.next_id
    &&& after == (GameState {
        tables: after.tables,
        entity_sounds: after.entity_sounds,
        ..before
    })
}

/// The number of the sound attached to an entity.
pub open spec fn sound_of(sounds: Seq<EntitySound>, entity: i32) -> u64 {
    sounds[choose|i: int| 0 <= i < sounds.len() && (#[trigger] sounds[i]).entity == entity].sound_id
}

/// The sounds that stop with the first `n` of some entities: those attached to them, each
/// once, in the order of the entities.
pub open spec fn stops(sounds: Seq<EntitySound>, ids: Seq<i32>, n: int) -> Seq<Order>
    decreases n,
{
    if n <= 0 {
        Seq::empty()
    } else {
        let rest = stops(sounds, ids, n - 1);
        let id = ids[n - 1];
        if sounding(sounds, id) && !ids.take(n - 1).contains(id) {
            rest.push(Order::StopSound { sound: sound_of(sounds, id) })
        } else {
            rest
        }
    }
}

/// The orders when entities go: each is removed, then the sounds attached to them
/// stop.
pub open spec fn removal_orders(sounds: Seq<EntitySound>, ids: Seq<i32>) -> Seq<Order> {
    Seq::new(ids.len(), |i: int| Order::Remove { id: ids[i] }) + stops(
        sounds,
        ids,
        ids.len() as int,
    )
}

/// The player's session after joining.
pub open spec fn joined_session(s: Session, entity_id: i32, dimension: i8) -> Session {
    Session {
        player_id: entity_id,
        has_sky_light: dimension == 0,
        dimension,
        joined_game: true,
        ..s
    }
}

/// Whether a game mode byte means creative: its low three bits are one.
pub open spec fn creative_mode(game_mode: u8) -> bool {
    game_mode & 0x7 == 1
}

/// The state and orders after a packet that only concerns entities in the world:
/// nothing of the client's own state changes.
pub open spec fn entity_packet_orders(me: i32, packet: ClientboundPlayPacket) -> Option<Seq<Order>> {
    match packet {
        ClientboundPlayPacket::SpawnMob { entity_id, kind, x, y, z, yaw, pitch } => Some(
            remote(
                me,
                entity_id,
                Order::Spawn { id: entity_id, kind: EntityKind::Mob(kind), x, y, z, yaw, pitch },
            ),
        ),
        ClientboundPlayPacket::EntityRelativeMove { entity_id, dx, dy, dz } => Some(
            remote(me, entity_id, Order::Move { id: entity_id, dx, dy, dz, look: None }),
        ),
        ClientboundPlayPacket::EntityLookMove { entity_id, dx, dy, dz, yaw, pitch } => Some(
            remote(
                me,
                entity_id,
                Order::Move { id: entity_id, dx, dy, dz, look: Some((yaw, pitch)) },
            ),
        ),
        ClientboundPlayPacket::EntityLook { entity_id, yaw, pitch } => Some(
            remote(me, entity_id, Order::Look { id: entity_id, yaw, pitch }),
        ),
        ClientboundPlayPacket::EntityTeleport { entity_id, x, y, z, yaw, pitch } => Some(
            remote(me, entity_id, Order::Place { id: entity_id, x, y, z, yaw, pitch }),
        ),
        ClientboundPlayPacket::EntityVelocity { entity_id, vx, vy, vz } => Some(
            if entity_id == me {
                one(Order::Push { vx, vy, vz })
            } else {
                one(Order::Velocity { id: entity_id, vx, vy, vz })
            },
        ),
        ClientboundPlayPacket::EntityHeadLook { entity_id, head_yaw } => Some(
            remote(me, entity_id, Order::HeadLook { id: entity_id, yaw: head_yaw }),
        ),
        ClientboundPlayPacket::EntityAnimation { entity_id, animation } => Some(
            if animation == 0 {
                remote(me, entity_id, Order::Swing { id: entity_id })
            } else if animation == 1 {
                remote(me, entity_id, Order::Hurt { id: entity_id })
            } else {
                Seq::empty()
            },
        ),
        ClientboundPlayPacket::EntityStatus { entity_id, status } => Some(
            if status == 2 {
                if entity_id == me {
                    seq![Order::Hurt { id: entity_id }, Order::HurtPlayer]
                } else {
                    one(Order::Hurt { id: entity_id })
                }
            } else if status == 3 {
                one(Order::Die { id: entity_id })
            } else {
                Seq::empty()
            },
        ),
        ClientboundPlayPacket::SpawnParticle {
            particle_id,
            x,
            y,
            z,
            offset_x,
            offset_y,
            offset_z,
            speed,
            count,
            args,
        } => Some(
            one(
                Order::Particle {
                    particle_id,
                    x,
                    y,
                    z,
                    offset_x,
                    offset_y,
                    offset_z,
                    speed,
                    count,
                    args,
                },
            ),
        ),
        ClientboundPlayPacket::SoundEffect { name, x, y, z, volume, pitch } => Some(
            one(Order::PlaySound { name, x, y, z, volume, pitch }),
        ),
        ClientboundPlayPacket::Effect { effect_id, x, y, z, data } => Some(
            if spec_effect_event(effect_id as int, data) is Some {
                one(Order::WorldEffect { effect_id, x, y, z, data })
            } else {
                Seq::empty()
            },
        ),
        ClientboundPlayPacket::EntityProperties { entity_id, properties } => Some(
            if entity_id == me {
                attribute_orders(properties@, properties@.len() as int)
            } else {
                Seq::empty()
            },
        ),
        ClientboundPlayPacket::Board(packet) => Some(one(Order::Board { packet })),
        ClientboundPlayPacket::Disconnect { reason_json } => Some(
            one(Order::Disconnected { reason_json }),
        ),
        ClientboundPlayPacket::KeepAlive { .. } => Some(Seq::empty()),
        ClientboundPlayPacket::ConfirmTransaction { .. } => Some(Seq::empty()),
        ClientboundPlayPacket::Unknown { .. } => Some(Seq::empty()),
        _ => None,
    }
}

impl GameState {
    /// Act on a packet that only concerns the world around; the others are given
    /// back.
    fn relay(&self, packet: ClientboundPlayPacket) -> (relayed: Result<
        Vec<Order>,
        ClientboundPlayPacket,
    >)
        ensures
            match relayed {
                Ok(orders) => entity_packet_orders(self.session.player_id, packet) == Some(
                    orders@,
                ),
                Err(back) => back == packet && entity_packet_orders(
                    self.session.player_id,
                    packet,
                ) is None,
            },
    {
        let me = self.session.player_id;
        let mut orders: Vec<Order> = Vec::new();
        match packet {
            ClientboundPlayPacket::SpawnMob { entity_id, kind, x, y, z, yaw, pitch } => {
                if entity_id != me {
                    orders.push(
                        Order::Spawn {
                            id: entity_id,
                            kind: EntityKind::Mob(kind),
                            x,
                            y,
                            z,
                            yaw,
                            pitch,
                        },
                    );
                }
            },
            ClientboundPlayPacket::EntityRelativeMove { entity_id, dx, dy, dz } => {
                if entity_id != me {
                    orders.push(Order::Move { id: entity_id, dx, dy, dz, look: None });
                }
            },
            ClientboundPlayPacket::EntityLookMove { entity_id, dx, dy, dz, yaw, pitch } => {
                if entity_id != me {
                    orders.push(
                        Order::Move { id: entity_id, dx, dy, dz, look: Some((yaw, pitch)) },
                    );
                }
            },
            ClientboundPlayPacket::EntityLook { entity_id, yaw, pitch } => {
                if entity_id != me {
                    orders.push(Order::Look { id: entity_id, yaw, pitch });
                }
            },
            ClientboundPlayPacket::EntityTeleport { entity_id, x, y, z, yaw, pitch } => {
                if entity_id != me {
                    orders.push(Order::Place { id: entity_id, x, y, z, yaw, pitch });
                }
            },
            ClientboundPlayPacket::EntityVelocity { entity_id, vx, vy, vz } => {
                if entity_id == me {
                    orders.push(Order::Push { vx, vy, vz });
                } else {
                    orders.push(Order::Velocity { id: entity_id, vx, vy, vz });
                }
            },
            ClientboundPlayPacket::EntityHeadLook { entity_id, head_yaw } => {
                if entity_id != me {
                    orders.push(Order::HeadLook { id: entity_id, yaw: head_yaw });
                }
            },
            ClientboundPlayPacket::EntityAnimation { entity_id, animation } => {
                if entity_id != me {
                    if animation == 0 {
                        orders.push(Order::Swing { id: entity_id });
                    } else if animation == 1 {
                        orders.push(Order::Hurt { id: entity_id });
                    }
                }
            },
            ClientboundPlayPacket::EntityStatus { entity_id, status } => {
                if status == 2 {
                    orders.push(Order::Hurt { id: entity_id });
                    if entity_id == me {
                        orders.push(Order::HurtPlayer);
                    }
                } else if status == 3 {
                    orders.push(Order::Die { id: entity_id });
                }
            },
            ClientboundPlayPacket::SpawnParticle {
                particle_id,
                x,
                y,
                z,
                offset_x,
                offset_y,
                offset_z,
                speed,
                count,
                args,
            } => {
                orders.push(
                    Order::Particle {
                        particle_id,
                        x,
                        y,
                        z,
                        offset_x,
                        offset_y,
                        offset_z,
                        speed,
                        count,
                        args,
                    },
                );
            },
            ClientboundPlayPacket::SoundEffect { name, x, y, z, volume, pitch } => {
                orders.push(Order::PlaySound { name, x, y, z, volume, pitch });
            },
            ClientboundPlayPacket::Effect { effect_id, x, y, z, data } => {
                if effect_event(effect_id, data).is_some() {
                    orders.push(Order::WorldEffect { effect_id, x, y, z, data });
                }
            },
            ClientboundPlayPacket::EntityProperties { entity_id, properties } => {
                if entity_id == me {
                    orders = attribute_list(properties);
                }
            },
            ClientboundPlayPacket::Board(packet) => {
                orders.push(Order::Board { packet });
            },
            ClientboundPlayPacket::Disconnect { reason_json } => {
                orders.push(Order::Disconnected { reason_json });
            },
            ClientboundPlayPacket::KeepAlive { .. } => {},
            ClientboundPlayPacket::ConfirmTransaction { .. } => {},
            ClientboundPlayPacket::Unknown { .. } => {},
            other => {
                return Err(other);
            },
        }
        assert(entity_packet_orders(me, packet)->0 =~= orders@);
        Ok(orders)
    }
}

/// The orders for the attributes of the player that are used.
fn attribute_list(properties: Vec<EntityProperty>) -> (orders: Vec<Order>)
    ensures
        orders@ == attribute_orders(properties@, properties@.len() as int),
{
    let ghost all = properties@;
    let mut left = properties;
    let mut orders: Vec<Order> = Vec::new();
    let ghost mut n: int = 0;
    assert(all.skip(0) =~= all);
    while left.len() > 0
        invariant
            0 <= n <= all.len(),
            left@ == all.skip(n),
            orders@ == attribute_orders(all, n),
        decreases left@.len(),
    {
        let property = left.remove(0);
        proof {
            assert(property == all[n]);
            assert(left@ =~= all.skip(n + 1));
            n = n + 1;
        }
        if same_text(property.key.as_str(), "generic.movementSpeed") {
            orders.push(Order::Attribute { kind: AttributeKind::MovementSpeed, property });
        } else if same_text(property.key.as_str(), "generic.maxHealth") {
            orders.push(Order::Attribute { kind: AttributeKind::MaxHealth, property });
        }
    }
    orders
}

// ── The session ───────────────────────────────────────────────────────────

impl GameState {
    /// The server let the player in.
    pub fn handle_join_game(&mut self, entity_id: i32, game_mode: u8, dimension: i8) -> (orders: Vec<
        Order,
    >)
        requires
            old(self).wf(),
        ensures
            final(self).wf(),
            joined_game(*old(self), entity_id, game_mode, dimension, *final(self), orders@),
    {
        self.session.player_id = entity_id;
        self.session.has_sky_light = dimension == 0;
        self.session.dimension = dimension;
        self.session.joined_game = true;
        self.hands.creative = game_mode & 0x7 == 1;
        self.music.delay_ticks = 100;
        let mut orders: Vec<Order> = Vec::new();
        orders.push(Order::SkyLight { on: dimension == 0 });
        orders.push(Order::ShowPlayer);
        assert(orders@ =~= seq![Order::SkyLight { on: dimension == 0 }, Order::ShowPlayer]);
        orders
    }

    /// The server respawned the player, maybe elsewhere. No movement is reported
    /// until the server says where the player is.
    pub fn handle_respawn(&mut self, dimension: i32, game_mode: u8) -> (orders: Vec<Order>)
        requires
            old(self).wf(),
        ensures
            final(self).wf(),
            respawned(*old(self), dimension, game_mode, *final(self), orders@),
    {
        self.session.has_sky_light = dimension == 0;
        self.session.dimension = #[verifier::truncate] (dimension as i8);
        self.hands.creative = game_mode & 0x7 == 1;
        self.vitals.respawn();
        self.session.position_synced = false;
        self.session.pending_confirm = false;
        let mut orders: Vec<Order> = Vec::new();
        orders.push(Order::SkyLight { on: dimension == 0 });
        orders.push(Order::Halt);
        assert(orders@ =~= seq![Order::SkyLight { on: dimension == 0 }, Order::Halt]);
        orders
    }

    /// The server put the player somewhere. The position is confirmed, and the
    /// next tick holds still.
    pub fn handle_player_position_look(
        &mut self,
        x: Real64,
        y: Real64,
        z: Real64,
        yaw: Real32,
        pitch: Real32,
        flags: i8,
    ) -> (orders: Vec<Order>)
        requires
            old(self).wf(),
        ensures
            final(self).wf(),
            placed(*old(self), *final(self)),
            orders@ == one(teleport_order(x, y, z, yaw, pitch, flags)),
    {
        self.session.position_synced = true;
        self.session.pending_confirm = true;
        self.motion.freeze_movement_after_teleport = true;
        let mut orders: Vec<Order> = Vec::new();
        orders.push(
            Order::Teleport {
                x,
                y,
                z,
                yaw,
                pitch,
                add_x: flags & 0x01 != 0,
                add_y: flags & 0x02 != 0,
                add_z: flags & 0x04 != 0,
                add_yaw: flags & 0x08 != 0,
                add_pitch: flags & 0x10 != 0,
            },
        );
        assert(orders@ =~= one(teleport_order(x, y, z, yaw, pitch, flags)));
        orders
    }

    /// A chat message: over the hotbar, or into the chat box.
    pub fn handle_chat_message(&mut self, json: &str, position: i8, lang: &Language, now: u64)
        requires
            old(self).wf(),
        ensures
            final(self).wf(),
            chatted(*old(self), json@, position, *lang, now, *final(self)),
    {
        if position == 2 {
            self.chat.set_action_bar(flatten_chat_json(json, lang), now);
        } else {
            self.chat.push_components(parse_chat_components(json, lang), now);
        }
    }

    /// A lightning bolt struck.
    pub fn handle_lightning_bolt(
        &mut self,
        x: Real64,
        y: Real64,
        z: Real64,
        column_x: i32,
        column_z: i32,
    ) -> (orders: Vec<Order>)
        requires
            old(self).wf(),
        ensures
            final(self).wf(),
            struck(*old(self), x, y, z, column_x, column_z, *final(self)),
            orders@ == one(Order::Thunder { x, y, z }),
    {
        self.lightning.strike(&mut self.weather, x, y, z, column_x, column_z);
        let mut orders: Vec<Order> = Vec::new();
        orders.push(Order::Thunder { x, y, z });
        assert(orders@ =~= one(Order::Thunder { x, y, z }));
        orders
    }
}

/// The order that puts the player somewhere.
pub open spec fn teleport_order(
    x: Real64,
    y: Real64,
    z: Real64,
    yaw: Real32,
    pitch: Real32,
    flags: i8,
) -> Order {
    Order::Teleport {
        x,
        y,
        z,
        yaw,
        pitch,
        add_x: flag(flags, 0x01),
        add_y: flag(flags, 0x02),
        add_z: flag(flags, 0x04),
        add_yaw: flag(flags, 0x08),
        add_pitch: flag(flags, 0x10),
    }
}

/// The game was joined.
pub open spec fn joined_game(
    before: GameState,
    entity_id: i32,
    game_mode: u8,
    dimension: i8,
    after: GameState,
    orders: Seq<Order>,
) -> bool {
    &&& after.session == joined_session(before.session, entity_id, dimension)
    &&& after.hands@ == (HandsModel { creative: creative_mode(game_mode), ..before.hands@ })
    &&& after.music@ == (MusicModel { delay: 100, ..before.music@ })
    &&& after == (GameState {
        session: after.session,
        hands: after.hands,
        music: after.music,
        ..before
    })
    &&& orders == seq![Order::SkyLight { on: dimension == 0 }, Order::ShowPlayer]
}

/// The player respawned.
pub open spec fn respawned(
    before: GameState,
    dimension: i32,
    game_mode: u8,
    after: GameState,
    orders: Seq<Order>,
) -> bool {
    &&& after.session == (Session {
        has_sky_light: dimension == 0,
        dimension: dimension as i8,
        position_synced: false,
        pending_confirm: false,
        ..before.session
    })
    &&& after.hands@ == (HandsModel { creative: creative_mode(game_mode), ..before.hands@ })
    &&& after.vitals@ == before.vitals@.respawned()
    &&& after == (GameState {
        session: after.session,
        hands: after.hands,
        vitals: after.vitals,
        ..before
    })
    &&& orders == seq![Order::SkyLight { on: dimension == 0 }, Order::Halt]
}

/// The server put the player somewhere.
pub open spec fn placed(before: GameState, after: GameState) -> bool {
    after == (GameState {
        session: Session { position_synced: true, pending_confirm: true, ..before.session },
        motion: super::motion::Motion { freeze_movement_after_teleport: true, ..before.motion },
        ..before
    })
}

/// A chat message arrived.
pub open spec fn chatted(
    before: GameState,
    json: Seq<char>,
    position: i8,
    lang: Language,
    now: u64,
    after: GameState,
) -> bool {
    &&& after == (GameState { chat: after.chat, ..before })
    &&& if position == 2 {
        &&& after.chat.action_bar matches Some((text, since)) && text@ == flat_message(json, lang)
            && since == now
        &&& after.chat == (crate::chat::state::ChatState {
            action_bar: after.chat.action_bar,
            ..before.chat
        })
    } else {
        let segments = message_segments(json, lang);
        &&& after.chat.same_but_lines(&before.chat)
        &&& backlog_view(after.chat.lines@) == with_line(
            backlog_view(before.chat.lines@),
            LineModel { text: segments_text(segments), segments, received: now },
        )
    }
}

/// A lightning bolt struck.
pub open spec fn struck(
    before: GameState,
    x: Real64,
    y: Real64,
    z: Real64,
    column_x: i32,
    column_z: i32,
    after: GameState,
) -> bool {
    let count = before.lightning.count.wrapping_add(1);
    &&& after.weather == (Weather { lightning_flash: 2, ..before.weather })
    &&& after.lightning.count == count
    &&& after.lightning.bolts@ == before.lightning.bolts@.push(
        super::weather::LightningBolt {
            x,
            y,
            z,
            seed: super::noise::spec_hash2d(column_x, column_z, count),
            life: super::weather::BOLT_LIFE,
        },
    )
    &&& after == (GameState { weather: after.weather, lightning: after.lightning, ..before })
}

// ── Terrain ───────────────────────────────────────────────────────────────

impl GameState {
    /// What is to be done with a column of terrain: an empty full one is to be unloaded,
    /// another decoded. The caller does so and reports back, with
    /// [`Terrain::unload_chunk`] and [`Terrain::apply_chunk_column`].
    pub fn apply_raw_chunk(
        &self,
        x: i32,
        z: i32,
        ground_up: bool,
        primary_bit_mask: u16,
        sky_light: bool,
        data: Vec<u8>,
    ) -> (order: Order)
        ensures
            order == column_order(x, z, ground_up, primary_bit_mask, sky_light, data),
    {
        if ground_up && primary_bit_mask == 0 {
            Order::RemoveColumn { x, z }
        } else {
            Order::DecodeColumn { x, z, ground_up, primary_bit_mask, sky_light, data }
        }
    }

    /// What is to be done with many columns of terrain, one after the other.
    pub fn handle_chunk_bulk(&self, sky_light_sent: bool, chunks: Vec<BulkChunkData>) -> (orders: Vec<
        Order,
    >)
        ensures
            orders@ == bulk_orders(chunks@, sky_light_sent, chunks@.len() as int),
    {
        let ghost all = chunks@;
        let mut left = chunks;
        let mut orders: Vec<Order> = Vec::new();
        let ghost mut n: int = 0;
        assert(all.skip(0) =~= all);
        while left.len() > 0
            invariant
                0 <= n <= all.len(),
                left@ == all.skip(n),
                orders@ == bulk_orders(all, sky_light_sent, n),
            decreases left@.len(),
        {
            let chunk = left.remove(0);
            proof {
                assert(chunk == all[n]);
                assert(left@ =~= all.skip(n + 1));
                n = n + 1;
            }
            orders.push(
                self.apply_raw_chunk(
                    chunk.x,
                    chunk.z,
                    true,
                    chunk.primary_bit_mask,
                    sky_light_sent,
                    chunk.data,
                ),
            );
        }
        orders
    }
}

/// The orders for block changes that are made now.
fn edit_list(edits: &Vec<BlockEdit>) -> (orders: Vec<Order>)
    ensures
        orders@ == edit_orders(edits@),
{
    let mut orders: Vec<Order> = Vec::new();
    let mut i: usize = 0;
    while i < edits.len()
        invariant
            i <= edits@.len(),
            orders@ == edit_orders(edits@).take(i as int),
        decreases edits@.len() - i,
    {
        orders.push(Order::SetBlock { edit: edits[i] });
        i += 1;
        assert(edit_orders(edits@).take(i as int) =~= edit_orders(edits@).take(i - 1).push(
            edit_orders(edits@)[i - 1],
        ));
    }
    assert(edit_orders(edits@).take(i as int) =~= edit_orders(edits@));
    orders
}

// ── Entities ──────────────────────────────────────────────────────────────

impl GameState {
    /// Entities went away, with their sounds.
    pub fn handle_destroy_entities(&mut self, ids: &Vec<i32>) -> (orders: Vec<Order>)
        requires
            old(self).wf(),
        ensures
            final(self).wf(),
            entities_gone(*final(self), *old(self), ids@),
            orders@ == removal_orders(old(self).entity_sounds.sounds@, ids@),
    {
        let mut orders: Vec<Order> = Vec::new();
        let mut i: usize = 0;
        proof {
            assert(ids@.take(0) =~= Seq::empty());
            lemma_nothing_removed(*self);
        }
        while i < ids.len()
            invariant
                i <= ids@.len(),
                self.wf(),
                entities_gone_but_sounds(*self, *old(self), ids@.take(i as int)),
                orders@.len() == i,
                forall|k: int|
                    0 <= k < i ==> (#[trigger] orders@[k]) == (Order::Remove { id: ids@[k] }),
            decreases ids@.len() - i,
        {
            let ghost mid = *self;
            let id = ids[i];
            self.tables.remove_entity(id);
            orders.push(Order::Remove { id });
            i += 1;
            proof {
                lemma_one_more_removed(*old(self), mid, *self, ids@, i as int);
            }
        }
        assert(ids@.take(i as int) =~= ids@);
        let ghost removed = orders@;
        assert(removed =~= Seq::new(ids@.len(), |i: int| Order::Remove { id: ids@[i] }));
        let ghost quiet = *self;
        let mut j: usize = 0;
        assert(orders@ =~= removed + stops(old(self).entity_sounds.sounds@, ids@, 0));
        while j < ids.len()
            invariant
                j <= ids@.len(),
                self.wf(),
                old(self).wf(),
                *self == (GameState { entity_sounds: self.entity_sounds, ..quiet }),
                quiet.entity_sounds == old(self).entity_sounds,
                self.entity_sounds.next_id == old(self).entity_sounds.next_id,
                forall|s: EntitySound|
                    #[trigger] self.entity_sounds.sounds@.contains(s) == (old(
                        self,
                    ).entity_sounds.sounds@.contains(s) && !ids@.take(j as int).contains(s.entity)),
                orders@ == removed + stops(old(self).entity_sounds.sounds@, ids@, j as int),
            decreases ids@.len() - j,
        {
            let id = ids[j];
            let ghost before = self.entity_sounds;
            let ghost had = old(self).entity_sounds;
            let stopped = self.entity_sounds.stop_entity_sound(id);
            proof {
                lemma_take_contains_push(ids@, j + 1);
                assert forall|s: EntitySound|
                    #[trigger] self.entity_sounds.sounds@.contains(s) == (had.sounds@.contains(s)
                        && !ids@.take(j + 1).contains(s.entity)) by {
                    assert(before.sounds@.contains(s) == (had.sounds@.contains(s) && !ids@.take(
                        j as int,
                    ).contains(s.entity)));
                }
                match stopped {
                    Some(sound) => {
                        let gone = EntitySound { sound_id: sound, entity: id };
                        assert(before.sounds@.contains(gone));
                        assert(had.sounds@.contains(gone));
                        lemma_sound_of(had, gone);
                    },
                    None => {
                        if sounding(had.sounds@, id) && !ids@.take(j as int).contains(id) {
                            let i = choose|i: int|
                                0 <= i < had.sounds@.len() && (#[trigger] had.sounds@[i]).entity
                                    == id;
                            assert(had.sounds@.contains(had.sounds@[i]));
                            assert(before.sounds@.contains(had.sounds@[i]));
                            let k = before.sounds@.index_of(had.sounds@[i]);
                            assert(before.sounds@[k].entity == id);
                        }
                    },
                }
            }
            if let Some(sound) = stopped {
                orders.push(Order::StopSound { sound });
            }
            j += 1;
            assert(orders@ =~= removed + stops(had.sounds@, ids@, j as int));
        }
        assert(ids@.take(j as int) =~= ids@);
        orders
    }
}

proof fn lemma_sound_of(sounds: EntitySounds, s: EntitySound)
    requires
        sounds.wf(),
        sounds.sounds@.contains(s),
    ensures
        sounding(sounds.sounds@, s.entity),
        sound_of(sounds.sounds@, s.entity) == s.sound_id,
{
    let k = sounds.sounds@.index_of(s);
    assert(sounds.sounds@[k].entity == s.entity);
    let i = choose|i: int|
        0 <= i < sounds.sounds@.len() && (#[trigger] sounds.sounds@[i]).entity == s.entity;
    lemma_one_sound_each(sounds, sounds.sounds@[i], s);
}

/// No sound is stopped twice when entities go.
pub proof fn law_no_sound_is_stopped_twice(sounds: EntitySounds, ids: Seq<i32>, n: int)
    requires
        sounds.wf(),
        0 <= n <= ids.len(),
    ensures
        stops(sounds.sounds@, ids, n).no_duplicates(),
        forall|o: Order|
            #[trigger] stops(sounds.sounds@, ids, n).contains(o) <==> exists|s: EntitySound|
                #[trigger] sounds.sounds@.contains(s) && ids.take(n).contains(s.entity) && o
                    == (Order::StopSound { sound: s.sound_id }),
    decreases n,
{
    let all = stops(sounds.sounds@, ids, n);
    if n > 0 {
        law_no_sound_is_stopped_twice(sounds, ids, n - 1);
        lemma_take_contains_push(ids, n);
        let rest = stops(sounds.sounds@, ids, n - 1);
        let id = ids[n - 1];
        let fresh = sounding(sounds.sounds@, id) && !ids.take(n - 1).contains(id);
        let last = Order::StopSound { sound: sound_of(sounds.sounds@, id) };
        if fresh {
            let i = choose|i: int|
                0 <= i < sounds.sounds@.len() && (#[trigger] sounds.sounds@[i]).entity == id;
            let own = sounds.sounds@[i];
            assert(sounds.sounds@.contains(own));
            lemma_sound_of(sounds, own);
            if rest.contains(last) {
                let s = choose|s: EntitySound|
                    #[trigger] sounds.sounds@.contains(s) && ids.take(n - 1).contains(s.entity)
                        && last == (Order::StopSound { sound: s.sound_id });
                let a = sounds.sounds@.index_of(s);
                let b = sounds.sounds@.index_of(own);
                if a < b {
                    assert(sounds.sounds@[a].sound_id != sounds.sounds@[b].sound_id);
                } else if b < a {
                    assert(sounds.sounds@[b].sound_id != sounds.sounds@[a].sound_id);
                }
            }
            super::sections::lemma_push_contains(rest, last);
        }
        assert forall|o: Order|
            #[trigger] all.contains(o) <==> exists|s: EntitySound|
                #[trigger] sounds.sounds@.contains(s) && ids.take(n).contains(s.entity) && o
                    == (Order::StopSound { sound: s.sound_id }) by {
            if all.contains(o) {
                if rest.contains(o) {
                    let s = choose|s: EntitySound|
                        #[trigger] sounds.sounds@.contains(s) && ids.take(n - 1).contains(s.entity)
                            && o == (Order::StopSound { sound: s.sound_id });
                    assert(sounds.sounds@.contains(s) && ids.take(n).contains(s.entity));
                } else {
                    let i = choose|i: int|
                        0 <= i < sounds.sounds@.len() && (#[trigger] sounds.sounds@[i]).entity == id;
                    assert(sounds.sounds@.contains(sounds.sounds@[i]));
                    lemma_sound_of(sounds, sounds.sounds@[i]);
                }
            }
            if exists|s: EntitySound|
                #[trigger] sounds.sounds@.contains(s) && ids.take(n).contains(s.entity) && o
                    == (Order::StopSound { sound: s.sound_id }) {
                let s = choose|s: EntitySound|
                    #[trigger] sounds.sounds@.contains(s) && ids.take(n).contains(s.entity) && o
                        == (Order::StopSound { sound: s.sound_id });
                lemma_sound_of(sounds, s);
                if ids.take(n - 1).contains(s.entity) {
                    assert(rest.contains(o));
                    if !fresh {
                        assert(all == rest);
                    }
                } else {
                    assert(s.entity == id && fresh);
                    assert(o == last);
                }
            }
        }
    } else {
        assert(ids.take(n) =~= Seq::empty());
    }
}

proof fn lemma_one_sound_each(sounds: EntitySounds, a: EntitySound, b: EntitySound)
    requires
        sounds.wf(),
        sounds.sounds@.contains(a),
        sounds.sounds@.contains(b),
        a.entity == b.entity,
    ensures
        a == b,
{
    let i = choose|i: int| 0 <= i < sounds.sounds@.len() && sounds.sounds@[i] == a;
    let j = choose|j: int| 0 <= j < sounds.sounds@.len() && sounds.sounds@[j] == b;
    if i < j {
        assert(sounds.sounds@[i].entity != sounds.sounds@[j].entity);
    } else if j < i {
        assert(sounds.sounds@[j].entity != sounds.sounds@[i].entity);
    }
}

proof fn lemma_take_contains_push(ids: Seq<i32>, n: int)
    requires
        0 < n <= ids.len(),
    ensures
        forall|e: i32|
            #[trigger] ids.take(n).contains(e) == (ids.take(n - 1).contains(e) || e == ids[n - 1]),
{
    assert(ids.take(n) =~= ids.take(n - 1).push(ids[n - 1]));
    super::sections::lemma_push_contains(ids.take(n - 1), ids[n - 1]);
}

/// Entities are gone from the tables; their sounds may still play.
pub open spec fn entities_gone_but_sounds(after: GameState, before: GameState, ids: Seq<i32>) -> bool {
    let gone = ids.to_set();
    &&& after.tables.uuids@ == before.tables.uuids@.remove_keys(gone)
    &&& after.tables.items@ == before.tables.items@.remove_keys(gone)
    &&& after.tables.xp@ == before.tables.xp@.remove_keys(gone)
    &&& after.tables.falling@ == before.tables.falling@.remove_keys(gone)
    &&& after.tables.equipment@ == before.tables.equipment@.remove_keys(gone)
    &&& forall|p: i32|
        #[trigger] after.tables.riders.vehicle(p) == match before.tables.riders.vehicle(p) {
            Some(v) => if ids.contains(p) || ids.contains(v) {
                None
            } else {
                Some(v)
            },
            None => None,
        }
    &&& after == (GameState { tables: after.tables, ..before })
}

proof fn lemma_nothing_removed(g: GameState)
    ensures
        entities_gone_but_sounds(g, g, Seq::<i32>::empty()),
{
    let none = Seq::<i32>::empty().to_set();
    assert(none =~= Set::empty());
    assert(g.tables.uuids@.remove_keys(none) =~= g.tables.uuids@);
    assert(g.tables.items@.remove_keys(none) =~= g.tables.items@);
    assert(g.tables.xp@.remove_keys(none) =~= g.tables.xp@);
    assert(g.tables.falling@.remove_keys(none) =~= g.tables.falling@);
    assert(g.tables.equipment@.remove_keys(none) =~= g.tables.equipment@);
}

proof fn lemma_one_more_removed(
    before: GameState,
    mid: GameState,
    after: GameState,
    ids: Seq<i32>,
    n: int,
)
    requires
        0 < n <= ids.len(),
        entities_gone_but_sounds(mid, before, ids.take(n - 1)),
        after.tables.forgot(&mid.tables, ids[n - 1]),
        after == (GameState { tables: after.tables, ..mid }),
    ensures
        entities_gone_but_sounds(after, before, ids.take(n)),
{
    lemma_take_contains_push(ids, n);
    let was = ids.take(n - 1).to_set();
    let now = ids.take(n).to_set();
    let id = ids[n - 1];
    assert(now =~= was.insert(id)) by {
        assert forall|e: i32| #[trigger] now.contains(e) == was.insert(id).contains(e) by {
            assert(now.contains(e) == ids.take(n).contains(e));
            assert(was.contains(e) == ids.take(n - 1).contains(e));
        }
    }
    assert(after.tables.uuids@ =~= before.tables.uuids@.remove_keys(now));
    assert(after.tables.items@ =~= before.tables.items@.remove_keys(now));
    assert(after.tables.xp@ =~= before.tables.xp@.remove_keys(now));
    assert(after.tables.falling@ =~= before.tables.falling@.remove_keys(now));
    assert(after.tables.equipment@ =~= before.tables.equipment@.remove_keys(now));
    assert forall|p: i32|
        #[trigger] after.tables.riders.vehicle(p) == match before.tables.riders.vehicle(p) {
            Some(v) => if ids.take(n).contains(p) || ids.take(n).contains(v) {
                None
            } else {
                Some(v)
            },
            None => None,
        } by {
        let m = mid.tables.riders.vehicle(p);
        assert(after.tables.riders.vehicle(p) == if p == id || m == Some(id) {
            None
        } else {
            m
        });
    }
}

/// A player appeared.
pub open spec fn player_spawned(before: GameState, id: i32, uuid: [u8; 16], after: GameState) -> bool {
    &&& after.tables.uuids@ == before.tables.uuids@.insert(id, uuid)
    &&& after == (GameState {
        tables: EntityTables { uuids: after.tables.uuids, ..before.tables },
        ..before
    })
}

/// A thing appeared; a falling block shows the block packed in its data.
pub open spec fn object_spawned(before: GameState, id: i32, kind: i8, data: i32, after: GameState) -> bool {
    if kind == 70 {
        &&& after.tables.falling@ == before.tables.falling@.insert(id, spec_packed_block(data))
        &&& after == (GameState {
            tables: EntityTables { falling: after.tables.falling, ..before.tables },
            ..before
        })
    } else {
        after == before
    }
}

/// The orders when a thing appears: it is spawned, then set in motion.
pub open spec fn object_orders(
    me: i32,
    id: i32,
    kind: i8,
    x: Real64,
    y: Real64,
    z: Real64,
    yaw: Real32,
    pitch: Real32,
    velocity: Option<(Real64, Real64, Real64)>,
) -> Seq<Order> {
    if id == me {
        Seq::empty()
    } else {
        let spawn = Order::Spawn { id, kind: EntityKind::Object(kind as u8), x, y, z, yaw, pitch };
        match velocity {
            Some((vx, vy, vz)) => seq![spawn, Order::Velocity { id, vx, vy, vz }],
            None => seq![spawn],
        }
    }
}

/// An experience orb appeared.
pub open spec fn orb_spawned(before: GameState, id: i32, count: i16, after: GameState) -> bool {
    &&& after.tables.xp@ == before.tables.xp@.insert(id, count)
    &&& after == (GameState {
        tables: EntityTables { xp: after.tables.xp, ..before.tables },
        ..before
    })
}

/// An entity mounted or dismounted; a leash changes nothing.
pub open spec fn attached(before: GameState, id: i32, vehicle: i32, leash: bool, after: GameState) -> bool {
    if leash {
        after == before
    } else {
        &&& forall|p: i32|
            #[trigger] after.tables.riders.vehicle(p) == if p != id {
                before.tables.riders.vehicle(p)
            } else if vehicle == -1 {
                None
            } else {
                Some(vehicle)
            }
        &&& after == (GameState {
            tables: EntityTables { riders: after.tables.riders, ..before.tables },
            ..before
        })
    }
}

/// An entity put something on.
pub open spec fn equipped(
    before: GameState,
    id: i32,
    slot: i16,
    item: Option<SlotItem>,
    after: GameState,
) -> bool {
    if 0 <= slot < EQUIPMENT_SLOTS {
        &&& after.tables.equipment@.dom() == before.tables.equipment@.dom().insert(id)
        &&& forall|e: i32|
            #[trigger] worn(after.tables.equipment@, e) == if e == id {
                worn(before.tables.equipment@, e).update(slot as int, item)
            } else {
                worn(before.tables.equipment@, e)
            }
        &&& after == (GameState {
            tables: EntityTables { equipment: after.tables.equipment, ..before.tables },
            ..before
        })
    } else {
        after == before
    }
}

/// An entity's metadata was read.
pub open spec fn described(before: GameState, id: i32, entries: Seq<MetadataEntry>, after: GameState) -> bool {
    let n = entries.len() as int;
    &&& after.tables.items@ == match metadata_item(entries, n) {
        Some(item) => before.tables.items@.insert(id, item),
        None => before.tables.items@,
    }
    &&& after.session == (Session {
        on_fire: if id == before.session.player_id {
            metadata_fire(entries, n, before.session.on_fire)
        } else {
            before.session.on_fire
        },
        ..before.session
    })
    &&& after == (GameState {
        session: after.session,
        tables: EntityTables { items: after.tables.items, ..before.tables },
        ..before
    })
}

/// The player picked something up: only its own pickups are heard.
pub open spec fn collected(
    before: GameState,
    id: i32,
    collector: i32,
    after: GameState,
    orders: Seq<Order>,
) -> bool {
    if collector != before.session.player_id {
        after == before && orders == Seq::<Order>::empty()
    } else {
        let lcg = before.mood.lcg.wrapping_mul(1_664_525).wrapping_add(1_013_904_223);
        &&& after == (GameState { mood: Mood { lcg, ..before.mood }, ..before })
        &&& orders == one(
            Order::Pickup { id, xp: before.tables.xp@.dom().contains(id), roll: lcg >> 8 },
        )
    }
}

impl GameState {
    /// A player appeared.
    pub fn handle_spawn_player(
        &mut self,
        entity_id: i32,
        uuid: [u8; 16],
        x: Real64,
        y: Real64,
        z: Real64,
        yaw: Real32,
        pitch: Real32,
    ) -> (orders: Vec<Order>)
        requires
            old(self).wf(),
        ensures
            final(self).wf(),
            player_spawned(*old(self), entity_id, uuid, *final(self)),
            orders@ == remote(
                old(self).session.player_id,
                entity_id,
                Order::Spawn { id: entity_id, kind: EntityKind::RemotePlayer, x, y, z, yaw, pitch },
            ),
    {
        broadcast use vstd::std_specs::hash::group_hash_axioms;

        let mut orders: Vec<Order> = Vec::new();
        if entity_id != self.session.player_id {
            orders.push(
                Order::Spawn { id: entity_id, kind: EntityKind::RemotePlayer, x, y, z, yaw, pitch },
            );
        }
        self.tables.uuids.insert(entity_id, uuid);
        assert(orders@ =~= remote(
            old(self).session.player_id,
            entity_id,
            Order::Spawn { id: entity_id, kind: EntityKind::RemotePlayer, x, y, z, yaw, pitch },
        ));
        orders
    }

    /// A thing appeared.
    pub fn handle_spawn_object(
        &mut self,
        entity_id: i32,
        kind: i8,
        x: Real64,
        y: Real64,
        z: Real64,
        yaw: Real32,
        pitch: Real32,
        data: i32,
        velocity: Option<(Real64, Real64, Real64)>,
    ) -> (orders: Vec<Order>)
        requires
            old(self).wf(),
        ensures
            final(self).wf(),
            object_spawned(*old(self), entity_id, kind, data, *final(self)),
            orders@ == object_orders(
                old(self).session.player_id,
                entity_id,
                kind,
                x,
                y,
                z,
                yaw,
                pitch,
                velocity,
            ),
    {
        broadcast use vstd::std_specs::hash::group_hash_axioms;

        let mut orders: Vec<Order> = Vec::new();
        if entity_id != self.session.player_id {
            orders.push(
                Order::Spawn {
                    id: entity_id,
                    kind: EntityKind::Object(#[verifier::truncate] (kind as u8)),
                    x,
                    y,
                    z,
                    yaw,
                    pitch,
                },
            );
            if let Some((vx, vy, vz)) = velocity {
                orders.push(Order::Velocity { id: entity_id, vx, vy, vz });
            }
        }
        if kind == 70 {
            self.tables.falling.insert(entity_id, packed_block(data));
        }
        assert(orders@ =~= object_orders(
            old(self).session.player_id,
            entity_id,
            kind,
            x,
            y,
            z,
            yaw,
            pitch,
            velocity,
        ));
        orders
    }

    /// An experience orb appeared.
    pub fn handle_spawn_experience_orb(
        &mut self,
        entity_id: i32,
        x: Real64,
        y: Real64,
        z: Real64,
        count: i16,
    ) -> (orders: Vec<Order>)
        requires
            old(self).wf(),
        ensures
            final(self).wf(),
            orb_spawned(*old(self), entity_id, count, *final(self)),
            orders@ == remote(
                old(self).session.player_id,
                entity_id,
                orb_order(entity_id, x, y, z),
            ),
    {
        broadcast use vstd::std_specs::hash::group_hash_axioms;

        let mut orders: Vec<Order> = Vec::new();
        if entity_id != self.session.player_id {
            orders.push(
                Order::Spawn {
                    id: entity_id,
                    kind: EntityKind::ExperienceOrb,
                    x,
                    y,
                    z,
                    yaw: Real32 { bits: 0 },
                    pitch: Real32 { bits: 0 },
                },
            );
        }
        self.tables.xp.insert(entity_id, count);
        assert(orders@ =~= remote(
            old(self).session.player_id,
            entity_id,
            orb_order(entity_id, x, y, z),
        ));
        orders
    }

    /// An entity mounted or dismounted.
    pub fn handle_attach_entity(&mut self, entity_id: i32, vehicle_id: i32, leash: bool)
        requires
            old(self).wf(),
        ensures
            final(self).wf(),
            attached(*old(self), entity_id, vehicle_id, leash, *final(self)),
    {
        if !leash {
            if vehicle_id == -1 {
                self.tables.riders.dismount(entity_id);
            } else {
                self.tables.riders.mount(entity_id, vehicle_id);
            }
        }
    }

    /// Read an entity's metadata: pose and fire, name, health, and the stack of a
    /// dropped item.
    pub fn apply_entity_metadata(&mut self, entity_id: i32, metadata: Vec<MetadataEntry>) -> (orders:
        Vec<Order>)
        requires
            old(self).wf(),
        ensures
            final(self).wf(),
            described(*old(self), entity_id, metadata@, *final(self)),
            orders@ == metadata_orders(
                old(self).session.player_id,
                entity_id,
                metadata@,
                metadata@.len() as int,
            ),
    {
        broadcast use vstd::std_specs::hash::group_hash_axioms;

        let me = self.session.player_id;
        let ghost all = metadata@;
        let mut left = metadata;
        let mut orders: Vec<Order> = Vec::new();
        let ghost mut n: int = 0;
        assert(all.skip(0) =~= all);
        while left.len() > 0
            invariant
                self.wf(),
                0 <= n <= all.len(),
                left@ == all.skip(n),
                me == old(self).session.player_id,
                orders@ == metadata_orders(me, entity_id, all, n),
                self.tables.items@ == match metadata_item(all, n) {
                    Some(item) => old(self).tables.items@.insert(entity_id, item),
                    None => old(self).tables.items@,
                },
                self.session == (Session {
                    on_fire: if entity_id == me {
                        metadata_fire(all, n, old(self).session.on_fire)
                    } else {
                        old(self).session.on_fire
                    },
                    ..old(self).session
                }),
                *self == (GameState {
                    session: self.session,
                    tables: EntityTables { items: self.tables.items, ..old(self).tables },
                    ..*old(self)
                }),
            decreases left@.len(),
        {
            let entry = left.remove(0);
            let ghost then = orders@;
            let ghost items = self.tables.items@;
            proof {
                assert(entry == all[n]);
                assert(left@ =~= all.skip(n + 1));
            }
            match (entry.index, entry.value) {
                (0u8, MetadataValue::Byte(flags)) => {
                    let on_fire = flags & 0x01 != 0;
                    if entity_id == me {
                        self.session.on_fire = on_fire;
                    } else {
                        orders.push(
                            Order::Pose {
                                id: entity_id,
                                sneaking: flags & 0x02 != 0,
                                using_item: flags & 0x10 != 0,
                                on_fire,
                                invisible: flags & 0x20 != 0,
                            },
                        );
                    }
                },
                (2u8, MetadataValue::Str(name)) => {
                    if entity_id != me {
                        let empty = name.as_str().is_empty();
                        let given = if empty {
                            None
                        } else {
                            Some(name)
                        };
                        orders.push(Order::Name { id: entity_id, name: given });
                    }
                },
                (3u8, MetadataValue::Byte(shown)) => {
                    if entity_id != me {
                        orders.push(Order::NameShown { id: entity_id, shown: shown != 0 });
                    }
                },
                (6u8, MetadataValue::Float(health)) => {
                    if entity_id != me {
                        orders.push(Order::EntityHealth { id: entity_id, health });
                        if health.not_positive() {
                            orders.push(Order::Die { id: entity_id });
                        }
                    }
                },
                (10u8, MetadataValue::Slot(Some(item))) => {
                    self.tables.items.insert(entity_id, item);
                    assert(self.tables.items@ =~= old(self).tables.items@.insert(
                        entity_id,
                        item,
                    ));
                },
                _ => {},
            }
            assert(orders@ =~= then + entry_orders(me, entity_id, all[n]));
            proof {
                n = n + 1;
            }
        }
        orders
    }

    /// Something was picked up.
    pub fn handle_collect_item(&mut self, collected_id: i32, collector_id: i32) -> (orders: Vec<
        Order,
    >)
        requires
            old(self).wf(),
        ensures
            final(self).wf(),
            collected(*old(self), collected_id, collector_id, *final(self), orders@),
    {
        broadcast use vstd::std_specs::hash::group_hash_axioms;

        let mut orders: Vec<Order> = Vec::new();
        if collector_id != self.session.player_id {
            return orders;
        }
        let xp = self.tables.xp.contains_key(&collected_id);
        let roll = self.mood.mood_rand();
        orders.push(Order::Pickup { id: collected_id, xp, roll });
        assert(orders@ =~= one(Order::Pickup { id: collected_id, xp, roll }));
        orders
    }
}

/// The order that shows an experience orb.
pub open spec fn orb_order(id: i32, x: Real64, y: Real64, z: Real64) -> Order {
    Order::Spawn {
        id,
        kind: EntityKind::ExperienceOrb,
        x,
        y,
        z,
        yaw: Real32 { bits: 0 },
        pitch: Real32 { bits: 0 },
    }
}

// ── Blocks that act ───────────────────────────────────────────────────────

/// Chests with a lid.
pub open spec fn lidded(block_type: i32) -> bool {
    block_type == 54 || block_type == 130 || block_type == 146
}

/// A block acted: a note block sounds, a chest opens or closes when the number of
/// its viewers leaves or reaches zero.
pub open spec fn block_acted(
    before: GameState,
    x: i32,
    y: i32,
    z: i32,
    action_id: u8,
    action_param: u8,
    block_type: i32,
    after: GameState,
    orders: Seq<Order>,
) -> bool {
    let pos = BlockPos { x, y, z };
    if block_type == 25 {
        &&& after == before
        &&& orders == one(
            Order::Note {
                x,
                y,
                z,
                instrument: action_id,
                note: if action_param > 24 {
                    24
                } else {
                    action_param
                },
            },
        )
    } else if lidded(block_type) && action_id == 1 {
        let open = action_param > 0;
        &&& forall|p: BlockPos|
            #[trigger] after.fixtures.open_chests@.contains(p) == if p == pos {
                open
            } else {
                before.fixtures.open_chests@.contains(p)
            }
        &&& after == (GameState {
            fixtures: Fixtures { open_chests: after.fixtures.open_chests, ..before.fixtures },
            ..before
        })
        &&& orders == if before.fixtures.open_chests@.contains(pos) != open {
            one(Order::ChestLid { x, y, z, open })
        } else {
            Seq::empty()
        }
    } else {
        after == before && orders == Seq::<Order>::empty()
    }
}

impl GameState {
    /// A block acted.
    pub fn handle_block_action(
        &mut self,
        x: i32,
        y: i32,
        z: i32,
        action_id: u8,
        action_param: u8,
        block_type: i32,
    ) -> (orders: Vec<Order>)
        requires
            old(self).wf(),
        ensures
            final(self).wf(),
            block_acted(
                *old(self),
                x,
                y,
                z,
                action_id,
                action_param,
                block_type,
                *final(self),
                orders@,
            ),
    {
        let mut orders: Vec<Order> = Vec::new();
        if block_type == 25 {
            let note: u8 = if action_param > 24 {
                24
            } else {
                action_param
            };
            orders.push(Order::Note { x, y, z, instrument: action_id, note });
            assert(orders@ =~= one(Order::Note { x, y, z, instrument: action_id, note }));
        } else if (block_type == 54 || block_type == 130 || block_type == 146) && action_id == 1 {
            let open = action_param > 0;
            if self.fixtures.set_chest_open(BlockPos { x, y, z }, open) {
                orders.push(Order::ChestLid { x, y, z, open });
                assert(orders@ =~= one(Order::ChestLid { x, y, z, open }));
            }
        }
        orders
    }
}

/// The server's offers for the open trade window.
pub open spec fn traded(before: GameState, data: Seq<u8>, after: GameState) -> bool {
    &&& after == (GameState {
        windows: super::windows::Windows {
            open_container: after.windows.open_container,
            ..before.windows
        },
        ..before
    })
    &&& match (trade_list_at(data), before.windows.open_container) {
        (Some((window, recipes)), Some(c)) => if c.window_id == window {
            after.windows.open_container matches Some(d) && recipes_view(d.trades@) == recipes
                && d == (Container {
                trades: d.trades,
                selected_trade: if c.selected_trade < recipes.len() {
                    c.selected_trade
                } else if recipes.len() == 0 {
                    0
                } else {
                    (recipes.len() - 1) as usize
                },
                ..c
            })
        } else {
            after.windows.open_container == Some(c)
        },
        _ => after.windows.open_container == before.windows.open_container,
    }
}

impl GameState {
    /// A message on a named channel: only trade offers are read.
    pub fn handle_plugin_message(&mut self, channel: &str, data: &Vec<u8>)
        requires
            old(self).wf(),
        ensures
            final(self).wf(),
            if channel@ == "MC|TrList"@ {
                traded(*old(self), data@, *final(self))
            } else {
                *final(self) == *old(self)
            },
    {
        if same_text(channel, "MC|TrList") {
            if let Some((window_id, trades)) = parse_trade_list(data.as_slice()) {
                let ghost view = recipes_view(trades@);
                assert(view.len() == trades@.len());
                self.windows.handle_trades(window_id, trades);
            }
        }
    }
}

// ── Every packet ──────────────────────────────────────────────────────────

/// Nothing but the windows differs.
pub open spec fn only_windows(before: GameState, after: GameState) -> bool {
    after == (GameState { windows: after.windows, ..before })
}

/// Nothing but the vitals differs.
pub open spec fn only_vitals(before: GameState, after: GameState) -> bool {
    after == (GameState { vitals: after.vitals, ..before })
}

/// What a packet does: the state after it, the orders it gives and whether terrain
/// changed. `now` is the time it arrived.
pub open spec fn packet_applied(
    before: GameState,
    packet: ClientboundPlayPacket,
    lang: Language,
    now: u64,
    after: GameState,
    orders: Seq<Order>,
    remesh: bool,
) -> bool {
    let me = before.session.player_id;
    let none = Seq::<Order>::empty();
    match packet {
        ClientboundPlayPacket::JoinGame { entity_id, game_mode, dimension } => joined_game(
            before,
            entity_id,
            game_mode,
            dimension,
            after,
            orders,
        ) && !remesh,
        ClientboundPlayPacket::UpdateHealth { health, food, food_saturation } => {
            &&& after.vitals@ == before.vitals@.with_health(health, food, food_saturation)
            &&& only_vitals(before, after) && orders == none && !remesh
        },
        ClientboundPlayPacket::SetExperience { bar, level } => {
            &&& after.vitals@ == (VitalsModel {
                xp_bar: bar.spec_clamped(),
                xp_level: level,
                ..before.vitals@
            })
            &&& only_vitals(before, after) && orders == none && !remesh
        },
        ClientboundPlayPacket::Respawn { dimension, game_mode } => respawned(
            before,
            dimension,
            game_mode,
            after,
            orders,
        ) && !remesh,
        ClientboundPlayPacket::PlayerPositionLook { x, y, z, yaw, pitch, flags } => placed(
            before,
            after,
        ) && orders == one(teleport_order(x, y, z, yaw, pitch, flags)) && !remesh,
        ClientboundPlayPacket::ChunkData { x, z, ground_up, primary_bit_mask, data } => {
            &&& orders == one(
                column_order(
                    x,
                    z,
                    ground_up,
                    primary_bit_mask,
                    before.session.has_sky_light,
                    data,
                ),
            )
            &&& after == before && !remesh
        },
        ClientboundPlayPacket::ChunkBulk { sky_light_sent, chunks } => {
            &&& orders == bulk_orders(chunks@, sky_light_sent, chunks@.len() as int)
            &&& after == before && !remesh
        },
        ClientboundPlayPacket::MultiBlockChange { chunk_x, chunk_z, changes } => {
            let made = super::terrain::sorted_edits(
                before.terrain.columns,
                chunk_x as int,
                chunk_z as int,
                changes@,
                true,
                changes@.len() as int,
            );
            &&& orders == edit_orders(made)
            &&& remesh == (made.len() > 0)
            &&& after == (GameState { terrain: after.terrain, ..before })
            &&& after.terrain.same_view(&before.terrain)
            &&& super::terrain::blocks_set(before.terrain.columns, made, after.terrain.columns)
            &&& after.terrain.pending@ == before.terrain.pending@ + super::terrain::sorted_edits(
                before.terrain.columns,
                chunk_x as int,
                chunk_z as int,
                changes@,
                false,
                changes@.len() as int,
            )
            &&& after.terrain.residency.dirty@ == before.terrain.residency.dirty@.union(
                super::terrain::dirtied_by_all(made),
            )
        },
        ClientboundPlayPacket::BlockChange { x, y, z, id, meta } => {
            let edit = BlockEdit { x, y, z, state: BlockState { id, meta } };
            &&& remesh == before.terrain.columns.loaded(edit.spec_column())
            &&& orders == if remesh {
                one(Order::SetBlock { edit })
            } else {
                none
            }
            &&& after == (GameState { terrain: after.terrain, ..before })
            &&& super::terrain::block_changed(before.terrain, edit, after.terrain)
        },
        ClientboundPlayPacket::SpawnPlayer { entity_id, uuid, x, y, z, yaw, pitch } => {
            &&& player_spawned(before, entity_id, uuid, after)
            &&& orders == remote(
                me,
                entity_id,
                Order::Spawn { id: entity_id, kind: EntityKind::RemotePlayer, x, y, z, yaw, pitch },
            )
            &&& !remesh
        },
        ClientboundPlayPacket::SpawnObject {
            entity_id,
            kind,
            x,
            y,
            z,
            yaw,
            pitch,
            data,
            velocity,
        } => {
            &&& object_spawned(before, entity_id, kind, data, after)
            &&& orders == object_orders(me, entity_id, kind, x, y, z, yaw, pitch, velocity)
            &&& !remesh
        },
        ClientboundPlayPacket::SpawnExperienceOrb { entity_id, x, y, z, count } => {
            &&& orb_spawned(before, entity_id, count, after)
            &&& orders == remote(me, entity_id, orb_order(entity_id, x, y, z))
            &&& !remesh
        },
        ClientboundPlayPacket::OpenWindow { window_id, inventory_type, title, slots } => {
            &&& super::windows::window_opened(
                before.windows,
                window_id,
                inventory_type@,
                flat_message(title@, lang),
                slots,
                after.windows,
            )
            &&& only_windows(before, after) && orders == none && !remesh
        },
        ClientboundPlayPacket::CloseWindowS { window_id } => {
            &&& super::windows::window_closed(before.windows, window_id, after.windows)
            &&& only_windows(before, after) && orders == none && !remesh
        },
        ClientboundPlayPacket::WindowProperty { window_id, property, value } => {
            &&& super::windows::property_set(
                before.windows,
                window_id,
                property,
                value,
                after.windows,
            )
            &&& only_windows(before, after) && orders == none && !remesh
        },
        ClientboundPlayPacket::SetSlot { window_id, slot, item } => {
            &&& super::windows::slot_set(before.windows, window_id, slot, item, after.windows)
            &&& only_windows(before, after) && orders == none && !remesh
        },
        ClientboundPlayPacket::WindowItems { window_id, items } => {
            &&& super::windows::all_slots_set(before.windows, window_id, items@, after.windows)
            &&& only_windows(before, after) && orders == none && !remesh
        },
        ClientboundPlayPacket::HeldItemChange { slot } => {
            &&& after.hands@ == (HandsModel {
                selected_slot: if slot < 0 {
                    0
                } else if slot > 8 {
                    8
                } else {
                    slot as i32
                },
                ..before.hands@
            })
            &&& after == (GameState { hands: after.hands, ..before }) && orders == none && !remesh
        },
        ClientboundPlayPacket::DestroyEntities { entity_ids } => {
            &&& entities_gone(after, before, entity_ids@)
            &&& orders == removal_orders(before.entity_sounds.sounds@, entity_ids@)
            &&& !remesh
        },
        ClientboundPlayPacket::PlayerAbilities {
            invulnerable,
            flying,
            allow_flying,
            creative,
            fly_speed,
            walk_speed,
        } => {
            &&& after == (GameState {
                motion: super::motion::Motion {
                    capabilities: PlayerCapabilities {
                        invulnerable,
                        flying,
                        allow_flying,
                        creative,
                        fly_speed,
                        walk_speed,
                    },
                    ..before.motion
                },
                ..before
            })
            &&& orders == none && !remesh
        },
        ClientboundPlayPacket::EntityEffect { entity_id, effect_id, amplifier, duration } => {
            &&& after.vitals@ == if entity_id == me {
                VitalsModel {
                    effects: before.vitals@.effects.insert(
                        effect_id as u8,
                        ActiveEffect { amplifier, duration },
                    ),
                    ..before.vitals@
                }
            } else {
                before.vitals@
            }
            &&& only_vitals(before, after) && orders == none && !remesh
        },
        ClientboundPlayPacket::RemoveEntityEffect { entity_id, effect_id } => {
            &&& after.vitals@ == if entity_id == me {
                VitalsModel {
                    effects: before.vitals@.effects.remove(effect_id as u8),
                    ..before.vitals@
                }
            } else {
                before.vitals@
            }
            &&& only_vitals(before, after) && orders == none && !remesh
        },
        ClientboundPlayPacket::ChatMessage { json, position } => chatted(
            before,
            json@,
            position,
            lang,
            now,
            after,
        ) && orders == none && !remesh,
        ClientboundPlayPacket::TabComplete { matches: found } => {
            &&& after == (GameState {
                chat: crate::chat::state::ChatState {
                    completions: found,
                    completion_cursor: 0,
                    ..before.chat
                },
                ..before
            })
            &&& orders == none && !remesh
        },
        ClientboundPlayPacket::UpdateSign { x, y, z, lines } => {
            &&& forall|p: BlockPos|
                #[trigger] sign_text(after.fixtures.signs@, p) == if p == (BlockPos { x, y, z }) {
                    Some(flattened(lines@, lang))
                } else {
                    sign_text(before.fixtures.signs@, p)
                }
            &&& after == (GameState {
                fixtures: Fixtures { signs: after.fixtures.signs, ..before.fixtures },
                ..before
            })
            &&& orders == none && !remesh
        },
        ClientboundPlayPacket::Title { action } => {
            &&& after.title@ == before.title@.applied(action, lang)
            &&& after == (GameState { title: after.title, ..before }) && orders == none && !remesh
        },
        ClientboundPlayPacket::AttachEntity { entity_id, vehicle_id, leash } => attached(
            before,
            entity_id,
            vehicle_id,
            leash,
            after,
        ) && orders == none && !remesh,
        ClientboundPlayPacket::EntityMetadata { entity_id, metadata } => {
            &&& described(before, entity_id, metadata@, after)
            &&& orders == metadata_orders(me, entity_id, metadata@, metadata@.len() as int)
            &&& !remesh
        },
        ClientboundPlayPacket::TimeUpdate { time_of_day } => {
            &&& after == (GameState {
                clock: before.clock.with_time(time_of_day),
                ..before
            })
            &&& orders == none && !remesh
        },
        ClientboundPlayPacket::EntityEquipment { entity_id, slot, item } => equipped(
            before,
            entity_id,
            slot,
            item,
            after,
        ) && orders == none && !remesh,
        ClientboundPlayPacket::CollectItem { collected_id, collector_id } => collected(
            before,
            collected_id,
            collector_id,
            after,
            orders,
        ) && !remesh,
        ClientboundPlayPacket::ChangeGameState { reason, level } => {
            &&& after == (GameState {
                weather: weather_after(before.weather, reason, level),
                ..before
            })
            &&& orders == none && !remesh
        },
        ClientboundPlayPacket::SpawnGlobalEntity { kind, x, y, z, column_x, column_z } => {
            &&& if kind == 1 {
                &&& struck(before, x, y, z, column_x, column_z, after)
                &&& orders == one(Order::Thunder { x, y, z })
            } else {
                after == before && orders == none
            }
            &&& !remesh
        },
        ClientboundPlayPacket::BlockAction {
            x,
            y,
            z,
            action_id,
            action_param,
            block_type,
        } => block_acted(
            before,
            x,
            y,
            z,
            action_id,
            action_param,
            block_type,
            after,
            orders,
        ) && !remesh,
        ClientboundPlayPacket::PluginMessage { channel, data } => {
            &&& if channel@ == "MC|TrList"@ {
                traded(before, data@, after)
            } else {
                after == before
            }
            &&& orders == none && !remesh
        },
        other => after == before && entity_packet_orders(me, other) == Some(orders) && !remesh,
    }
}

/// A packet about terrain and what stands on it.
pub open spec fn is_terrain_packet(packet: ClientboundPlayPacket) -> bool {
    match packet {
        ClientboundPlayPacket::ChunkData { .. }
        | ClientboundPlayPacket::ChunkBulk { .. }
        | ClientboundPlayPacket::MultiBlockChange { .. }
        | ClientboundPlayPacket::BlockChange { .. }
        | ClientboundPlayPacket::UpdateSign { .. }
        | ClientboundPlayPacket::BlockAction { .. } => true,
        _ => false,
    }
}

/// A packet about windows.
pub open spec fn is_window_packet(packet: ClientboundPlayPacket) -> bool {
    match packet {
        ClientboundPlayPacket::OpenWindow { .. }
        | ClientboundPlayPacket::CloseWindowS { .. }
        | ClientboundPlayPacket::WindowProperty { .. }
        | ClientboundPlayPacket::SetSlot { .. }
        | ClientboundPlayPacket::WindowItems { .. }
        | ClientboundPlayPacket::HeldItemChange { .. }
        | ClientboundPlayPacket::PluginMessage { .. } => true,
        _ => false,
    }
}

/// A packet about the player.
pub open spec fn is_player_packet(packet: ClientboundPlayPacket) -> bool {
    match packet {
        ClientboundPlayPacket::JoinGame { .. }
        | ClientboundPlayPacket::UpdateHealth { .. }
        | ClientboundPlayPacket::SetExperience { .. }
        | ClientboundPlayPacket::Respawn { .. }
        | ClientboundPlayPacket::PlayerPositionLook { .. }
        | ClientboundPlayPacket::PlayerAbilities { .. }
        | ClientboundPlayPacket::EntityEffect { .. }
        | ClientboundPlayPacket::RemoveEntityEffect { .. }
        | ClientboundPlayPacket::ChatMessage { .. }
        | ClientboundPlayPacket::TabComplete { .. }
        | ClientboundPlayPacket::Title { .. }
        | ClientboundPlayPacket::TimeUpdate { .. }
        | ClientboundPlayPacket::ChangeGameState { .. } => true,
        _ => false,
    }
}

/// A packet about entities.
pub open spec fn is_entity_packet(packet: ClientboundPlayPacket) -> bool {
    match packet {
        ClientboundPlayPacket::SpawnPlayer { .. }
        | ClientboundPlayPacket::SpawnObject { .. }
        | ClientboundPlayPacket::SpawnExperienceOrb { .. }
        | ClientboundPlayPacket::DestroyEntities { .. }
        | ClientboundPlayPacket::AttachEntity { .. }
        | ClientboundPlayPacket::EntityMetadata { .. }
        | ClientboundPlayPacket::EntityEquipment { .. }
        | ClientboundPlayPacket::CollectItem { .. }
        | ClientboundPlayPacket::SpawnGlobalEntity { .. } => true,
        _ => false,
    }
}

impl GameState {
    /// Act on a packet about terrain and what stands on it. Others are handed back.
    #[verifier::rlimit(40)]
    #[verifier::spinoff_prover]
    fn apply_terrain_packet(
        &mut self,
        packet: ClientboundPlayPacket,
        lang: &Language,
        now: u64,
    ) -> (done: Result<Outcome, ClientboundPlayPacket>)
        requires
            old(self).wf(),
            packet_fits(*old(self), packet),
        ensures
            final(self).wf(),
            done is Ok <==> is_terrain_packet(packet),
            match done {
                Ok(done) => packet_applied(
                    *old(self),
                    packet,
                    *lang,
                    now,
                    *final(self),
                    done.orders@,
                    done.remesh,
                ),
                Err(back) => back == packet && *final(self) == *old(self),
            },
    {
        let mut orders: Vec<Order> = Vec::new();
        let mut remesh = false;
        match packet {
            ClientboundPlayPacket::ChunkData { x, z, ground_up, primary_bit_mask, data } => {
                let sky_light = self.session.has_sky_light;
                let order = self.apply_raw_chunk(
                    x,
                    z,
                    ground_up,
                    primary_bit_mask,
                    sky_light,
                    data,
                );
                let ghost wanted = order;
                orders.push(order);
                assert(orders@ =~= one(wanted));
            },
            ClientboundPlayPacket::ChunkBulk { sky_light_sent, chunks } => {
                orders = self.handle_chunk_bulk(sky_light_sent, chunks);
            },
            ClientboundPlayPacket::MultiBlockChange { chunk_x, chunk_z, changes } => {
                let edits = self.terrain.handle_multi_block_change(chunk_x, chunk_z, &changes);
                remesh = edits.len() > 0;
                orders = edit_list(&edits);
            },
            ClientboundPlayPacket::BlockChange { x, y, z, id, meta } => {
                let edit = BlockEdit { x, y, z, state: BlockState { id, meta } };
                remesh = self.terrain.apply_block_change(edit);
                if remesh {
                    orders.push(Order::SetBlock { edit });
                    assert(orders@ =~= one(Order::SetBlock { edit }));
                }
            },
            ClientboundPlayPacket::UpdateSign { x, y, z, lines } => {
                self.fixtures.handle_update_sign(BlockPos { x, y, z }, &lines, lang);
            },
            ClientboundPlayPacket::BlockAction {
                x,
                y,
                z,
                action_id,
                action_param,
                block_type,
            } => {
                orders = self.handle_block_action(
                    x,
                    y,
                    z,
                    action_id,
                    action_param,
                    block_type,
                );
            },
            other => {
                return Err(other);
            },
        }
        Ok(Outcome { orders, remesh })
    }

    /// Act on a packet about windows and what the player holds. Others are handed back.
    #[verifier::rlimit(40)]
    #[verifier::spinoff_prover]
    fn apply_window_packet(
        &mut self,
        packet: ClientboundPlayPacket,
        lang: &Language,
        now: u64,
    ) -> (done: Result<Outcome, ClientboundPlayPacket>)
        requires
            old(self).wf(),
            packet_fits(*old(self), packet),
        ensures
            final(self).wf(),
            done is Ok <==> is_window_packet(packet),
            match done {
                Ok(done) => packet_applied(
                    *old(self),
                    packet,
                    *lang,
                    now,
                    *final(self),
                    done.orders@,
                    done.remesh,
                ),
                Err(back) => back == packet && *final(self) == *old(self),
            },
    {
        let mut orders: Vec<Order> = Vec::new();
        let mut remesh = false;
        match packet {
            ClientboundPlayPacket::OpenWindow { window_id, inventory_type, title, slots } => {
                let title = flatten_chat_json(title.as_str(), lang);
                self.windows.handle_open_window(window_id, inventory_type.as_str(), title, slots);
            },
            ClientboundPlayPacket::CloseWindowS { window_id } => {
                self.windows.handle_close_window_s(window_id);
            },
            ClientboundPlayPacket::WindowProperty { window_id, property, value } => {
                self.windows.handle_window_property(window_id, property, value);
            },
            ClientboundPlayPacket::SetSlot { window_id, slot, item } => {
                self.windows.handle_set_slot(window_id, slot, item);
            },
            ClientboundPlayPacket::WindowItems { window_id, items } => {
                self.windows.handle_window_items(window_id, items);
            },
            ClientboundPlayPacket::HeldItemChange { slot } => {
                self.hands.selected_slot = if slot < 0 {
                    0
                } else if slot > 8 {
                    8
                } else {
                    slot as i32
                };
            },
            ClientboundPlayPacket::PluginMessage { channel, data } => {
                self.handle_plugin_message(channel.as_str(), &data);
            },
            other => {
                return Err(other);
            },
        }
        Ok(Outcome { orders, remesh })
    }

    /// Act on a packet about the player and the session. Others are handed back.
    #[verifier::rlimit(40)]
    #[verifier::spinoff_prover]
    fn apply_player_packet(
        &mut self,
        packet: ClientboundPlayPacket,
        lang: &Language,
        now: u64,
    ) -> (done: Result<Outcome, ClientboundPlayPacket>)
        requires
            old(self).wf(),
            packet_fits(*old(self), packet),
        ensures
            final(self).wf(),
            done is Ok <==> is_player_packet(packet),
            match done {
                Ok(done) => packet_applied(
                    *old(self),
                    packet,
                    *lang,
                    now,
                    *final(self),
                    done.orders@,
                    done.remesh,
                ),
                Err(back) => back == packet && *final(self) == *old(self),
            },
    {
        let mut orders: Vec<Order> = Vec::new();
        let mut remesh = false;
        match packet {
            ClientboundPlayPacket::JoinGame { entity_id, game_mode, dimension } => {
                orders = self.handle_join_game(entity_id, game_mode, dimension);
            },
            ClientboundPlayPacket::UpdateHealth { health, food, food_saturation } => {
                self.vitals.handle_update_health(health, food, food_saturation);
            },
            ClientboundPlayPacket::SetExperience { bar, level } => {
                self.vitals.set_experience(bar, level);
            },
            ClientboundPlayPacket::Respawn { dimension, game_mode } => {
                orders = self.handle_respawn(dimension, game_mode);
            },
            ClientboundPlayPacket::PlayerPositionLook { x, y, z, yaw, pitch, flags } => {
                orders = self.handle_player_position_look(x, y, z, yaw, pitch, flags);
            },
            ClientboundPlayPacket::PlayerAbilities {
                invulnerable,
                flying,
                allow_flying,
                creative,
                fly_speed,
                walk_speed,
            } => {
                self.motion.capabilities =
                PlayerCapabilities {
                    invulnerable,
                    flying,
                    allow_flying,
                    creative,
                    fly_speed,
                    walk_speed,
                };
            },
            ClientboundPlayPacket::EntityEffect { entity_id, effect_id, amplifier, duration } => {
                if entity_id == self.session.player_id {
                    self.vitals.add_effect(
                        #[verifier::truncate] (effect_id as u8),
                        amplifier,
                        duration,
                    );
                }
            },
            ClientboundPlayPacket::RemoveEntityEffect { entity_id, effect_id } => {
                if entity_id == self.session.player_id {
                    self.vitals.remove_effect(#[verifier::truncate] (effect_id as u8));
                }
            },
            ClientboundPlayPacket::ChatMessage { json, position } => {
                self.handle_chat_message(json.as_str(), position, lang, now);
            },
            ClientboundPlayPacket::TabComplete { matches: found } => {
                self.chat.set_completions(found);
            },
            ClientboundPlayPacket::Title { action } => {
                self.title.apply(&action, lang);
            },
            ClientboundPlayPacket::TimeUpdate { time_of_day } => {
                self.clock.set_time(time_of_day);
            },
            ClientboundPlayPacket::ChangeGameState { reason, level } => {
                handle_change_game_state(&mut self.weather, reason, level);
            },
            other => {
                return Err(other);
            },
        }
        Ok(Outcome { orders, remesh })
    }

    /// Act on a packet about an entity of which something is remembered here. Others are handed back.
    #[verifier::rlimit(40)]
    #[verifier::spinoff_prover]
    fn apply_entity_packet(
        &mut self,
        packet: ClientboundPlayPacket,
        lang: &Language,
        now: u64,
    ) -> (done: Result<Outcome, ClientboundPlayPacket>)
        requires
            old(self).wf(),
            packet_fits(*old(self), packet),
        ensures
            final(self).wf(),
            done is Ok <==> is_entity_packet(packet),
            match done {
                Ok(done) => packet_applied(
                    *old(self),
                    packet,
                    *lang,
                    now,
                    *final(self),
                    done.orders@,
                    done.remesh,
                ),
                Err(back) => back == packet && *final(self) == *old(self),
            },
    {
        let mut orders: Vec<Order> = Vec::new();
        let mut remesh = false;
        match packet {
            ClientboundPlayPacket::SpawnPlayer { entity_id, uuid, x, y, z, yaw, pitch } => {
                orders = self.handle_spawn_player(entity_id, uuid, x, y, z, yaw, pitch);
            },
            ClientboundPlayPacket::SpawnObject {
                entity_id,
                kind,
                x,
                y,
                z,
                yaw,
                pitch,
                data,
                velocity,
            } => {
                orders = self.handle_spawn_object(
                    entity_id,
                    kind,
                    x,
                    y,
                    z,
                    yaw,
                    pitch,
                    data,
                    velocity,
                );
            },
            ClientboundPlayPacket::SpawnExperienceOrb { entity_id, x, y, z, count } => {
                orders = self.handle_spawn_experience_orb(entity_id, x, y, z, count);
            },
            ClientboundPlayPacket::DestroyEntities { entity_ids } => {
                orders = self.handle_destroy_entities(&entity_ids);
            },
            ClientboundPlayPacket::AttachEntity { entity_id, vehicle_id, leash } => {
                self.handle_attach_entity(entity_id, vehicle_id, leash);
            },
            ClientboundPlayPacket::EntityMetadata { entity_id, metadata } => {
                orders = self.apply_entity_metadata(entity_id, metadata);
            },
            ClientboundPlayPacket::EntityEquipment { entity_id, slot, item } => {
                self.tables.handle_entity_equipment(entity_id, slot, item);
            },
            ClientboundPlayPacket::CollectItem { collected_id, collector_id } => {
                orders = self.handle_collect_item(collected_id, collector_id);
            },
            ClientboundPlayPacket::SpawnGlobalEntity { kind, x, y, z, column_x, column_z } => {
                if kind == 1 {
                    orders = self.handle_lightning_bolt(x, y, z, column_x, column_z);
                }
            },
            other => {
                return Err(other);
            },
        }
        Ok(Outcome { orders, remesh })
    }

    /// Act on a packet from the server.
    pub fn apply_play_packet(
        &mut self,
        packet: ClientboundPlayPacket,
        lang: &Language,
        now: u64,
    ) -> (done: Outcome)
        requires
            old(self).wf(),
            packet_fits(*old(self), packet),
        ensures
            final(self).wf(),
            packet_applied(
                *old(self),
                packet,
                *lang,
                now,
                *final(self),
                done.orders@,
                done.remesh,
            ),
    {
        let packet = match self.relay(packet) {
            Ok(orders) => {
                return Outcome { orders, remesh: false };
            },
            Err(packet) => packet,
        };
        let packet = match self.apply_terrain_packet(packet, lang, now) {
            Ok(done) => {
                return done;
            },
            Err(packet) => packet,
        };
        let packet = match self.apply_window_packet(packet, lang, now) {
            Ok(done) => {
                return done;
            },
            Err(packet) => packet,
        };
        let packet = match self.apply_player_packet(packet, lang, now) {
            Ok(done) => {
                return done;
            },
            Err(packet) => packet,
        };
        match self.apply_entity_packet(packet, lang, now) {
            Ok(done) => done,
            Err(_) => Outcome { orders: Vec::new(), remesh: false },
        }
    }

    /// Whether a packet's numbers are in range.
    pub fn packet_in_range(&self, packet: &ClientboundPlayPacket) -> (yes: bool)
        requires
            self.wf(),
        ensures
            yes == packet_fits(*self, *packet),
    {
        match packet {
            ClientboundPlayPacket::MultiBlockChange { chunk_x, chunk_z, changes } => are_in_range(
                *chunk_x,
                *chunk_z,
                changes,
            ),
            ClientboundPlayPacket::TimeUpdate { time_of_day } => *time_of_day > i64::MIN,
            ClientboundPlayPacket::Title { action } => self.title.times_add_up(action),
            _ => true,
        }
    }
}

} // verus!
