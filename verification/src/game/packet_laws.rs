//! What the server's packets about the world are for: where entities go, what is heard
//! and seen of them, and which terrain changes.

use vstd::prelude::*;
use crate::chat::lang::Language;
use crate::clientbound::{
    AttributeModifier, BlockChangeRecord, BulkChunkData, ClientboundPlayPacket, EntityProperty,
    MetadataEntry, MetadataValue,
};
use crate::item::SlotItem;
use crate::packets::{Real32, Real64};
use super::dispatch::{
    attribute_kind, attribute_orders, bulk_orders, counted, excluded_modifier, metadata_fire,
    metadata_item, metadata_orders, packet_applied, packet_fits, AttributeKind, EntityKind, Order,
};
use super::fixtures::BlockPos;
use super::rules::BlockState;
use super::sounds::spec_effect_event;
use super::state::GameState;
use super::terrain::{sorted_edits, BlockEdit};

verus! {

/// The arrival of a packet: the game before and after it, and what it ordered.
pub struct Arrival {
    pub before: GameState,
    pub lang: Language,
    pub now: u64,
    pub after: GameState,
    pub orders: Seq<Order>,
    pub remesh: bool,
}

impl Arrival {
    /// It was this packet that arrived.
    pub open spec fn of(self, packet: ClientboundPlayPacket) -> bool {
        packet_applied(
            self.before,
            packet,
            self.lang,
            self.now,
            self.after,
            self.orders,
            self.remesh,
        )
    }

    /// The number of the player's own entity.
    pub open spec fn me(self) -> i32 {
        self.before.session.player_id
    }

    /// The game is as it was, and so is the terrain.
    pub open spec fn leaves_the_game(self) -> bool {
        self.after == self.before && !self.remesh
    }

    /// Nothing is ordered.
    pub open spec fn orders_nothing(self) -> bool {
        self.orders.len() == 0
    }
}

/// The entity that an order is about.
pub open spec fn subject(order: Order) -> Option<i32> {
    match order {
        Order::Spawn { id, .. } => Some(id),
        Order::Velocity { id, .. } => Some(id),
        Order::Move { id, .. } => Some(id),
        Order::Look { id, .. } => Some(id),
        Order::Place { id, .. } => Some(id),
        Order::HeadLook { id, .. } => Some(id),
        Order::Remove { id } => Some(id),
        Order::Swing { id } => Some(id),
        Order::Hurt { id } => Some(id),
        Order::Die { id } => Some(id),
        Order::Pose { id, .. } => Some(id),
        Order::Name { id, .. } => Some(id),
        Order::NameShown { id, .. } => Some(id),
        Order::EntityHealth { id, .. } => Some(id),
        Order::Pickup { id, .. } => Some(id),
        _ => None,
    }
}

// ── Where entities are ────────────────────────────────────────────────────

/// A teleported entity is put at the packet's place, each coordinate on its own axis, with
/// the packet's look; nothing else happens.
pub proof fn law_teleported_entities_are_where_the_packet_says(
    a: Arrival,
    entity_id: i32,
    x: Real64,
    y: Real64,
    z: Real64,
    yaw: Real32,
    pitch: Real32,
)
    requires
        a.of(ClientboundPlayPacket::EntityTeleport { entity_id, x, y, z, yaw, pitch }),
        entity_id != a.me(),
    ensures
        a.orders.len() == 1,
        a.orders[0] matches Order::Place { id, x: px, y: py, z: pz, yaw: facing, pitch: tilt }
            && id == entity_id && px == x && py == y && pz == z && facing == yaw && tilt == pitch,
        a.leaves_the_game(),
{
}

/// An entity moves by the packet's offset, axis by axis, and keeps its look.
pub proof fn law_moved_entities_keep_their_look(
    a: Arrival,
    entity_id: i32,
    dx: Real64,
    dy: Real64,
    dz: Real64,
)
    requires
        a.of(ClientboundPlayPacket::EntityRelativeMove { entity_id, dx, dy, dz }),
        entity_id != a.me(),
    ensures
        a.orders.len() == 1,
        a.orders[0] matches Order::Move { id, dx: mx, dy: my, dz: mz, look } && id == entity_id
            && mx == dx && my == dy && mz == dz && look is None,
        a.leaves_the_game(),
{
}

/// An entity moves by the packet's offset, axis by axis, and looks where it says.
pub proof fn law_moved_entities_look_where_told(
    a: Arrival,
    entity_id: i32,
    dx: Real64,
    dy: Real64,
    dz: Real64,
    yaw: Real32,
    pitch: Real32,
)
    requires
        a.of(ClientboundPlayPacket::EntityLookMove { entity_id, dx, dy, dz, yaw, pitch }),
        entity_id != a.me(),
    ensures
        a.orders.len() == 1,
        a.orders[0] matches Order::Move { id, dx: mx, dy: my, dz: mz, look } && id == entity_id
            && mx == dx && my == dy && mz == dz && look == Some((yaw, pitch)),
        a.leaves_the_game(),
{
}

/// An entity turns where the packet says and stays where it is.
pub proof fn law_turned_entities_stay(a: Arrival, entity_id: i32, yaw: Real32, pitch: Real32)
    requires
        a.of(ClientboundPlayPacket::EntityLook { entity_id, yaw, pitch }),
        entity_id != a.me(),
    ensures
        a.orders.len() == 1,
        a.orders[0] matches Order::Look { id, yaw: facing, pitch: tilt } && id == entity_id
            && facing == yaw && tilt == pitch,
        a.leaves_the_game(),
{
}

/// Only the head of an entity turns.
pub proof fn law_heads_turn_alone(a: Arrival, entity_id: i32, head_yaw: Real32)
    requires
        a.of(ClientboundPlayPacket::EntityHeadLook { entity_id, head_yaw }),
        entity_id != a.me(),
    ensures
        a.orders.len() == 1,
        a.orders[0] matches Order::HeadLook { id, yaw } && id == entity_id && yaw == head_yaw,
        a.leaves_the_game(),
{
}

/// A velocity is given to the entity it is for, axis by axis: the player's own pushes the
/// player and nobody else.
pub proof fn law_velocities_are_given_axis_by_axis(
    a: Arrival,
    entity_id: i32,
    vx: Real64,
    vy: Real64,
    vz: Real64,
)
    requires
        a.of(ClientboundPlayPacket::EntityVelocity { entity_id, vx, vy, vz }),
    ensures
        a.orders.len() == 1,
        entity_id == a.me() ==> (a.orders[0] matches Order::Push { vx: px, vy: py, vz: pz } && px
            == vx && py == vy && pz == vz),
        entity_id != a.me() ==> (a.orders[0] matches Order::Velocity {
            id,
            vx: px,
            vy: py,
            vz: pz,
        } && id == entity_id && px == vx && py == vy && pz == vz),
        a.leaves_the_game(),
{
}

/// A mob of the packet's kind appears at the packet's place.
pub proof fn law_mobs_appear_where_told(
    a: Arrival,
    entity_id: i32,
    kind: u8,
    x: Real64,
    y: Real64,
    z: Real64,
    yaw: Real32,
    pitch: Real32,
)
    requires
        a.of(ClientboundPlayPacket::SpawnMob { entity_id, kind, x, y, z, yaw, pitch }),
        entity_id != a.me(),
    ensures
        a.orders.len() == 1,
        a.orders[0] matches Order::Spawn {
            id,
            kind: what,
            x: px,
            y: py,
            z: pz,
            yaw: facing,
            pitch: tilt,
        } && id == entity_id && what == EntityKind::Mob(kind) && px == x && py == y && pz == z
            && facing == yaw && tilt == pitch,
        a.leaves_the_game(),
{
}

/// Another player appears at the packet's place, and is known by its account from then on.
pub proof fn law_players_appear_where_told(
    a: Arrival,
    entity_id: i32,
    uuid: [u8; 16],
    x: Real64,
    y: Real64,
    z: Real64,
    yaw: Real32,
    pitch: Real32,
)
    requires
        a.of(ClientboundPlayPacket::SpawnPlayer { entity_id, uuid, x, y, z, yaw, pitch }),
        entity_id != a.me(),
    ensures
        a.orders.len() == 1,
        a.orders[0] matches Order::Spawn {
            id,
            kind,
            x: px,
            y: py,
            z: pz,
            yaw: facing,
            pitch: tilt,
        } && id == entity_id && kind == EntityKind::RemotePlayer && px == x && py == y && pz == z
            && facing == yaw && tilt == pitch,
        a.after.tables.uuids@.dom().contains(entity_id),
        a.after.tables.uuids@[entity_id] == uuid,
        forall|other: i32|
            #![trigger a.after.tables.uuids@.dom().contains(other)]
            other != entity_id ==> a.after.tables.uuids@.dom().contains(other)
                == a.before.tables.uuids@.dom().contains(other) && (
            a.before.tables.uuids@.dom().contains(other) ==> a.after.tables.uuids@[other]
                == a.before.tables.uuids@[other]),
        a.after.tables.items == a.before.tables.items,
        a.after.tables.xp == a.before.tables.xp,
        a.after.tables.falling == a.before.tables.falling,
        a.after.tables.equipment == a.before.tables.equipment,
        a.after.tables.riders == a.before.tables.riders,
        a.after == (GameState { tables: a.after.tables, ..a.before }),
        !a.remesh,
{
}

/// A thing appears at the packet's place and with its motion, and only falling blocks are
/// remembered: twelve bits of the packet's number say which block, the four above how it is.
pub proof fn law_things_appear_where_told(
    a: Arrival,
    entity_id: i32,
    kind: i8,
    x: Real64,
    y: Real64,
    z: Real64,
    yaw: Real32,
    pitch: Real32,
    data: i32,
    velocity: Option<(Real64, Real64, Real64)>,
)
    requires
        a.of(
            ClientboundPlayPacket::SpawnObject {
                entity_id,
                kind,
                x,
                y,
                z,
                yaw,
                pitch,
                data,
                velocity,
            },
        ),
        entity_id != a.me(),
    ensures
        a.orders.len() == if velocity is Some {
            2int
        } else {
            1
        },
        a.orders[0] matches Order::Spawn {
            id,
            kind: what,
            x: px,
            y: py,
            z: pz,
            yaw: facing,
            pitch: tilt,
        } && id == entity_id && what == EntityKind::Object(kind as u8) && px == x && py == y && pz
            == z && facing == yaw && tilt == pitch,
        velocity matches Some(v) ==> (a.orders[1] matches Order::Velocity { id, vx, vy, vz } && id
            == entity_id && vx == v.0 && vy == v.1 && vz == v.2),
        kind != 70 ==> a.after == a.before,
        kind == 70 ==> {
            let shown = a.after.tables.falling@[entity_id];
            &&& a.after.tables.falling@.dom() == a.before.tables.falling@.dom().insert(entity_id)
            &&& 0 <= data ==> shown.id == data % 4096 && shown.meta == data / 4096 % 16
            &&& forall|other: i32|
                other != entity_id && a.before.tables.falling@.dom().contains(other)
                    ==> #[trigger] a.after.tables.falling@[other]
                    == a.before.tables.falling@[other]
        },
        a.after.tables.uuids == a.before.tables.uuids,
        a.after.tables.items == a.before.tables.items,
        a.after.tables.xp == a.before.tables.xp,
        a.after.tables.equipment == a.before.tables.equipment,
        a.after.tables.riders == a.before.tables.riders,
        a.after == (GameState { tables: a.after.tables, ..a.before }),
        !a.remesh,
{
    assert(0 <= data ==> data & 0xfff == data % 4096 && (data >> 12) & 0xf == data / 4096 % 16)
        by (bit_vector);
    assert(0 <= data & 0xfff < 4096 && 0 <= (data >> 12) & 0xf < 16) by (bit_vector);
}

/// An experience orb appears at the packet's place, looking nowhere, and its worth is known
/// from then on.
pub proof fn law_orbs_appear_where_told(
    a: Arrival,
    entity_id: i32,
    x: Real64,
    y: Real64,
    z: Real64,
    count: i16,
)
    requires
        a.of(ClientboundPlayPacket::SpawnExperienceOrb { entity_id, x, y, z, count }),
        entity_id != a.me(),
    ensures
        a.orders.len() == 1,
        a.orders[0] matches Order::Spawn { id, kind, x: px, y: py, z: pz, yaw, pitch } && id
            == entity_id && kind == EntityKind::ExperienceOrb && px == x && py == y && pz == z
            && yaw.bits == 0 && pitch.bits == 0,
        a.after.tables.xp@.dom() == a.before.tables.xp@.dom().insert(entity_id),
        a.after.tables.xp@[entity_id] == count,
        forall|other: i32|
            other != entity_id && a.before.tables.xp@.dom().contains(other)
                ==> #[trigger] a.after.tables.xp@[other] == a.before.tables.xp@[other],
        a.after.tables.uuids == a.before.tables.uuids,
        a.after.tables.items == a.before.tables.items,
        a.after.tables.falling == a.before.tables.falling,
        a.after.tables.equipment == a.before.tables.equipment,
        a.after.tables.riders == a.before.tables.riders,
        a.after == (GameState { tables: a.after.tables, ..a.before }),
        !a.remesh,
{
}

/// No packet about where entities are moves the player: its own is the server's echo.
pub proof fn law_echoes_do_not_move_the_player(a: Arrival, packet: ClientboundPlayPacket)
    requires
        a.of(packet),
        match packet {
            ClientboundPlayPacket::SpawnMob { entity_id, .. } => entity_id == a.me(),
            ClientboundPlayPacket::SpawnPlayer { entity_id, .. } => entity_id == a.me(),
            ClientboundPlayPacket::SpawnObject { entity_id, .. } => entity_id == a.me(),
            ClientboundPlayPacket::SpawnExperienceOrb { entity_id, .. } => entity_id == a.me(),
            ClientboundPlayPacket::EntityRelativeMove { entity_id, .. } => entity_id == a.me(),
            ClientboundPlayPacket::EntityLookMove { entity_id, .. } => entity_id == a.me(),
            ClientboundPlayPacket::EntityLook { entity_id, .. } => entity_id == a.me(),
            ClientboundPlayPacket::EntityTeleport { entity_id, .. } => entity_id == a.me(),
            ClientboundPlayPacket::EntityHeadLook { entity_id, .. } => entity_id == a.me(),
            ClientboundPlayPacket::EntityAnimation { entity_id, .. } => entity_id == a.me(),
            ClientboundPlayPacket::EntityMetadata { entity_id, .. } => entity_id == a.me(),
            _ => false,
        },
    ensures
        a.orders_nothing(),
        a.after.session.player_id == a.me(),
        !a.remesh,
{
    if let ClientboundPlayPacket::EntityMetadata { entity_id, metadata } = packet {
        lemma_no_orders_to_oneself(a.me(), metadata@, metadata@.len() as int);
    }
}

proof fn lemma_no_orders_to_oneself(me: i32, entries: Seq<MetadataEntry>, n: int)
    ensures
        metadata_orders(me, me, entries, n).len() == 0,
    decreases n,
{
    if n > 0 {
        lemma_no_orders_to_oneself(me, entries, n - 1);
    }
}

/// Whatever a packet about one entity orders of an entity, it orders of that one.
pub proof fn law_orders_are_about_the_packets_entity(
    a: Arrival,
    packet: ClientboundPlayPacket,
    who: i32,
    i: int,
)
    requires
        a.of(packet),
        match packet {
            ClientboundPlayPacket::SpawnMob { entity_id, .. } => entity_id == who,
            ClientboundPlayPacket::SpawnPlayer { entity_id, .. } => entity_id == who,
            ClientboundPlayPacket::SpawnObject { entity_id, .. } => entity_id == who,
            ClientboundPlayPacket::SpawnExperienceOrb { entity_id, .. } => entity_id == who,
            ClientboundPlayPacket::EntityRelativeMove { entity_id, .. } => entity_id == who,
            ClientboundPlayPacket::EntityLookMove { entity_id, .. } => entity_id == who,
            ClientboundPlayPacket::EntityLook { entity_id, .. } => entity_id == who,
            ClientboundPlayPacket::EntityTeleport { entity_id, .. } => entity_id == who,
            ClientboundPlayPacket::EntityVelocity { entity_id, .. } => entity_id == who,
            ClientboundPlayPacket::EntityHeadLook { entity_id, .. } => entity_id == who,
            ClientboundPlayPacket::EntityAnimation { entity_id, .. } => entity_id == who,
            ClientboundPlayPacket::EntityStatus { entity_id, .. } => entity_id == who,
            ClientboundPlayPacket::EntityMetadata { entity_id, .. } => entity_id == who,
            _ => false,
        },
        0 <= i < a.orders.len(),
    ensures
        subject(a.orders[i]) matches Some(id) ==> id == who,
{
    if let ClientboundPlayPacket::EntityMetadata { entity_id, metadata } = packet {
        lemma_metadata_subject(a.me(), who, metadata@, metadata@.len() as int, i);
    }
}

proof fn lemma_metadata_subject(me: i32, id: i32, entries: Seq<MetadataEntry>, n: int, i: int)
    requires
        0 <= i < metadata_orders(me, id, entries, n).len(),
    ensures
        subject(metadata_orders(me, id, entries, n)[i]) == Some(id),
    decreases n,
{
    if n > 0 && i < metadata_orders(me, id, entries, n - 1).len() {
        lemma_metadata_subject(me, id, entries, n - 1, i);
    }
}

// ── What entities do ──────────────────────────────────────────────────────

/// An arm swings on animation zero, a hit is shown on one; others show nothing.
pub proof fn law_animations_swing_or_hurt(a: Arrival, entity_id: i32, animation: u8)
    requires
        a.of(ClientboundPlayPacket::EntityAnimation { entity_id, animation }),
        entity_id != a.me(),
    ensures
        animation == 0 ==> a.orders == seq![Order::Swing { id: entity_id }],
        animation == 1 ==> a.orders == seq![Order::Hurt { id: entity_id }],
        animation > 1 ==> a.orders_nothing(),
        a.leaves_the_game(),
{
}

/// Status two is a hit, three a death; the player's own hit is felt too, and nobody
/// else's.
pub proof fn law_statuses_hurt_or_kill(a: Arrival, entity_id: i32, status: i8)
    requires
        a.of(ClientboundPlayPacket::EntityStatus { entity_id, status }),
    ensures
        a.orders.contains(Order::Hurt { id: entity_id }) <==> status == 2,
        a.orders.contains(Order::HurtPlayer) <==> status == 2 && entity_id == a.me(),
        a.orders.contains(Order::Die { id: entity_id }) <==> status == 3,
        status != 2 && status != 3 ==> a.orders_nothing(),
        a.orders.len() <= 2,
        a.leaves_the_game(),
{
    if status == 2 {
        assert(a.orders[0] == (Order::Hurt { id: entity_id }));
        if entity_id == a.me() {
            assert(a.orders[1] == Order::HurtPlayer);
        }
    }
    if status == 3 {
        assert(a.orders[0] == (Order::Die { id: entity_id }));
    }
}

/// What the metadata of another entity says is ordered, entry by entry: its pose by the
/// bits of entry zero, its name, whether the name is shown, and its health, at which it
/// dies if none is left.
pub proof fn law_metadata_is_ordered(
    a: Arrival,
    entity_id: i32,
    metadata: Vec<MetadataEntry>,
    i: int,
)
    requires
        a.of(ClientboundPlayPacket::EntityMetadata { entity_id, metadata }),
        entity_id != a.me(),
        0 <= i < metadata@.len(),
    ensures
        match (metadata@[i].index, metadata@[i].value) {
            (0u8, MetadataValue::Byte(bits)) => 0 <= bits ==> a.orders.contains(
                Order::Pose {
                    id: entity_id,
                    on_fire: bits % 2 == 1,
                    sneaking: bits / 2 % 2 == 1,
                    using_item: bits / 16 % 2 == 1,
                    invisible: bits / 32 % 2 == 1,
                },
            ),
            (2u8, MetadataValue::Str(name)) => a.orders.contains(
                Order::Name {
                    id: entity_id,
                    name: if name@.len() > 0 {
                        Some(name)
                    } else {
                        None
                    },
                },
            ),
            (3u8, MetadataValue::Byte(shown)) => a.orders.contains(
                Order::NameShown { id: entity_id, shown: shown != 0 },
            ),
            (6u8, MetadataValue::Float(health)) => {
                &&& a.orders.contains(Order::EntityHealth { id: entity_id, health })
                &&& !health.nan() && (health.bits == 0 || health.negative()) ==> a.orders.contains(
                    Order::Die { id: entity_id },
                )
            },
            _ => true,
        },
        !a.remesh,
{
    lemma_entry_ordered(a.me(), entity_id, metadata@, metadata@.len() as int, i);
    let orders = super::dispatch::entry_orders(a.me(), entity_id, metadata@[i]);
    if orders.len() > 0 {
        assert(orders.contains(orders[0]));
    }
    if orders.len() > 1 {
        assert(orders.contains(orders[1]));
    }
    if let (0u8, MetadataValue::Byte(bits)) = (metadata@[i].index, metadata@[i].value) {
        assert(0 <= bits ==> {
            &&& (bits & 0x01 != 0) == (bits % 2 == 1)
            &&& (bits & 0x02 != 0) == (bits / 2 % 2 == 1)
            &&& (bits & 0x10 != 0) == (bits / 16 % 2 == 1)
            &&& (bits & 0x20 != 0) == (bits / 32 % 2 == 1)
        }) by (bit_vector);
    }
}

proof fn lemma_entry_ordered(me: i32, id: i32, entries: Seq<MetadataEntry>, n: int, i: int)
    requires
        0 <= i < n <= entries.len(),
    ensures
        forall|o: Order|
            super::dispatch::entry_orders(me, id, entries[i]).contains(o)
                ==> #[trigger] metadata_orders(me, id, entries, n).contains(o),
    decreases n,
{
    let rest = metadata_orders(me, id, entries, n - 1);
    let last = super::dispatch::entry_orders(me, id, entries[n - 1]);
    let all = metadata_orders(me, id, entries, n);
    assert(all == rest + last);
    if i < n - 1 {
        lemma_entry_ordered(me, id, entries, n - 1, i);
        assert forall|o: Order|
            super::dispatch::entry_orders(me, id, entries[i]).contains(o) implies #[trigger] all.contains(o) by {
            assert(rest.contains(o));
            let k = rest.index_of(o);
            assert(all[k] == o);
        }
    } else {
        assert forall|o: Order|
            super::dispatch::entry_orders(me, id, entries[i]).contains(o) implies #[trigger] all.contains(o) by {
            let k = last.index_of(o);
            assert(all[rest.len() + k] == o);
        }
    }
}

/// Nobody dies of metadata that leaves it health.
pub proof fn law_only_the_healthless_die(
    a: Arrival,
    entity_id: i32,
    metadata: Vec<MetadataEntry>,
)
    requires
        a.of(ClientboundPlayPacket::EntityMetadata { entity_id, metadata }),
        a.orders.contains(Order::Die { id: entity_id }),
    ensures
        exists|i: int|
            0 <= i < metadata@.len() && (#[trigger] metadata@[i]).index == 6
                && (metadata@[i].value matches MetadataValue::Float(health) && !health.nan() && (
            health.bits == 0 || health.negative())),
{
    lemma_only_the_healthless_die(a.me(), entity_id, metadata@, metadata@.len() as int);
}

proof fn lemma_only_the_healthless_die(me: i32, id: i32, entries: Seq<MetadataEntry>, n: int)
    requires
        0 <= n <= entries.len(),
        metadata_orders(me, id, entries, n).contains(Order::Die { id }),
    ensures
        exists|i: int|
            0 <= i < n && (#[trigger] entries[i]).index == 6
                && (entries[i].value matches MetadataValue::Float(health) && !health.nan() && (
            health.bits == 0 || health.negative())),
    decreases n,
{
    if n > 0 {
        let rest = metadata_orders(me, id, entries, n - 1);
        let last = super::dispatch::entry_orders(me, id, entries[n - 1]);
        let all = metadata_orders(me, id, entries, n);
        let k = all.index_of(Order::Die { id });
        if k < rest.len() {
            assert(rest[k] == all[k]);
            lemma_only_the_healthless_die(me, id, entries, n - 1);
            let i = choose|i: int|
                0 <= i < n - 1 && (#[trigger] entries[i]).index == 6
                    && (entries[i].value matches MetadataValue::Float(health) && !health.nan() && (
                health.bits == 0 || health.negative()));
            assert(entries[i].index == 6);
        } else {
            assert(last[k - rest.len()] == (Order::Die { id }));
            assert(entries[n - 1].index == 6);
        }
    }
}

/// The stack of a dropped item is the last that its metadata names; where none is named
/// the known one stays, and nobody else's changes.
pub proof fn law_dropped_items_are_what_their_metadata_says(
    a: Arrival,
    entity_id: i32,
    metadata: Vec<MetadataEntry>,
    i: int,
    item: SlotItem,
)
    requires
        a.of(ClientboundPlayPacket::EntityMetadata { entity_id, metadata }),
        0 <= i < metadata@.len(),
        metadata@[i].index == 10,
        metadata@[i].value == MetadataValue::Slot(Some(item)),
        forall|k: int| i < k < metadata@.len() ==> (#[trigger] metadata@[k]).index != 10,
    ensures
        a.after.tables.items@.dom() == a.before.tables.items@.dom().insert(entity_id),
        a.after.tables.items@[entity_id] == item,
        forall|other: i32|
            other != entity_id && a.before.tables.items@.dom().contains(other)
                ==> #[trigger] a.after.tables.items@[other] == a.before.tables.items@[other],
{
    lemma_last_item(metadata@, metadata@.len() as int, i, item);
}

proof fn lemma_last_item(entries: Seq<MetadataEntry>, n: int, i: int, item: SlotItem)
    requires
        0 <= i < n <= entries.len(),
        entries[i].index == 10,
        entries[i].value == MetadataValue::Slot(Some(item)),
        forall|k: int| i < k < entries.len() ==> (#[trigger] entries[k]).index != 10,
    ensures
        metadata_item(entries, n) == Some(item),
    decreases n,
{
    if i < n - 1 {
        lemma_last_item(entries, n - 1, i, item);
    }
}

/// Metadata without a stack leaves the known stacks alone, and metadata of others leaves
/// the player's fire alone.
pub proof fn law_other_metadata_leaves_stacks_and_fire(
    a: Arrival,
    entity_id: i32,
    metadata: Vec<MetadataEntry>,
)
    requires
        a.of(ClientboundPlayPacket::EntityMetadata { entity_id, metadata }),
    ensures
        (forall|k: int| 0 <= k < metadata@.len() ==> (#[trigger] metadata@[k]).index != 10)
            ==> a.after.tables.items@ == a.before.tables.items@,
        entity_id != a.me() ==> a.after.session == a.before.session,
        a.after == (GameState {
            session: a.after.session,
            tables: a.after.tables,
            ..a.before
        }),
        a.after.tables.uuids == a.before.tables.uuids,
        a.after.tables.xp == a.before.tables.xp,
        a.after.tables.falling == a.before.tables.falling,
        a.after.tables.equipment == a.before.tables.equipment,
        a.after.tables.riders == a.before.tables.riders,
{
    if forall|k: int| 0 <= k < metadata@.len() ==> (#[trigger] metadata@[k]).index != 10 {
        lemma_no_item(metadata@, metadata@.len() as int);
    }
}

proof fn lemma_no_item(entries: Seq<MetadataEntry>, n: int)
    requires
        0 <= n <= entries.len(),
        forall|k: int| 0 <= k < entries.len() ==> (#[trigger] entries[k]).index != 10,
    ensures
        metadata_item(entries, n) is None,
    decreases n,
{
    if n > 0 {
        lemma_no_item(entries, n - 1);
    }
}

/// The player burns as the last of its own flags says: by their lowest bit.
pub proof fn law_the_player_burns_as_told(
    a: Arrival,
    metadata: Vec<MetadataEntry>,
    i: int,
    bits: i8,
)
    requires
        a.of(ClientboundPlayPacket::EntityMetadata { entity_id: a.me(), metadata }),
        0 <= i < metadata@.len(),
        metadata@[i].index == 0,
        metadata@[i].value == MetadataValue::Byte(bits),
        forall|k: int| i < k < metadata@.len() ==> (#[trigger] metadata@[k]).index != 0,
    ensures
        a.after.session.on_fire == (bits % 2 == 1),
{
    lemma_last_fire(metadata@, metadata@.len() as int, i, bits, a.before.session.on_fire);
    assert((bits & 0x01 != 0) == (bits % 2 == 1)) by (bit_vector);
}

proof fn lemma_last_fire(entries: Seq<MetadataEntry>, n: int, i: int, bits: i8, was: bool)
    requires
        0 <= i < n <= entries.len(),
        entries[i].index == 0,
        entries[i].value == MetadataValue::Byte(bits),
        forall|k: int| i < k < entries.len() ==> (#[trigger] entries[k]).index != 0,
    ensures
        metadata_fire(entries, n, was) == (bits & 0x01 != 0),
    decreases n,
{
    if i < n - 1 {
        lemma_last_fire(entries, n - 1, i, bits, was);
    }
}

/// Entities that are destroyed are forgotten wherever they were known, and ride and carry
/// nobody; the others stay as they were known.
pub proof fn law_destroyed_entities_are_forgotten(
    a: Arrival,
    entity_ids: Vec<i32>,
    id: i32,
)
    requires
        a.of(ClientboundPlayPacket::DestroyEntities { entity_ids }),
    ensures
        entity_ids@.contains(id) ==> {
            &&& a.orders.contains(Order::Remove { id })
            &&& !a.after.tables.uuids@.dom().contains(id)
            &&& !a.after.tables.items@.dom().contains(id)
            &&& !a.after.tables.xp@.dom().contains(id)
            &&& !a.after.tables.falling@.dom().contains(id)
            &&& !a.after.tables.equipment@.dom().contains(id)
            &&& a.after.tables.riders.vehicle(id) is None
            &&& forall|p: i32| #[trigger] a.after.tables.riders.vehicle(p) != Some(id)
        },
        !entity_ids@.contains(id) ==> {
            &&& a.after.tables.uuids@.dom().contains(id) == a.before.tables.uuids@.dom().contains(id)
            &&& a.after.tables.items@.dom().contains(id) == a.before.tables.items@.dom().contains(id)
            &&& a.after.tables.xp@.dom().contains(id) == a.before.tables.xp@.dom().contains(id)
            &&& a.after.tables.falling@.dom().contains(id) == a.before.tables.falling@.dom().contains(
                id,
            )
            &&& a.after.tables.equipment@.dom().contains(id)
                == a.before.tables.equipment@.dom().contains(id)
            &&& a.before.tables.items@.dom().contains(id) ==> a.after.tables.items@[id]
                == a.before.tables.items@[id]
            &&& (a.before.tables.riders.vehicle(id) matches Some(v) ==> (!entity_ids@.contains(v)
                ==> a.after.tables.riders.vehicle(id) == Some(v)))
            &&& !a.orders.contains(Order::Remove { id })
        },
        !a.remesh,
{
    let n = entity_ids@.len() as int;
    let sounds = a.before.entity_sounds.sounds@;
    assert(entity_ids@.to_set().contains(id) == entity_ids@.contains(id));
    if entity_ids@.contains(id) {
        let k = entity_ids@.index_of(id);
        assert(a.orders[k] == (Order::Remove { id }));
        assert forall|p: i32| #[trigger] a.after.tables.riders.vehicle(p) != Some(id) by {}
    } else if a.orders.contains(Order::Remove { id }) {
        let k = a.orders.index_of(Order::Remove { id });
        if k < n {
            assert(a.orders[k] == (Order::Remove { id: entity_ids@[k] }));
        } else {
            lemma_stops_are_sounds(sounds, entity_ids@, n, k - n);
            assert(a.orders[k] == super::dispatch::stops(sounds, entity_ids@, n)[k - n]);
        }
    }
}

proof fn lemma_stops_are_sounds(
    sounds: Seq<super::sounds::EntitySound>,
    ids: Seq<i32>,
    n: int,
    i: int,
)
    requires
        0 <= i < super::dispatch::stops(sounds, ids, n).len(),
    ensures
        super::dispatch::stops(sounds, ids, n)[i] is StopSound,
    decreases n,
{
    if n > 0 && i < super::dispatch::stops(sounds, ids, n - 1).len() {
        lemma_stops_are_sounds(sounds, ids, n - 1, i);
    }
}

/// The sound of a destroyed entity is stopped, and its number is free of it; the sounds of
/// others play on.
pub proof fn law_sounds_go_with_their_entities(
    a: Arrival,
    entity_ids: Vec<i32>,
    s: super::sounds::EntitySound,
)
    requires
        a.of(ClientboundPlayPacket::DestroyEntities { entity_ids }),
        a.before.entity_sounds.wf(),
        a.before.entity_sounds.sounds@.contains(s),
    ensures
        entity_ids@.contains(s.entity) ==> a.orders.contains(
            Order::StopSound { sound: s.sound_id },
        ) && !a.after.entity_sounds.sounds@.contains(s),
        !entity_ids@.contains(s.entity) ==> a.after.entity_sounds.sounds@.contains(s),
{
    let n = entity_ids@.len() as int;
    let sounds = a.before.entity_sounds;
    super::dispatch::law_no_sound_is_stopped_twice(sounds, entity_ids@, n);
    assert(entity_ids@.take(n) =~= entity_ids@);
    if entity_ids@.contains(s.entity) {
        let o = Order::StopSound { sound: s.sound_id };
        let list = super::dispatch::stops(sounds.sounds@, entity_ids@, n);
        assert(list.contains(o));
        let k = list.index_of(o);
        assert(a.orders[n + k] == o);
    }
}

/// A passenger rides the vehicle of the packet, or none where it is minus one; a leash ties
/// nobody to a vehicle, and nobody else changes seats.
pub proof fn law_passengers_ride_what_they_are_attached_to(
    a: Arrival,
    entity_id: i32,
    vehicle_id: i32,
    leash: bool,
)
    requires
        a.of(ClientboundPlayPacket::AttachEntity { entity_id, vehicle_id, leash }),
    ensures
        leash ==> a.after == a.before,
        !leash && vehicle_id == -1 ==> a.after.tables.riders.vehicle(entity_id) is None,
        !leash && vehicle_id != -1 ==> a.after.tables.riders.vehicle(entity_id) == Some(vehicle_id),
        forall|p: i32|
            p != entity_id ==> #[trigger] a.after.tables.riders.vehicle(p)
                == a.before.tables.riders.vehicle(p),
        a.after.tables.uuids == a.before.tables.uuids,
        a.after.tables.items == a.before.tables.items,
        a.after.tables.xp == a.before.tables.xp,
        a.after.tables.falling == a.before.tables.falling,
        a.after.tables.equipment == a.before.tables.equipment,
        a.after == (GameState { tables: a.after.tables, ..a.before }),
        a.orders_nothing(),
        !a.remesh,
{
}

/// An entity wears the packet's stack in the packet's place, and everything else as
/// before.
pub proof fn law_entities_wear_what_they_put_on(
    a: Arrival,
    entity_id: i32,
    slot: i16,
    item: Option<SlotItem>,
    e: i32,
    k: int,
)
    requires
        a.of(ClientboundPlayPacket::EntityEquipment { entity_id, slot, item }),
        a.before.wf(),
        0 <= k < 5,
    ensures
        super::entities::worn(a.after.tables.equipment@, e)[k] == if e == entity_id && k == slot {
            item
        } else {
            super::entities::worn(a.before.tables.equipment@, e)[k]
        },
        a.after.tables.uuids == a.before.tables.uuids,
        a.after.tables.items == a.before.tables.items,
        a.after.tables.xp == a.before.tables.xp,
        a.after.tables.falling == a.before.tables.falling,
        a.after.tables.riders == a.before.tables.riders,
        a.after == (GameState { tables: a.after.tables, ..a.before }),
        a.orders_nothing(),
        !a.remesh,
{
}

/// The player's own pickups are heard, as an orb's where it was one; those of others are
/// not.
pub proof fn law_only_own_pickups_are_heard(a: Arrival, collected_id: i32, collector_id: i32)
    requires
        a.of(ClientboundPlayPacket::CollectItem { collected_id, collector_id }),
    ensures
        collector_id != a.me() ==> a.orders_nothing() && a.after == a.before,
        collector_id == a.me() ==> a.orders.len() == 1 && (a.orders[0] matches Order::Pickup {
            id,
            xp,
            ..
        } && id == collected_id && xp == a.before.tables.xp@.dom().contains(collected_id)),
        a.after == (GameState { mood: a.after.mood, ..a.before }),
        a.after.mood.countdown == a.before.mood.countdown,
        !a.remesh,
{
}

// ── What is seen and heard ────────────────────────────────────────────────

/// Particles appear as the packet has them, place, spread, speed and number.
pub proof fn law_particles_are_as_told(
    a: Arrival,
    particle_id: i32,
    x: Real32,
    y: Real32,
    z: Real32,
    offset_x: Real32,
    offset_y: Real32,
    offset_z: Real32,
    speed: Real32,
    count: i32,
    args: Vec<i32>,
)
    requires
        a.of(
            ClientboundPlayPacket::SpawnParticle {
                particle_id,
                x,
                y,
                z,
                offset_x,
                offset_y,
                offset_z,
                speed,
                count,
                args,
            },
        ),
    ensures
        a.orders.len() == 1,
        a.orders[0] matches Order::Particle {
            particle_id: what,
            x: px,
            y: py,
            z: pz,
            offset_x: sx,
            offset_y: sy,
            offset_z: sz,
            speed: fast,
            count: many,
            args: how,
        } && what == particle_id && px == x && py == y && pz == z && sx == offset_x && sy
            == offset_y && sz == offset_z && fast == speed && many == count && how == args,
        a.leaves_the_game(),
{
}

/// A sound is heard as the packet has it.
pub proof fn law_sounds_are_as_told(
    a: Arrival,
    name: String,
    x: Real64,
    y: Real64,
    z: Real64,
    volume: Real32,
    pitch: u8,
)
    requires
        a.of(ClientboundPlayPacket::SoundEffect { name, x, y, z, volume, pitch }),
    ensures
        a.orders.len() == 1,
        a.orders[0] matches Order::PlaySound {
            name: what,
            x: px,
            y: py,
            z: pz,
            volume: loud,
            pitch: high,
        } && what == name && px == x && py == y && pz == z && loud == volume && high == pitch,
        a.leaves_the_game(),
{
}

/// A world effect that has a sound is heard at its block; others are not.
pub proof fn law_effects_are_heard_at_their_block(
    a: Arrival,
    effect_id: i32,
    x: i32,
    y: i32,
    z: i32,
    data: i32,
)
    requires
        a.of(ClientboundPlayPacket::Effect { effect_id, x, y, z, data }),
    ensures
        spec_effect_event(effect_id as int, data) is None ==> a.orders_nothing(),
        spec_effect_event(effect_id as int, data) is Some ==> a.orders.len() == 1 && (
        a.orders[0] matches Order::WorldEffect {
            effect_id: what,
            x: px,
            y: py,
            z: pz,
            data: how,
        } && what == effect_id && px == x && py == y && pz == z && how == data),
        a.leaves_the_game(),
{
}

/// A note block plays the packet's note on its instrument, no higher than the highest
/// note there is.
pub proof fn law_note_blocks_play(
    a: Arrival,
    x: i32,
    y: i32,
    z: i32,
    action_id: u8,
    action_param: u8,
)
    requires
        a.of(
            ClientboundPlayPacket::BlockAction {
                x,
                y,
                z,
                action_id,
                action_param,
                block_type: 25,
            },
        ),
    ensures
        a.orders.len() == 1,
        a.orders[0] matches Order::Note { x: px, y: py, z: pz, instrument, note } && px == x && py
            == y && pz == z && instrument == action_id && note <= 24 && (action_param <= 24
            ==> note == action_param) && (action_param > 24 ==> note == 24),
        a.leaves_the_game(),
{
}

/// A chest of any kind is open while somebody looks into it. Its lid moves when that
/// changes, and no other chest's does.
pub proof fn law_chests_are_open_while_viewed(
    a: Arrival,
    x: i32,
    y: i32,
    z: i32,
    action_param: u8,
    block_type: i32,
    p: BlockPos,
)
    requires
        a.of(
            ClientboundPlayPacket::BlockAction {
                x,
                y,
                z,
                action_id: 1,
                action_param,
                block_type,
            },
        ),
        block_type == 54 || block_type == 130 || block_type == 146,
    ensures
        ({
            let chest = BlockPos { x, y, z };
            let was = a.before.fixtures.open_chests@.contains(chest);
            &&& a.after.fixtures.open_chests@.contains(chest) <==> action_param > 0
            &&& p != chest ==> a.after.fixtures.open_chests@.contains(p)
                == a.before.fixtures.open_chests@.contains(p)
            &&& was && action_param == 0 ==> a.orders == seq![
                Order::ChestLid { x, y, z, open: false },
            ]
            &&& !was && action_param > 0 ==> a.orders == seq![
                Order::ChestLid { x, y, z, open: true },
            ]
            &&& was == (action_param > 0) ==> a.orders_nothing()
        }),
        a.after.fixtures.signs == a.before.fixtures.signs,
        a.after == (GameState { fixtures: a.after.fixtures, ..a.before }),
        !a.remesh,
{
}

/// Blocks without a sound or a lid do nothing.
pub proof fn law_other_blocks_do_not_act(
    a: Arrival,
    x: i32,
    y: i32,
    z: i32,
    action_id: u8,
    action_param: u8,
    block_type: i32,
)
    requires
        a.of(
            ClientboundPlayPacket::BlockAction {
                x,
                y,
                z,
                action_id,
                action_param,
                block_type,
            },
        ),
        block_type != 25,
        (block_type != 54 && block_type != 130 && block_type != 146) || action_id != 1,
    ensures
        a.orders_nothing(),
        a.leaves_the_game(),
{
}

/// Lightning is heard where it strikes, and a bolt stands there; other things from the sky
/// do nothing.
pub proof fn law_lightning_strikes_where_told(
    a: Arrival,
    kind: u8,
    x: Real64,
    y: Real64,
    z: Real64,
    column_x: i32,
    column_z: i32,
)
    requires
        a.of(ClientboundPlayPacket::SpawnGlobalEntity { kind, x, y, z, column_x, column_z }),
    ensures
        kind != 1 ==> a.orders_nothing() && a.after == a.before,
        kind == 1 ==> {
            let bolts = a.after.lightning.bolts@;
            &&& a.orders == seq![Order::Thunder { x, y, z }]
            &&& bolts.len() == a.before.lightning.bolts@.len() + 1
            &&& bolts.drop_last() == a.before.lightning.bolts@
            &&& bolts.last().x == x && bolts.last().y == y && bolts.last().z == z
            &&& a.after.weather.lightning_flash == 2
            &&& a.after.weather == (super::weather::Weather {
                lightning_flash: 2,
                ..a.before.weather
            })
        },
        a.after == (GameState {
            weather: a.after.weather,
            lightning: a.after.lightning,
            ..a.before
        }),
        !a.remesh,
{
    assert(a.before.lightning.bolts@ =~= if kind == 1 {
        a.after.lightning.bolts@.drop_last()
    } else {
        a.before.lightning.bolts@
    });
}

/// The boards and the end of the connection are passed on; what only keeps the connection
/// up, and what is not known, does nothing.
pub proof fn law_other_packets_are_passed_on(a: Arrival, packet: ClientboundPlayPacket)
    requires
        a.of(packet),
    ensures
        packet matches ClientboundPlayPacket::Board(board) ==> a.orders == seq![
            Order::Board { packet: board },
        ] && a.leaves_the_game(),
        packet matches ClientboundPlayPacket::Disconnect { reason_json } ==> a.orders == seq![
            Order::Disconnected { reason_json },
        ] && a.leaves_the_game(),
        packet is KeepAlive || packet is ConfirmTransaction || packet is Unknown
            ==> a.orders_nothing() && a.leaves_the_game(),
{
}

// ── Attributes ────────────────────────────────────────────────────────────

/// The player's own speed and health attributes are passed on, in their order, each as what
/// it is; those of others and other attributes are not.
pub proof fn law_own_attributes_are_passed_on(
    a: Arrival,
    entity_id: i32,
    properties: Vec<EntityProperty>,
    i: int,
)
    requires
        a.of(ClientboundPlayPacket::EntityProperties { entity_id, properties }),
        0 <= i < properties@.len(),
    ensures
        entity_id != a.me() ==> a.orders_nothing(),
        entity_id == a.me() && properties@[i].key@ == "generic.movementSpeed"@ ==> a.orders.contains(
            Order::Attribute { kind: AttributeKind::MovementSpeed, property: properties@[i] },
        ),
        entity_id == a.me() && properties@[i].key@ == "generic.maxHealth"@ ==> a.orders.contains(
            Order::Attribute { kind: AttributeKind::MaxHealth, property: properties@[i] },
        ),
        a.leaves_the_game(),
{
    reveal_strlit("generic.movementSpeed");
    reveal_strlit("generic.maxHealth");
    assert("generic.movementSpeed"@.len() != "generic.maxHealth"@.len());
    if entity_id == a.me() && attribute_kind(properties@[i].key@) is Some {
        lemma_attribute_ordered(properties@, properties@.len() as int, i);
    }
}

proof fn lemma_attribute_ordered(properties: Seq<EntityProperty>, n: int, i: int)
    requires
        0 <= i < n <= properties.len(),
        attribute_kind(properties[i].key@) is Some,
    ensures
        attribute_orders(properties, n).contains(
            Order::Attribute {
                kind: attribute_kind(properties[i].key@)->0,
                property: properties[i],
            },
        ),
    decreases n,
{
    let rest = attribute_orders(properties, n - 1);
    let all = attribute_orders(properties, n);
    let o = Order::Attribute {
        kind: attribute_kind(properties[i].key@)->0,
        property: properties[i],
    };
    if i < n - 1 {
        lemma_attribute_ordered(properties, n - 1, i);
        let k = rest.index_of(o);
        assert(all[k] == o);
    } else {
        assert(all[all.len() - 1] == o);
    }
}

/// Every attribute that is passed on is one of the packet's.
pub proof fn law_passed_attributes_were_sent(
    a: Arrival,
    entity_id: i32,
    properties: Vec<EntityProperty>,
    k: int,
)
    requires
        a.of(ClientboundPlayPacket::EntityProperties { entity_id, properties }),
        0 <= k < a.orders.len(),
    ensures
        a.orders[k] matches Order::Attribute { kind, property } && properties@.contains(property)
            && (kind == AttributeKind::MovementSpeed ==> property.key@ == "generic.movementSpeed"@)
            && (kind == AttributeKind::MaxHealth ==> property.key@ == "generic.maxHealth"@),
        a.orders.len() <= properties@.len(),
{
    lemma_passed_attributes(properties@, properties@.len() as int, k);
}

proof fn lemma_passed_attributes(properties: Seq<EntityProperty>, n: int, k: int)
    requires
        0 <= n <= properties.len(),
        0 <= k < attribute_orders(properties, n).len(),
    ensures
        attribute_orders(properties, n)[k] matches Order::Attribute { kind, property }
            && properties.contains(property) && attribute_kind(property.key@) == Some(kind),
        attribute_orders(properties, n).len() <= n,
    decreases n,
{
    if n > 0 {
        let rest = attribute_orders(properties, n - 1);
        if k < rest.len() {
            lemma_passed_attributes(properties, n - 1, k);
        } else {
            if rest.len() > 0 {
                lemma_passed_attributes(properties, n - 1, 0);
            }
            assert(properties.contains(properties[n - 1]));
        }
    }
}

/// A modifier counts among those of its operation unless it is the one left out.
pub proof fn law_modifiers_count_once_each(
    kind: AttributeKind,
    modifiers: Seq<AttributeModifier>,
    operation: i8,
    n: int,
    i: int,
)
    requires
        0 <= i < n <= modifiers.len(),
    ensures
        counted(kind, modifiers, operation, n).len() <= n,
        modifiers[i].operation == operation && modifiers[i].uuid@ != excluded_modifier(kind)
            ==> counted(kind, modifiers, operation, n).contains(modifiers[i]),
        forall|k: int|
            0 <= k < counted(kind, modifiers, operation, n).len() ==> {
                let m = #[trigger] counted(kind, modifiers, operation, n)[k];
                m.operation == operation && m.uuid@ != excluded_modifier(kind)
                    && modifiers.contains(m)
            },
    decreases n,
{
    let rest = counted(kind, modifiers, operation, n - 1);
    let all = counted(kind, modifiers, operation, n);
    if n > 1 {
        law_modifiers_count_once_each(kind, modifiers, operation, n - 1, if i < n - 1 {
            i
        } else {
            0
        });
    } else {
        assert(rest.len() == 0);
    }
    assert(modifiers.contains(modifiers[n - 1]));
    if rest.contains(modifiers[i]) {
        let k = rest.index_of(modifiers[i]);
        assert(all[k] == modifiers[i]);
    }
    if modifiers[n - 1].operation == operation && modifiers[n - 1].uuid@ != excluded_modifier(
        kind,
    ) {
        assert(all[all.len() - 1] == modifiers[n - 1]);
    }
}

// ── Terrain ───────────────────────────────────────────────────────────────

/// A column comes with its own place, mask and bytes, and the light that the dimension
/// has; an empty whole one goes.
pub proof fn law_columns_come_and_go_in_place(
    a: Arrival,
    x: i32,
    z: i32,
    ground_up: bool,
    primary_bit_mask: u16,
    data: Vec<u8>,
)
    requires
        a.of(ClientboundPlayPacket::ChunkData { x, z, ground_up, primary_bit_mask, data }),
    ensures
        ground_up && primary_bit_mask == 0 ==> a.orders == seq![Order::RemoveColumn { x, z }],
        !(ground_up && primary_bit_mask == 0) ==> a.orders.len() == 1 && (
        a.orders[0] matches Order::DecodeColumn {
            x: cx,
            z: cz,
            ground_up: whole,
            primary_bit_mask: mask,
            sky_light,
            data: bytes,
        } && cx == x && cz == z && whole == ground_up && mask == primary_bit_mask && bytes == data
            && sky_light == a.before.session.has_sky_light),
        a.leaves_the_game(),
{
}

/// Of many columns each comes or goes in its turn, in its own place; all are whole.
pub proof fn law_many_columns_come_in_turn(
    a: Arrival,
    sky_light_sent: bool,
    chunks: Vec<BulkChunkData>,
    i: int,
)
    requires
        a.of(ClientboundPlayPacket::ChunkBulk { sky_light_sent, chunks }),
        0 <= i < chunks@.len(),
    ensures
        a.orders.len() == chunks@.len(),
        chunks@[i].primary_bit_mask == 0 ==> (a.orders[i] matches Order::RemoveColumn { x, z } && x
            == chunks@[i].x && z == chunks@[i].z),
        chunks@[i].primary_bit_mask != 0 ==> (a.orders[i] matches Order::DecodeColumn {
            x,
            z,
            ground_up,
            primary_bit_mask,
            sky_light,
            data,
        } && x == chunks@[i].x && z == chunks@[i].z && ground_up && primary_bit_mask
            == chunks@[i].primary_bit_mask && sky_light == sky_light_sent && data
            == chunks@[i].data),
        a.leaves_the_game(),
{
    lemma_bulk(chunks@, sky_light_sent, chunks@.len() as int);
}

proof fn lemma_bulk(chunks: Seq<BulkChunkData>, sky_light: bool, n: int)
    requires
        0 <= n <= chunks.len(),
    ensures
        bulk_orders(chunks, sky_light, n).len() == n,
        forall|i: int|
            0 <= i < n ==> #[trigger] bulk_orders(chunks, sky_light, n)[i]
                == super::dispatch::column_order(
                chunks[i].x,
                chunks[i].z,
                true,
                chunks[i].primary_bit_mask,
                sky_light,
                chunks[i].data,
            ),
    decreases n,
{
    if n > 0 {
        lemma_bulk(chunks, sky_light, n - 1);
    }
}

/// A changed block in a loaded column is set at the packet's place to the packet's state,
/// and in no other; elsewhere the change waits.
pub proof fn law_blocks_change_where_told(
    a: Arrival,
    x: i32,
    y: i32,
    z: i32,
    id: u16,
    meta: u8,
)
    requires
        a.of(ClientboundPlayPacket::BlockChange { x, y, z, id, meta }),
    ensures
        ({
            let edit = BlockEdit { x, y, z, state: BlockState { id, meta } };
            let column = super::sections::ChunkPos {
                x: super::sections::chunk_of(x as int) as i32,
                z: super::sections::chunk_of(z as int) as i32,
            };
            let there = a.before.terrain.columns.loaded(column);
            &&& there ==> a.orders == seq![Order::SetBlock { edit }]
            &&& !there ==> a.orders_nothing() && a.after.terrain.pending@
                == a.before.terrain.pending@.push(edit)
            &&& there ==> a.after.terrain.pending@ == a.before.terrain.pending@
            &&& a.remesh == there
        }),
        a.after == (GameState { terrain: a.after.terrain, ..a.before }),
{
}

/// Of many changes in a column each is made at its place within that column, or waits if
/// the column is not there: none is lost, and none is made elsewhere.
pub proof fn law_many_blocks_change_where_told(
    a: Arrival,
    chunk_x: i32,
    chunk_z: i32,
    changes: Vec<BlockChangeRecord>,
    i: int,
)
    requires
        a.of(ClientboundPlayPacket::MultiBlockChange { chunk_x, chunk_z, changes }),
        packet_fits(
            a.before,
            ClientboundPlayPacket::MultiBlockChange { chunk_x, chunk_z, changes },
        ),
        0 <= i < changes@.len(),
    ensures
        ({
            let r = changes@[i];
            let edit = BlockEdit {
                x: (16 * chunk_x + r.x) as i32,
                y: r.y as i32,
                z: (16 * chunk_z + r.z) as i32,
                state: BlockState { id: r.id, meta: r.meta },
            };
            let there = a.before.terrain.columns.loaded(edit.spec_column());
            &&& there ==> a.orders.contains(Order::SetBlock { edit })
            &&& !there ==> a.after.terrain.pending@.contains(edit)
        }),
        a.orders.len() + (a.after.terrain.pending@.len() - a.before.terrain.pending@.len())
            == changes@.len(),
        a.remesh == (a.orders.len() > 0),
        a.after == (GameState { terrain: a.after.terrain, ..a.before }),
{
    let r = changes@[i];
    let n = changes@.len() as int;
    let (cx, cz) = (chunk_x as int, chunk_z as int);
    let columns = a.before.terrain.columns;
    let edit = super::terrain::record_edit(cx, cz, r);
    assert(chunk_x * 16 == 16 * chunk_x && chunk_z * 16 == 16 * chunk_z);
    lemma_sorted(columns, cx, cz, changes@, n, i);
    let made = sorted_edits(columns, cx, cz, changes@, true, n);
    let kept = sorted_edits(columns, cx, cz, changes@, false, n);
    if columns.loaded(edit.spec_column()) {
        let k = made.index_of(edit);
        assert(a.orders[k] == (Order::SetBlock { edit }));
    } else {
        let k = kept.index_of(edit);
        assert(a.after.terrain.pending@[a.before.terrain.pending@.len() + k] == edit);
    }
}

proof fn lemma_sorted(
    columns: super::sections::Columns,
    cx: int,
    cz: int,
    records: Seq<BlockChangeRecord>,
    n: int,
    i: int,
)
    requires
        0 <= n <= records.len(),
    ensures
        sorted_edits(columns, cx, cz, records, true, n).len() + sorted_edits(
            columns,
            cx,
            cz,
            records,
            false,
            n,
        ).len() == n,
        0 <= i < n ==> {
            let edit = super::terrain::record_edit(cx, cz, records[i]);
            sorted_edits(
                columns,
                cx,
                cz,
                records,
                columns.loaded(edit.spec_column()),
                n,
            ).contains(edit)
        },
    decreases n,
{
    if n > 0 {
        lemma_sorted(columns, cx, cz, records, n - 1, i);
        if 0 <= i < n {
            let edit = super::terrain::record_edit(cx, cz, records[i]);
            let there = columns.loaded(edit.spec_column());
            let rest = sorted_edits(columns, cx, cz, records, there, n - 1);
            let all = sorted_edits(columns, cx, cz, records, there, n);
            if i < n - 1 {
                let k = rest.index_of(edit);
                assert(all[k] == edit);
            } else {
                assert(all[all.len() - 1] == edit);
            }
        }
    }
}

/// No block is set that the packet did not change.
pub proof fn law_only_told_blocks_change(
    a: Arrival,
    chunk_x: i32,
    chunk_z: i32,
    changes: Vec<BlockChangeRecord>,
    k: int,
)
    requires
        a.of(ClientboundPlayPacket::MultiBlockChange { chunk_x, chunk_z, changes }),
        packet_fits(
            a.before,
            ClientboundPlayPacket::MultiBlockChange { chunk_x, chunk_z, changes },
        ),
        0 <= k < a.orders.len(),
    ensures
        exists|i: int|
            0 <= i < changes@.len() && {
                let r = #[trigger] changes@[i];
                a.orders[k] == (Order::SetBlock {
                    edit: BlockEdit {
                        x: (16 * chunk_x + r.x) as i32,
                        y: r.y as i32,
                        z: (16 * chunk_z + r.z) as i32,
                        state: BlockState { id: r.id, meta: r.meta },
                    },
                })
            },
{
    let n = changes@.len() as int;
    let i = lemma_sorted_from(
        a.before.terrain.columns,
        chunk_x as int,
        chunk_z as int,
        changes@,
        n,
        k,
    );
    let r = changes@[i];
    assert(chunk_x * 16 == 16 * chunk_x && chunk_z * 16 == 16 * chunk_z);
    assert(a.orders[k] == (Order::SetBlock {
        edit: super::terrain::record_edit(chunk_x as int, chunk_z as int, r),
    }));
}

proof fn lemma_sorted_from(
    columns: super::sections::Columns,
    cx: int,
    cz: int,
    records: Seq<BlockChangeRecord>,
    n: int,
    k: int,
) -> (i: int)
    requires
        0 <= n <= records.len(),
        0 <= k < sorted_edits(columns, cx, cz, records, true, n).len(),
    ensures
        0 <= i < n,
        sorted_edits(columns, cx, cz, records, true, n)[k] == super::terrain::record_edit(
            cx,
            cz,
            records[i],
        ),
    decreases n,
{
    if n > 0 && k < sorted_edits(columns, cx, cz, records, true, n - 1).len() {
        lemma_sorted_from(columns, cx, cz, records, n - 1, k)
    } else {
        n - 1
    }
}

} // verus!
