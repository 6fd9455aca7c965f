//! What extensions see and send: a stable vocabulary over packets and state.

use vstd::prelude::*;
use crate::chat::component::{flat_message, flatten_chat_json};
use crate::chat::lang::Language;
use crate::clientbound::{BlockChangeRecord, ClientboundPlayPacket};
use crate::container::state::WindowKind;
use crate::game::commands::DAY;
use crate::game::dispatch::EntityKind;
use crate::game::motion::PlayerCapabilities;
use crate::game::state::GameState;
use crate::game::terrain::{record_fits, records_fit};
use crate::game::vitals::ActiveEffect;
use crate::item::SlotItem;
use crate::packets::{DiggingStatus, Real32, Real64, ServerboundPacket};

verus! {

broadcast use vstd::std_specs::hash::group_hash_axioms;

/// The kinds of packet that extensions can tell apart.
#[derive(Debug, Clone, Copy, PartialEq, Eq, Structural)]
pub enum PacketType {
    KeepAlive,
    JoinGame,
    Respawn,
    ChatMessage,
    BlockChange,
    MultiBlockChange,
    ChunkData,
    ChunkBulk,
    SpawnPlayer,
    SpawnMob,
    SpawnObject,
    SpawnExperienceOrb,
    EntityMove,
    EntityTeleport,
    EntityVelocity,
    DestroyEntities,
    EntityMetadata,
    PlayerPositionLook,
    UpdateHealth,
    SetExperience,
    SetSlot,
    WindowItems,
    HeldItemChange,
    SoundEffect,
    SpawnParticle,
    Effect,
    BlockAction,
    TimeUpdate,
    Disconnect,
    ClientboundOther,
    SbChatMessage,
    SbPlayerPosition,
    SbPlayerLook,
    SbPlayerPositionLook,
    SbPlayerDigging,
    SbPlayerBlockPlacement,
    SbHeldItemChange,
    SbAnimation,
    SbUseEntity,
    SbEntityAction,
    SbKeepAlive,
    ServerboundOther,
}

/// A packet as extensions see it.
#[allow(inconsistent_fields)]
#[derive(Debug, PartialEq, Eq)]
pub enum PacketView {
    KeepAlive { id: i32 },
    Chat { text: String, position: i8, json: String },
    BlockChange { x: i32, y: i32, z: i32, id: u16, meta: u8 },
    SpawnMob { id: i32, kind: u8, x: Real64, y: Real64, z: Real64 },
    SpawnPlayer { id: i32, x: Real64, y: Real64, z: Real64 },
    DestroyEntities { ids: Vec<i32> },
    UpdateHealth { health: Real32, food: i32 },
    SoundEffect { name: String, x: Real64, y: Real64, z: Real64, volume: Real32, pitch: u8 },
    OutChat { message: String },
    OutPlayerPosition { x: Real64, y: Real64, z: Real64, on_ground: bool },
    OutPlayerDigging { status: u8, x: i32, y: i32, z: i32, face: u8 },
    Other { ty: PacketType, raw_id: i32 },
}

/// What an entity is, to extensions.
#[derive(Debug, Clone, Copy, PartialEq, Eq, Structural)]
pub enum EntityKindView {
    Player,
    Mob(u8),
    Object(u8),
    ExperienceOrb,
}

/// Something that happened, as extensions are told.
#[allow(inconsistent_fields)]
#[derive(Debug, PartialEq, Eq)]
pub enum ExtEvent {
    Chat { text: String, position: i8, json: String },
    BlockChange { x: i32, y: i32, z: i32, id: u16, meta: u8 },
    EntitySpawn { id: i32, kind: EntityKindView, x: Real64, y: Real64, z: Real64 },
    EntityRemove { id: i32 },
    PlayerHealth { health: Real32, food: i32 },
}

/// A packet that an extension wants sent.
#[allow(inconsistent_fields)]
#[derive(Debug, PartialEq, Eq)]
pub enum PacketBuild {
    Chat(String),
    PlayerPosition { x: Real64, y: Real64, z: Real64, on_ground: bool },
    PlayerLook { yaw: Real32, pitch: Real32, on_ground: bool },
    HeldItemChange { slot: i16 },
    SwingArm,
    PlayerDigging { status: u8, x: i32, y: i32, z: i32, face: u8 },
}

/// A stack as extensions see it.
#[derive(Debug, Clone, Copy, PartialEq, Eq, Structural)]
pub struct ItemView {
    pub id: i16,
    pub count: u8,
    pub damage: i16,
}

/// An active effect as extensions see it.
#[derive(Debug, Clone, Copy, PartialEq, Eq, Structural)]
pub struct EffectView {
    pub id: u8,
    pub amplifier: i8,
    pub duration: i32,
}

/// The open window as extensions see it.
#[derive(Debug, PartialEq, Eq)]
pub struct ContainerInfo {
    pub window_id: i32,
    pub kind: String,
    pub size: usize,
}

/// How a block is drawn.
#[derive(Debug, Clone, Copy, PartialEq, Eq, Structural)]
pub enum RenderShape {
    Hidden,
    Cube,
    Cross,
    Rail,
    Ladder,
    Boxes,
    Door,
    Piston,
    PistonHead,
    Torch,
    Fluid,
    Fire,
    Bed,
}

// ── Names ─────────────────────────────────────────────────────────────────

/// The name of a shape.
pub open spec fn shape_name(shape: RenderShape) -> &'static str {
    match shape {
        RenderShape::Hidden => "none",
        RenderShape::Cube => "cube",
        RenderShape::Cross => "cross",
        RenderShape::Rail => "rail",
        RenderShape::Ladder => "ladder",
        RenderShape::Boxes => "boxes",
        RenderShape::Door => "door",
        RenderShape::Piston => "piston",
        RenderShape::PistonHead => "piston_head",
        RenderShape::Torch => "torch",
        RenderShape::Fluid => "fluid",
        RenderShape::Fire => "fire",
        RenderShape::Bed => "bed",
    }
}

/// The name of a shape.
pub fn render_shape_name(shape: RenderShape) -> (name: &'static str)
    ensures
        name@ == shape_name(shape)@,
{
    match shape {
        RenderShape::Hidden => "none",
        RenderShape::Cube => "cube",
        RenderShape::Cross => "cross",
        RenderShape::Rail => "rail",
        RenderShape::Ladder => "ladder",
        RenderShape::Boxes => "boxes",
        RenderShape::Door => "door",
        RenderShape::Piston => "piston",
        RenderShape::PistonHead => "piston_head",
        RenderShape::Torch => "torch",
        RenderShape::Fluid => "fluid",
        RenderShape::Fire => "fire",
        RenderShape::Bed => "bed",
    }
}

/// The name of a kind of window.
pub open spec fn kind_name(kind: WindowKind) -> &'static str {
    match kind {
        WindowKind::Player => "player",
        WindowKind::Chest(_) => "chest",
        WindowKind::Dispenser => "dispenser",
        WindowKind::Hopper => "hopper",
        WindowKind::Furnace => "furnace",
        WindowKind::Crafting => "crafting",
        WindowKind::Brewing => "brewing",
        WindowKind::Enchant => "enchant",
        WindowKind::Anvil => "anvil",
        WindowKind::Beacon => "beacon",
        WindowKind::Villager => "villager",
    }
}

/// The name of a kind of window.
pub fn window_kind_name(kind: &WindowKind) -> (name: &'static str)
    ensures
        name@ == kind_name(*kind)@,
{
    match kind {
        WindowKind::Player => "player",
        WindowKind::Chest(_) => "chest",
        WindowKind::Dispenser => "dispenser",
        WindowKind::Hopper => "hopper",
        WindowKind::Furnace => "furnace",
        WindowKind::Crafting => "crafting",
        WindowKind::Brewing => "brewing",
        WindowKind::Enchant => "enchant",
        WindowKind::Anvil => "anvil",
        WindowKind::Beacon => "beacon",
        WindowKind::Villager => "villager",
    }
}

/// A stack as extensions see it.
pub open spec fn item_view(s: SlotItem) -> ItemView {
    ItemView { id: s.id, count: s.count, damage: s.damage }
}

/// A stack as extensions see it, where there is one.
pub open spec fn place_view(place: Option<SlotItem>) -> Option<ItemView> {
    match place {
        Some(s) => Some(item_view(s)),
        None => None,
    }
}

/// A stack as extensions see it.
pub fn slot_to_item(s: &SlotItem) -> (item: ItemView)
    ensures
        item == item_view(*s),
{
    ItemView { id: s.id, count: s.count, damage: s.damage }
}

/// What an entity is, to extensions. The local player is a player too.
pub open spec fn kind_view(kind: EntityKind) -> EntityKindView {
    match kind {
        EntityKind::LocalPlayer | EntityKind::RemotePlayer => EntityKindView::Player,
        EntityKind::Mob(id) => EntityKindView::Mob(id),
        EntityKind::Object(id) => EntityKindView::Object(id),
        EntityKind::ExperienceOrb => EntityKindView::ExperienceOrb,
    }
}

/// What an entity is, to extensions.
pub fn entity_kind_view(kind: EntityKind) -> (view: EntityKindView)
    ensures
        view == kind_view(kind),
{
    match kind {
        EntityKind::LocalPlayer | EntityKind::RemotePlayer => EntityKindView::Player,
        EntityKind::Mob(id) => EntityKindView::Mob(id),
        EntityKind::Object(id) => EntityKindView::Object(id),
        EntityKind::ExperienceOrb => EntityKindView::ExperienceOrb,
    }
}

// ── Packets from the server ───────────────────────────────────────────────

/// The kind of a packet from the server. The three ways an entity moves by a
/// little are one kind.
pub open spec fn type_of_clientbound(p: ClientboundPlayPacket) -> PacketType {
    match p {
        ClientboundPlayPacket::KeepAlive { .. } => PacketType::KeepAlive,
        ClientboundPlayPacket::JoinGame { .. } => PacketType::JoinGame,
        ClientboundPlayPacket::Respawn { .. } => PacketType::Respawn,
        ClientboundPlayPacket::ChatMessage { .. } => PacketType::ChatMessage,
        ClientboundPlayPacket::BlockChange { .. } => PacketType::BlockChange,
        ClientboundPlayPacket::MultiBlockChange { .. } => PacketType::MultiBlockChange,
        ClientboundPlayPacket::ChunkData { .. } => PacketType::ChunkData,
        ClientboundPlayPacket::ChunkBulk { .. } => PacketType::ChunkBulk,
        ClientboundPlayPacket::SpawnPlayer { .. } => PacketType::SpawnPlayer,
        ClientboundPlayPacket::SpawnMob { .. } => PacketType::SpawnMob,
        ClientboundPlayPacket::SpawnObject { .. } => PacketType::SpawnObject,
        ClientboundPlayPacket::SpawnExperienceOrb { .. } => PacketType::SpawnExperienceOrb,
        ClientboundPlayPacket::EntityRelativeMove { .. } => PacketType::EntityMove,
        ClientboundPlayPacket::EntityLookMove { .. } => PacketType::EntityMove,
        ClientboundPlayPacket::EntityLook { .. } => PacketType::EntityMove,
        ClientboundPlayPacket::EntityTeleport { .. } => PacketType::EntityTeleport,
        ClientboundPlayPacket::EntityVelocity { .. } => PacketType::EntityVelocity,
        ClientboundPlayPacket::DestroyEntities { .. } => PacketType::DestroyEntities,
        ClientboundPlayPacket::EntityMetadata { .. } => PacketType::EntityMetadata,
        ClientboundPlayPacket::PlayerPositionLook { .. } => PacketType::PlayerPositionLook,
        ClientboundPlayPacket::UpdateHealth { .. } => PacketType::UpdateHealth,
        ClientboundPlayPacket::SetExperience { .. } => PacketType::SetExperience,
        ClientboundPlayPacket::SetSlot { .. } => PacketType::SetSlot,
        ClientboundPlayPacket::WindowItems { .. } => PacketType::WindowItems,
        ClientboundPlayPacket::HeldItemChange { .. } => PacketType::HeldItemChange,
        ClientboundPlayPacket::SoundEffect { .. } => PacketType::SoundEffect,
        ClientboundPlayPacket::SpawnParticle { .. } => PacketType::SpawnParticle,
        ClientboundPlayPacket::Effect { .. } => PacketType::Effect,
        ClientboundPlayPacket::BlockAction { .. } => PacketType::BlockAction,
        ClientboundPlayPacket::TimeUpdate { .. } => PacketType::TimeUpdate,
        ClientboundPlayPacket::Disconnect { .. } => PacketType::Disconnect,
        _ => PacketType::ClientboundOther,
    }
}

/// The kind of a packet from the server.
pub fn clientbound_type(p: &ClientboundPlayPacket) -> (ty: PacketType)
    ensures
        ty == type_of_clientbound(*p),
{
    match p {
        ClientboundPlayPacket::KeepAlive { .. } => PacketType::KeepAlive,
        ClientboundPlayPacket::JoinGame { .. } => PacketType::JoinGame,
        ClientboundPlayPacket::Respawn { .. } => PacketType::Respawn,
        ClientboundPlayPacket::ChatMessage { .. } => PacketType::ChatMessage,
        ClientboundPlayPacket::BlockChange { .. } => PacketType::BlockChange,
        ClientboundPlayPacket::MultiBlockChange { .. } => PacketType::MultiBlockChange,
        ClientboundPlayPacket::ChunkData { .. } => PacketType::ChunkData,
        ClientboundPlayPacket::ChunkBulk { .. } => PacketType::ChunkBulk,
        ClientboundPlayPacket::SpawnPlayer { .. } => PacketType::SpawnPlayer,
        ClientboundPlayPacket::SpawnMob { .. } => PacketType::SpawnMob,
        ClientboundPlayPacket::SpawnObject { .. } => PacketType::SpawnObject,
        ClientboundPlayPacket::SpawnExperienceOrb { .. } => PacketType::SpawnExperienceOrb,
        ClientboundPlayPacket::EntityRelativeMove { .. }
        | ClientboundPlayPacket::EntityLookMove { .. }
        | ClientboundPlayPacket::EntityLook { .. } => PacketType::EntityMove,
        ClientboundPlayPacket::EntityTeleport { .. } => PacketType::EntityTeleport,
        ClientboundPlayPacket::EntityVelocity { .. } => PacketType::EntityVelocity,
        ClientboundPlayPacket::DestroyEntities { .. } => PacketType::DestroyEntities,
        ClientboundPlayPacket::EntityMetadata { .. } => PacketType::EntityMetadata,
        ClientboundPlayPacket::PlayerPositionLook { .. } => PacketType::PlayerPositionLook,
        ClientboundPlayPacket::UpdateHealth { .. } => PacketType::UpdateHealth,
        ClientboundPlayPacket::SetExperience { .. } => PacketType::SetExperience,
        ClientboundPlayPacket::SetSlot { .. } => PacketType::SetSlot,
        ClientboundPlayPacket::WindowItems { .. } => PacketType::WindowItems,
        ClientboundPlayPacket::HeldItemChange { .. } => PacketType::HeldItemChange,
        ClientboundPlayPacket::SoundEffect { .. } => PacketType::SoundEffect,
        ClientboundPlayPacket::SpawnParticle { .. } => PacketType::SpawnParticle,
        ClientboundPlayPacket::Effect { .. } => PacketType::Effect,
        ClientboundPlayPacket::BlockAction { .. } => PacketType::BlockAction,
        ClientboundPlayPacket::TimeUpdate { .. } => PacketType::TimeUpdate,
        ClientboundPlayPacket::Disconnect { .. } => PacketType::Disconnect,
        _ => PacketType::ClientboundOther,
    }
}

/// Whether a view shows a packet from the server: its fields where extensions get
/// them, else only its kind.
pub open spec fn shows_clientbound(v: PacketView, p: ClientboundPlayPacket, lang: Language) -> bool {
    match p {
        ClientboundPlayPacket::KeepAlive { id } => v == (PacketView::KeepAlive { id }),
        ClientboundPlayPacket::ChatMessage { json, position } => {
            &&& v matches PacketView::Chat { text, position: at, json: raw }
            &&& text@ == flat_message(json@, lang)
            &&& at == position
            &&& raw == json
        },
        ClientboundPlayPacket::BlockChange { x, y, z, id, meta } => v == (
        PacketView::BlockChange { x, y, z, id, meta }),
        ClientboundPlayPacket::SpawnMob { entity_id, kind, x, y, z, .. } => v == (
        PacketView::SpawnMob { id: entity_id, kind, x, y, z }),
        ClientboundPlayPacket::SpawnPlayer { entity_id, x, y, z, .. } => v == (
        PacketView::SpawnPlayer { id: entity_id, x, y, z }),
        ClientboundPlayPacket::DestroyEntities { entity_ids } => {
            &&& v matches PacketView::DestroyEntities { ids }
            &&& ids@ == entity_ids@
        },
        ClientboundPlayPacket::UpdateHealth { health, food, .. } => v == (
        PacketView::UpdateHealth { health, food }),
        ClientboundPlayPacket::SoundEffect { name, x, y, z, volume, pitch } => v == (
        PacketView::SoundEffect { name, x, y, z, volume, pitch }),
        other => v == (PacketView::Other { ty: type_of_clientbound(other), raw_id: 0 }),
    }
}

fn copy_ids(ids: &Vec<i32>) -> (copy: Vec<i32>)
    ensures
        copy@ == ids@,
{
    let mut copy: Vec<i32> = Vec::new();
    let mut i: usize = 0;
    while i < ids.len()
        invariant
            i <= ids@.len(),
            copy@ == ids@.take(i as int),
        decreases ids@.len() - i,
    {
        assert(ids@.take(i as int).push(ids@[i as int]) =~= ids@.take(i + 1));
        copy.push(ids[i]);
        i += 1;
    }
    assert(ids@.take(ids@.len() as int) =~= ids@);
    copy
}

/// A packet from the server as extensions see it.
pub fn clientbound_view(p: &ClientboundPlayPacket, lang: &Language) -> (v: PacketView)
    ensures
        shows_clientbound(v, *p, *lang),
{
    match p {
        ClientboundPlayPacket::KeepAlive { id } => PacketView::KeepAlive { id: *id },
        ClientboundPlayPacket::ChatMessage { json, position } => PacketView::Chat {
            text: flatten_chat_json(json.as_str(), lang),
            position: *position,
            json: json.clone(),
        },
        ClientboundPlayPacket::BlockChange { x, y, z, id, meta } => PacketView::BlockChange {
            x: *x,
            y: *y,
            z: *z,
            id: *id,
            meta: *meta,
        },
        ClientboundPlayPacket::SpawnMob { entity_id, kind, x, y, z, .. } => PacketView::SpawnMob {
            id: *entity_id,
            kind: *kind,
            x: *x,
            y: *y,
            z: *z,
        },
        ClientboundPlayPacket::SpawnPlayer { entity_id, x, y, z, .. } => PacketView::SpawnPlayer {
            id: *entity_id,
            x: *x,
            y: *y,
            z: *z,
        },
        ClientboundPlayPacket::DestroyEntities { entity_ids } => PacketView::DestroyEntities {
            ids: copy_ids(entity_ids),
        },
        ClientboundPlayPacket::UpdateHealth { health, food, .. } => PacketView::UpdateHealth {
            health: *health,
            food: *food,
        },
        ClientboundPlayPacket::SoundEffect { name, x, y, z, volume, pitch } => {
            PacketView::SoundEffect {
                name: name.clone(),
                x: *x,
                y: *y,
                z: *z,
                volume: *volume,
                pitch: *pitch,
            }
        },
        other => PacketView::Other { ty: clientbound_type(other), raw_id: 0 },
    }
}

/// The events of the first `n` blocks of a change of many.
pub open spec fn change_events(
    chunk_x: int,
    chunk_z: int,
    changes: Seq<BlockChangeRecord>,
    n: int,
) -> Seq<ExtEvent>
    decreases n,
{
    if n <= 0 {
        Seq::empty()
    } else {
        let rec = changes[n - 1];
        change_events(chunk_x, chunk_z, changes, n - 1).push(
            ExtEvent::BlockChange {
                x: (chunk_x * 16 + rec.x) as i32,
                y: rec.y as i32,
                z: (chunk_z * 16 + rec.z) as i32,
                id: rec.id,
                meta: rec.meta,
            },
        )
    }
}

/// The events of the first `n` entities that go.
pub open spec fn removal_events(ids: Seq<i32>, n: int) -> Seq<ExtEvent>
    decreases n,
{
    if n <= 0 {
        Seq::empty()
    } else {
        removal_events(ids, n - 1).push(ExtEvent::EntityRemove { id: ids[n - 1] })
    }
}

/// Whether events are those that a packet from the server makes.
pub open spec fn are_events_of(
    events: Seq<ExtEvent>,
    p: ClientboundPlayPacket,
    lang: Language,
) -> bool {
    match p {
        ClientboundPlayPacket::ChatMessage { json, position } => {
            &&& events.len() == 1
            &&& events[0] matches ExtEvent::Chat { text, position: at, json: raw }
            &&& text@ == flat_message(json@, lang)
            &&& at == position
            &&& raw == json
        },
        ClientboundPlayPacket::BlockChange { x, y, z, id, meta } => events
            == seq![ExtEvent::BlockChange { x, y, z, id, meta }],
        ClientboundPlayPacket::MultiBlockChange { chunk_x, chunk_z, changes } => events
            == change_events(chunk_x as int, chunk_z as int, changes@, changes@.len() as int),
        ClientboundPlayPacket::SpawnPlayer { entity_id, x, y, z, .. } => events
            == seq![ExtEvent::EntitySpawn { id: entity_id, kind: EntityKindView::Player, x, y, z }],
        ClientboundPlayPacket::SpawnMob { entity_id, kind, x, y, z, .. } => events
            == seq![
            ExtEvent::EntitySpawn { id: entity_id, kind: EntityKindView::Mob(kind), x, y, z },
        ],
        ClientboundPlayPacket::SpawnObject { entity_id, kind, x, y, z, .. } => events
            == seq![
            ExtEvent::EntitySpawn {
                id: entity_id,
                kind: EntityKindView::Object(kind as u8),
                x,
                y,
                z,
            },
        ],
        ClientboundPlayPacket::SpawnExperienceOrb { entity_id, x, y, z, .. } => events
            == seq![
            ExtEvent::EntitySpawn { id: entity_id, kind: EntityKindView::ExperienceOrb, x, y, z },
        ],
        ClientboundPlayPacket::DestroyEntities { entity_ids } => events == removal_events(
            entity_ids@,
            entity_ids@.len() as int,
        ),
        ClientboundPlayPacket::UpdateHealth { health, food, .. } => events
            == seq![ExtEvent::PlayerHealth { health, food }],
        _ => events == Seq::<ExtEvent>::empty(),
    }
}

/// Whether the block positions of a packet are in range.
pub open spec fn changes_fit(p: ClientboundPlayPacket) -> bool {
    match p {
        ClientboundPlayPacket::MultiBlockChange { chunk_x, chunk_z, changes } => records_fit(
            chunk_x as int,
            chunk_z as int,
            changes@,
        ),
        _ => true,
    }
}

fn change_list(chunk_x: i32, chunk_z: i32, changes: &Vec<BlockChangeRecord>) -> (events: Vec<
    ExtEvent,
>)
    requires
        records_fit(chunk_x as int, chunk_z as int, changes@),
    ensures
        events@ == change_events(
            chunk_x as int,
            chunk_z as int,
            changes@,
            changes@.len() as int,
        ),
{
    let mut events: Vec<ExtEvent> = Vec::new();
    let mut i: usize = 0;
    while i < changes.len()
        invariant
            i <= changes@.len(),
            records_fit(chunk_x as int, chunk_z as int, changes@),
            events@ == change_events(chunk_x as int, chunk_z as int, changes@, i as int),
        decreases changes@.len() - i,
    {
        let rec = changes[i];
        assert(record_fits(chunk_x as int, chunk_z as int, changes@[i as int]));
        events.push(
            ExtEvent::BlockChange {
                x: chunk_x * 16 + rec.x as i32,
                y: rec.y as i32,
                z: chunk_z * 16 + rec.z as i32,
                id: rec.id,
                meta: rec.meta,
            },
        );
        i += 1;
    }
    events
}

fn removal_list(ids: &Vec<i32>) -> (events: Vec<ExtEvent>)
    ensures
        events@ == removal_events(ids@, ids@.len() as int),
{
    let mut events: Vec<ExtEvent> = Vec::new();
    let mut i: usize = 0;
    while i < ids.len()
        invariant
            i <= ids@.len(),
            events@ == removal_events(ids@, i as int),
        decreases ids@.len() - i,
    {
        events.push(ExtEvent::EntityRemove { id: ids[i] });
        i += 1;
    }
    events
}

fn single(event: ExtEvent) -> (events: Vec<ExtEvent>)
    ensures
        events@ == seq![event],
{
    let mut events: Vec<ExtEvent> = Vec::new();
    events.push(event);
    events
}

/// The events that a packet from the server makes.
pub fn derive_events(p: &ClientboundPlayPacket, lang: &Language) -> (events: Vec<ExtEvent>)
    requires
        changes_fit(*p),
    ensures
        are_events_of(events@, *p, *lang),
{
    match p {
        ClientboundPlayPacket::ChatMessage { json, position } => single(
            ExtEvent::Chat {
                text: flatten_chat_json(json.as_str(), lang),
                position: *position,
                json: json.clone(),
            },
        ),
        ClientboundPlayPacket::BlockChange { x, y, z, id, meta } => single(
            ExtEvent::BlockChange { x: *x, y: *y, z: *z, id: *id, meta: *meta },
        ),
        ClientboundPlayPacket::MultiBlockChange { chunk_x, chunk_z, changes } => change_list(
            *chunk_x,
            *chunk_z,
            changes,
        ),
        ClientboundPlayPacket::SpawnPlayer { entity_id, x, y, z, .. } => single(
            ExtEvent::EntitySpawn {
                id: *entity_id,
                kind: EntityKindView::Player,
                x: *x,
                y: *y,
                z: *z,
            },
        ),
        ClientboundPlayPacket::SpawnMob { entity_id, kind, x, y, z, .. } => single(
            ExtEvent::EntitySpawn {
                id: *entity_id,
                kind: EntityKindView::Mob(*kind),
                x: *x,
                y: *y,
                z: *z,
            },
        ),
        ClientboundPlayPacket::SpawnObject { entity_id, kind, x, y, z, .. } => single(
            ExtEvent::EntitySpawn {
                id: *entity_id,
                kind: EntityKindView::Object(#[verifier::truncate] (*kind as u8)),
                x: *x,
                y: *y,
                z: *z,
            },
        ),
        ClientboundPlayPacket::SpawnExperienceOrb { entity_id, x, y, z, .. } => single(
            ExtEvent::EntitySpawn {
                id: *entity_id,
                kind: EntityKindView::ExperienceOrb,
                x: *x,
                y: *y,
                z: *z,
            },
        ),
        ClientboundPlayPacket::DestroyEntities { entity_ids } => removal_list(entity_ids),
        ClientboundPlayPacket::UpdateHealth { health, food, .. } => single(
            ExtEvent::PlayerHealth { health: *health, food: *food },
        ),
        _ => Vec::new(),
    }
}

// ── Packets to the server ─────────────────────────────────────────────────

/// The number of a digging status.
pub open spec fn digging_number(status: DiggingStatus) -> u8 {
    match status {
        DiggingStatus::StartDestroy => 0,
        DiggingStatus::CancelDestroy => 1,
        DiggingStatus::FinishDestroy => 2,
        DiggingStatus::DropItemStack => 3,
        DiggingStatus::DropItem => 4,
        DiggingStatus::ReleaseUseItem => 5,
    }
}

/// The digging status of a number; numbers that have none start a dig.
pub open spec fn digging_status(number: u8) -> DiggingStatus {
    if number == 1 {
        DiggingStatus::CancelDestroy
    } else if number == 2 {
        DiggingStatus::FinishDestroy
    } else if number == 3 {
        DiggingStatus::DropItemStack
    } else if number == 4 {
        DiggingStatus::DropItem
    } else if number == 5 {
        DiggingStatus::ReleaseUseItem
    } else {
        DiggingStatus::StartDestroy
    }
}

fn number_of_status(status: DiggingStatus) -> (number: u8)
    ensures
        number == digging_number(status),
{
    match status {
        DiggingStatus::StartDestroy => 0,
        DiggingStatus::CancelDestroy => 1,
        DiggingStatus::FinishDestroy => 2,
        DiggingStatus::DropItemStack => 3,
        DiggingStatus::DropItem => 4,
        DiggingStatus::ReleaseUseItem => 5,
    }
}

/// The digging status of a number.
pub fn digging_status_from_u8(status: u8) -> (digging: DiggingStatus)
    ensures
        digging == digging_status(status),
{
    match status {
        1 => DiggingStatus::CancelDestroy,
        2 => DiggingStatus::FinishDestroy,
        3 => DiggingStatus::DropItemStack,
        4 => DiggingStatus::DropItem,
        5 => DiggingStatus::ReleaseUseItem,
        _ => DiggingStatus::StartDestroy,
    }
}

/// The number of a digging status leads back to it.
pub proof fn law_digging_numbers_lead_back(status: DiggingStatus)
    ensures
        digging_status(digging_number(status)) == status,
{
}

/// The packet that an extension built.
pub open spec fn built(b: PacketBuild) -> ServerboundPacket {
    match b {
        PacketBuild::Chat(message) => ServerboundPacket::ChatMessage { message },
        PacketBuild::PlayerPosition { x, y, z, on_ground } => ServerboundPacket::PlayerPosition {
            x,
            y,
            z,
            on_ground,
        },
        PacketBuild::PlayerLook { yaw, pitch, on_ground } => ServerboundPacket::PlayerLook {
            yaw,
            pitch,
            on_ground,
        },
        PacketBuild::HeldItemChange { slot } => ServerboundPacket::HeldItemChange { slot },
        PacketBuild::SwingArm => ServerboundPacket::SwingArm,
        PacketBuild::PlayerDigging { status, x, y, z, face } => ServerboundPacket::PlayerDigging {
            status: digging_status(status),
            x,
            y,
            z,
            face,
        },
    }
}

/// The packet that an extension built.
pub fn build_to_serverbound(b: PacketBuild) -> (packet: ServerboundPacket)
    ensures
        packet == built(b),
{
    match b {
        PacketBuild::Chat(message) => ServerboundPacket::ChatMessage { message },
        PacketBuild::PlayerPosition { x, y, z, on_ground } => ServerboundPacket::PlayerPosition {
            x,
            y,
            z,
            on_ground,
        },
        PacketBuild::PlayerLook { yaw, pitch, on_ground } => ServerboundPacket::PlayerLook {
            yaw,
            pitch,
            on_ground,
        },
        PacketBuild::HeldItemChange { slot } => ServerboundPacket::HeldItemChange { slot },
        PacketBuild::SwingArm => ServerboundPacket::SwingArm,
        PacketBuild::PlayerDigging { status, x, y, z, face } => ServerboundPacket::PlayerDigging {
            status: digging_status_from_u8(status),
            x,
            y,
            z,
            face,
        },
    }
}

/// The kind of a packet to the server.
pub open spec fn type_of_serverbound(p: ServerboundPacket) -> PacketType {
    match p {
        ServerboundPacket::ChatMessage { .. } => PacketType::SbChatMessage,
        ServerboundPacket::PlayerPosition { .. } => PacketType::SbPlayerPosition,
        ServerboundPacket::PlayerLook { .. } => PacketType::SbPlayerLook,
        ServerboundPacket::PlayerPositionLook { .. } => PacketType::SbPlayerPositionLook,
        ServerboundPacket::PlayerDigging { .. } => PacketType::SbPlayerDigging,
        ServerboundPacket::PlayerBlockPlacement { .. } => PacketType::SbPlayerBlockPlacement,
        ServerboundPacket::HeldItemChange { .. } => PacketType::SbHeldItemChange,
        ServerboundPacket::SwingArm => PacketType::SbAnimation,
        ServerboundPacket::UseEntity { .. } => PacketType::SbUseEntity,
        ServerboundPacket::EntityAction { .. } => PacketType::SbEntityAction,
        ServerboundPacket::KeepAlive { .. } => PacketType::SbKeepAlive,
        _ => PacketType::ServerboundOther,
    }
}

/// The kind of a packet to the server.
pub fn serverbound_type(p: &ServerboundPacket) -> (ty: PacketType)
    ensures
        ty == type_of_serverbound(*p),
{
    match p {
        ServerboundPacket::ChatMessage { .. } => PacketType::SbChatMessage,
        ServerboundPacket::PlayerPosition { .. } => PacketType::SbPlayerPosition,
        ServerboundPacket::PlayerLook { .. } => PacketType::SbPlayerLook,
        ServerboundPacket::PlayerPositionLook { .. } => PacketType::SbPlayerPositionLook,
        ServerboundPacket::PlayerDigging { .. } => PacketType::SbPlayerDigging,
        ServerboundPacket::PlayerBlockPlacement { .. } => PacketType::SbPlayerBlockPlacement,
        ServerboundPacket::HeldItemChange { .. } => PacketType::SbHeldItemChange,
        ServerboundPacket::SwingArm => PacketType::SbAnimation,
        ServerboundPacket::UseEntity { .. } => PacketType::SbUseEntity,
        ServerboundPacket::EntityAction { .. } => PacketType::SbEntityAction,
        ServerboundPacket::KeepAlive { .. } => PacketType::SbKeepAlive,
        _ => PacketType::ServerboundOther,
    }
}

/// A packet to the server as extensions see it.
pub open spec fn view_of_serverbound(p: ServerboundPacket) -> PacketView {
    match p {
        ServerboundPacket::ChatMessage { message } => PacketView::OutChat { message },
        ServerboundPacket::PlayerPosition { x, y, z, on_ground } => PacketView::OutPlayerPosition {
            x,
            y,
            z,
            on_ground,
        },
        ServerboundPacket::PlayerPositionLook { x, y, z, on_ground, .. } => {
            PacketView::OutPlayerPosition { x, y, z, on_ground }
        },
        ServerboundPacket::PlayerDigging { status, x, y, z, face } => {
            PacketView::OutPlayerDigging { status: digging_number(status), x, y, z, face }
        },
        other => PacketView::Other { ty: type_of_serverbound(other), raw_id: 0 },
    }
}

/// A packet to the server as extensions see it.
pub fn serverbound_view(p: &ServerboundPacket) -> (v: PacketView)
    ensures
        v == view_of_serverbound(*p),
{
    match p {
        ServerboundPacket::ChatMessage { message } => PacketView::OutChat {
            message: message.clone(),
        },
        ServerboundPacket::PlayerPosition { x, y, z, on_ground } => PacketView::OutPlayerPosition {
            x: *x,
            y: *y,
            z: *z,
            on_ground: *on_ground,
        },
        ServerboundPacket::PlayerPositionLook { x, y, z, on_ground, .. } => {
            PacketView::OutPlayerPosition { x: *x, y: *y, z: *z, on_ground: *on_ground }
        },
        ServerboundPacket::PlayerDigging { status, x, y, z, face } => {
            PacketView::OutPlayerDigging {
                status: number_of_status(*status),
                x: *x,
                y: *y,
                z: *z,
                face: *face,
            }
        },
        other => PacketView::Other { ty: serverbound_type(other), raw_id: 0 },
    }
}

/// What an extension builds is seen by extensions as what was built: a chat line
/// as its text, a position as its place, and a dig with a status that exists as
/// that status.
pub proof fn law_built_packets_are_seen_as_built(b: PacketBuild)
    ensures
        match b {
            PacketBuild::Chat(message) => view_of_serverbound(built(b)) == (PacketView::OutChat {
                message,
            }),
            PacketBuild::PlayerPosition { x, y, z, on_ground } => view_of_serverbound(built(b)) == (
            PacketView::OutPlayerPosition { x, y, z, on_ground }),
            PacketBuild::PlayerDigging { status, x, y, z, face } => status <= 5
                ==> view_of_serverbound(built(b)) == (PacketView::OutPlayerDigging {
                status,
                x,
                y,
                z,
                face,
            }),
            PacketBuild::PlayerLook { .. } => view_of_serverbound(built(b)) == (
            PacketView::Other { ty: PacketType::SbPlayerLook, raw_id: 0 }),
            PacketBuild::HeldItemChange { .. } => view_of_serverbound(built(b)) == (
            PacketView::Other { ty: PacketType::SbHeldItemChange, raw_id: 0 }),
            PacketBuild::SwingArm => view_of_serverbound(built(b)) == (PacketView::Other {
                ty: PacketType::SbAnimation,
                raw_id: 0,
            }),
        },
{
}

// ── State ─────────────────────────────────────────────────────────────────

/// The entities that extensions are shown: all but the local player's own.
pub open spec fn others(ids: Seq<i32>, player_id: i32, n: int) -> Seq<i32>
    decreases n,
{
    if n <= 0 {
        Seq::empty()
    } else if ids[n - 1] == player_id {
        others(ids, player_id, n - 1)
    } else {
        others(ids, player_id, n - 1).push(ids[n - 1])
    }
}

/// The active effects from an effect's number on, in the order of the numbers.
pub open spec fn effects_from(effects: Map<u8, ActiveEffect>, from: int) -> Seq<EffectView>
    decreases 256 - from,
{
    if from < 0 || from > 255 {
        Seq::empty()
    } else {
        let rest = effects_from(effects, from + 1);
        if effects.dom().contains(from as u8) {
            let e = effects[from as u8];
            seq![EffectView { id: from as u8, amplifier: e.amplifier, duration: e.duration }] + rest
        } else {
            rest
        }
    }
}

/// The running game, for extensions to read.
pub struct GameViews<'a>(pub &'a GameState);

impl<'a> GameViews<'a> {
    /// Which of the world's entities are shown.
    pub fn entities(&self, ids: &Vec<i32>) -> (shown: Vec<i32>)
        ensures
            shown@ == others(ids@, self.0.session.player_id, ids@.len() as int),
    {
        let player_id = self.0.session.player_id;
        let mut shown: Vec<i32> = Vec::new();
        let mut i: usize = 0;
        while i < ids.len()
            invariant
                i <= ids@.len(),
                player_id == self.0.session.player_id,
                shown@ == others(ids@, player_id, i as int),
            decreases ids@.len() - i,
        {
            if ids[i] != player_id {
                shown.push(ids[i]);
            }
            i += 1;
        }
        shown
    }

    /// The time of day, in ticks within the day.
    pub fn world_time(&self) -> (t: i64)
        requires
            self.0.wf(),
        ensures
            t == self.0.clock.world_time,
            0 <= t < DAY,
    {
        self.0.world_time_ticks()
    }

    pub fn dimension(&self) -> (d: i32)
        ensures
            d == if self.0.session.has_sky_light {
                0int
            } else {
                -1
            },
    {
        self.0.dimension()
    }

    pub fn loaded_chunk_count(&self) -> (n: usize)
        ensures
            n == self.0.terrain.columns.list@.len(),
    {
        self.0.terrain.columns.list.len()
    }

    /// The stack in hand.
    pub fn held_item(&self) -> (item: Option<ItemView>)
        requires
            self.0.wf(),
        ensures
            item == place_view(self.0.windows.inventory@[36 + self.0.hands.selected_slot]),
    {
        match self.0.held_item() {
            Some(s) => Some(slot_to_item(s)),
            None => None,
        }
    }

    /// The player's places, in the order of the inventory.
    pub fn inventory(&self) -> (items: Vec<Option<ItemView>>)
        ensures
            items@ == self.0.windows.inventory@.map_values(|p: Option<SlotItem>| place_view(p)),
    {
        let places = &self.0.windows.inventory;
        let mut items: Vec<Option<ItemView>> = Vec::new();
        let mut i: usize = 0;
        while i < places.len()
            invariant
                i <= places@.len(),
                items@.len() == i,
                forall|j: int| 0 <= j < i ==> #[trigger] items@[j] == place_view(places@[j]),
            decreases places@.len() - i,
        {
            items.push(
                match &places[i] {
                    Some(s) => Some(slot_to_item(s)),
                    None => None,
                },
            );
            i += 1;
        }
        assert(items@ =~= places@.map_values(|p: Option<SlotItem>| place_view(p)));
        items
    }

    pub fn selected_slot(&self) -> (slot: i32)
        ensures
            slot == self.0.hands.selected_slot,
    {
        self.0.hands.selected_slot
    }

    pub fn capabilities(&self) -> (c: PlayerCapabilities)
        ensures
            c == self.0.motion.capabilities,
    {
        self.0.motion.capabilities
    }

    /// The active effects, in the order of their numbers.
    pub fn effects(&self) -> (effects: Vec<EffectView>)
        ensures
            effects@ == effects_from(self.0.vitals.effects@, 0),
    {
        let table = &self.0.vitals.effects;
        let mut effects: Vec<EffectView> = Vec::new();
        let mut id: u16 = 0;
        while id < 256
            invariant
                id <= 256,
                effects@ + effects_from(table@, id as int) == effects_from(table@, 0),
            decreases 256 - id,
        {
            let ghost before = effects@;
            let ghost rest = effects_from(table@, id + 1);
            if let Some(e) = table.get(&(id as u8)) {
                effects.push(
                    EffectView { id: id as u8, amplifier: e.amplifier, duration: e.duration },
                );
                assert(before + (seq![effects@.last()] + rest) =~= effects@ + rest);
            }
            id += 1;
        }
        assert(effects@ + Seq::<EffectView>::empty() =~= effects@);
        effects
    }

    /// The experience bar and the level.
    pub open spec fn spec_xp(self) -> (Real32, i32) {
        (self.0.vitals.xp_bar, self.0.vitals.xp_level)
    }

    /// This is the open window, as extensions see it.
    pub open spec fn window_seen(self, info: Option<ContainerInfo>) -> bool {
        match self.0.windows.open_container {
            Some(c) => {
                &&& info matches Some(i)
                &&& i.window_id == c.window_id
                &&& i.kind@ == kind_name(c.kind)@
                &&& i.size == c.slots@.len()
            },
            None => info is None,
        }
    }

    /// The game is joined and the player's place known.
    pub open spec fn spec_connected(self) -> bool {
        self.0.session.joined_game && self.0.session.position_synced
    }

    /// The experience bar and the level.
    pub fn xp(&self) -> (xp: (Real32, i32))
        ensures
            xp == self.spec_xp(),
    {
        (self.0.vitals.xp_bar, self.0.vitals.xp_level)
    }

    /// The open window.
    pub fn open_container(&self) -> (info: Option<ContainerInfo>)
        ensures
            self.window_seen(info),
    {
        match &self.0.windows.open_container {
            Some(c) => Some(
                ContainerInfo {
                    window_id: c.window_id as i32,
                    kind: window_kind_name(&c.kind).to_string(),
                    size: c.slots.len(),
                },
            ),
            None => None,
        }
    }

    /// Whether the game is joined and the player's place known.
    pub fn connected(&self) -> (yes: bool)
        ensures
            yes == self.spec_connected(),
    {
        self.0.can_send_movement_packets()
    }
}

} // verus!
