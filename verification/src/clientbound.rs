//! The packets the server sends, as plain values.

use vstd::prelude::*;
use crate::item::SlotItem;
use crate::packets::{Real32, Real64};
use crate::game::title::TitleAction;

verus! {

/// One block of a change of many.
#[derive(Debug, Clone, Copy, PartialEq, Eq, Structural)]
pub struct BlockChangeRecord {
    /// Column within the chunk.
    pub x: u8,
    pub y: u8,
    pub z: u8,
    pub id: u16,
    pub meta: u8,
}

/// One chunk column of many.
#[derive(Debug)]
pub struct BulkChunkData {
    pub x: i32,
    pub z: i32,
    pub primary_bit_mask: u16,
    pub data: Vec<u8>,
}

/// A value in an entity's metadata.
#[derive(Debug)]
pub enum MetadataValue {
    Byte(i8),
    Float(Real32),
    Str(String),
    Slot(Option<SlotItem>),
    /// A value of a type that nothing reads.
    Unread,
}

/// One entry of an entity's metadata.
#[derive(Debug)]
pub struct MetadataEntry {
    pub index: u8,
    pub value: MetadataValue,
}

/// A change to an attribute.
#[derive(Debug, Clone, Copy, PartialEq, Eq)]
pub struct AttributeModifier {
    pub uuid: [u8; 16],
    pub amount: Real64,
    pub operation: i8,
}

/// An attribute of an entity.
#[derive(Debug, PartialEq, Eq)]
pub struct EntityProperty {
    pub key: String,
    pub base: Real64,
    pub modifiers: Vec<AttributeModifier>,
}

/// A packet about scoreboards and the tab list, which is kept elsewhere.
#[derive(Debug, PartialEq, Eq)]
pub enum BoardPacket {
    Objective { name: String, mode: i8, display_name: String },
    Score { name: String, objective: String, value: Option<i32> },
    Display { position: i8, objective: String },
    Teams { name: String, data: Vec<u8> },
    PlayerList { data: Vec<u8> },
    HeaderFooter { header: String, footer: String },
}

/// A packet from the server.
#[allow(inconsistent_fields)]
#[derive(Debug)]
pub enum ClientboundPlayPacket {
    KeepAlive { id: i32 },
    JoinGame { entity_id: i32, game_mode: u8, dimension: i8 },
    UpdateHealth { health: Real32, food: i32, food_saturation: Real32 },
    SetExperience { bar: Real32, level: i32 },
    Respawn { dimension: i32, game_mode: u8 },
    PlayerPositionLook {
        x: Real64,
        y: Real64,
        z: Real64,
        yaw: Real32,
        pitch: Real32,
        flags: i8,
    },
    ChunkData { x: i32, z: i32, ground_up: bool, primary_bit_mask: u16, data: Vec<u8> },
    MultiBlockChange { chunk_x: i32, chunk_z: i32, changes: Vec<BlockChangeRecord> },
    BlockChange { x: i32, y: i32, z: i32, id: u16, meta: u8 },
    SpawnParticle {
        particle_id: i32,
        x: Real32,
        y: Real32,
        z: Real32,
        offset_x: Real32,
        offset_y: Real32,
        offset_z: Real32,
        speed: Real32,
        count: i32,
        args: Vec<i32>,
    },
    ChunkBulk { sky_light_sent: bool, chunks: Vec<BulkChunkData> },
    SpawnPlayer {
        entity_id: i32,
        uuid: [u8; 16],
        x: Real64,
        y: Real64,
        z: Real64,
        yaw: Real32,
        pitch: Real32,
    },
    SpawnMob {
        entity_id: i32,
        kind: u8,
        x: Real64,
        y: Real64,
        z: Real64,
        yaw: Real32,
        pitch: Real32,
    },
    SpawnObject {
        entity_id: i32,
        kind: i8,
        x: Real64,
        y: Real64,
        z: Real64,
        yaw: Real32,
        pitch: Real32,
        data: i32,
        velocity: Option<(Real64, Real64, Real64)>,
    },
    SpawnExperienceOrb { entity_id: i32, x: Real64, y: Real64, z: Real64, count: i16 },
    EntityRelativeMove { entity_id: i32, dx: Real64, dy: Real64, dz: Real64 },
    EntityLookMove {
        entity_id: i32,
        dx: Real64,
        dy: Real64,
        dz: Real64,
        yaw: Real32,
        pitch: Real32,
    },
    EntityLook { entity_id: i32, yaw: Real32, pitch: Real32 },
    EntityTeleport {
        entity_id: i32,
        x: Real64,
        y: Real64,
        z: Real64,
        yaw: Real32,
        pitch: Real32,
    },
    EntityVelocity { entity_id: i32, vx: Real64, vy: Real64, vz: Real64 },
    EntityHeadLook { entity_id: i32, head_yaw: Real32 },
    OpenWindow { window_id: u8, inventory_type: String, title: String, slots: u8 },
    CloseWindowS { window_id: u8 },
    WindowProperty { window_id: u8, property: i16, value: i16 },
    SetSlot { window_id: i8, slot: i16, item: Option<SlotItem> },
    WindowItems { window_id: u8, items: Vec<Option<SlotItem>> },
    HeldItemChange { slot: i8 },
    DestroyEntities { entity_ids: Vec<i32> },
    PlayerAbilities {
        invulnerable: bool,
        flying: bool,
        allow_flying: bool,
        creative: bool,
        fly_speed: Real32,
        walk_speed: Real32,
    },
    EntityProperties { entity_id: i32, properties: Vec<EntityProperty> },
    EntityEffect { entity_id: i32, effect_id: i8, amplifier: i8, duration: i32 },
    RemoveEntityEffect { entity_id: i32, effect_id: i8 },
    ChatMessage { json: String, position: i8 },
    TabComplete { matches: Vec<String> },
    UpdateSign { x: i32, y: i32, z: i32, lines: Vec<String> },
    Board(BoardPacket),
    Title { action: TitleAction },
    Disconnect { reason_json: String },
    AttachEntity { entity_id: i32, vehicle_id: i32, leash: bool },
    EntityAnimation { entity_id: i32, animation: u8 },
    EntityStatus { entity_id: i32, status: i8 },
    EntityMetadata { entity_id: i32, metadata: Vec<MetadataEntry> },
    TimeUpdate { time_of_day: i64 },
    EntityEquipment { entity_id: i32, slot: i16, item: Option<SlotItem> },
    CollectItem { collected_id: i32, collector_id: i32 },
    SoundEffect { name: String, x: Real64, y: Real64, z: Real64, volume: Real32, pitch: u8 },
    /// `level` is the value in billionths, brought into range.
    ChangeGameState { reason: u8, level: u64 },
    /// `column_x` and `column_z` are the column of the position.
    SpawnGlobalEntity {
        kind: u8,
        x: Real64,
        y: Real64,
        z: Real64,
        column_x: i32,
        column_z: i32,
    },
    Effect { effect_id: i32, x: i32, y: i32, z: i32, data: i32 },
    BlockAction {
        x: i32,
        y: i32,
        z: i32,
        action_id: u8,
        action_param: u8,
        block_type: i32,
    },
    PluginMessage { channel: String, data: Vec<u8> },
    ConfirmTransaction { window_id: u8, action_number: i16 },
    Unknown { packet_id: i32 },
}

} // verus!
