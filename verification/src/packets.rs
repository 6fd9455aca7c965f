//! The packets the client sends, as plain values.

use vstd::prelude::*;
use crate::item::SlotItem;

verus! {

/// A 32-bit floating-point quantity that is carried but never computed with:
/// its IEEE bit pattern.
#[derive(Debug, Clone, Copy, PartialEq, Eq, Structural)]
pub struct Real32 {
    pub bits: u32,
}

/// A 64-bit floating-point quantity that is carried but never computed with:
/// its IEEE bit pattern.
#[derive(Debug, Clone, Copy, PartialEq, Eq, Structural)]
pub struct Real64 {
    pub bits: u64,
}

/// What a digging packet reports.
#[derive(Debug, Clone, Copy, PartialEq, Eq, Structural)]
pub enum DiggingStatus {
    StartDestroy,
    CancelDestroy,
    FinishDestroy,
    DropItemStack,
    DropItem,
    ReleaseUseItem,
}

/// How an entity is used.
#[derive(Debug, Clone, Copy, PartialEq, Eq, Structural)]
pub enum UseEntityKind {
    Interact,
    Attack,
    InteractAt { x: Real32, y: Real32, z: Real32 },
}

/// The held item as a placement packet reports it.
#[derive(Debug, Clone, Copy, PartialEq, Eq, Structural)]
pub struct HeldItem {
    pub id: i16,
    pub count: u8,
    pub damage: i16,
}

/// A packet to the server.
#[allow(inconsistent_fields)]
#[derive(Debug, PartialEq, Eq)]
pub enum ServerboundPacket {
    KeepAlive { id: i32 },
    ChatMessage { message: String },
    UseEntity { target: i32, kind: UseEntityKind },
    PlayerPosition { x: Real64, y: Real64, z: Real64, on_ground: bool },
    PlayerLook { yaw: Real32, pitch: Real32, on_ground: bool },
    PlayerPositionLook {
        x: Real64,
        y: Real64,
        z: Real64,
        yaw: Real32,
        pitch: Real32,
        on_ground: bool,
    },
    PlayerDigging { status: DiggingStatus, x: i32, y: i32, z: i32, face: u8 },
    PlayerBlockPlacement {
        x: i32,
        y: i32,
        z: i32,
        face: u8,
        held_item: Option<HeldItem>,
        cursor_x: u8,
        cursor_y: u8,
        cursor_z: u8,
    },
    HeldItemChange { slot: i16 },
    SwingArm,
    EntityAction { entity: i32, action: i32, data: i32 },
    CloseWindow { window_id: u8 },
    ClickWindow {
        window_id: u8,
        slot: i16,
        button: i8,
        action_number: i16,
        mode: i8,
        clicked_item: Option<SlotItem>,
    },
    PlayerAbilities {
        invulnerable: bool,
        flying: bool,
        allow_flying: bool,
        creative: bool,
        fly_speed: Real32,
        walk_speed: Real32,
    },
    TabComplete { text: String, has_position: bool },
    PluginMessage { channel: String, data: Vec<u8> },
}

} // verus!
