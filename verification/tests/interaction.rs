//! Digging, placing, attacking, using items, sprinting and flying, tick by tick,
//! against a small world of blocks and entities.

use std::collections::BTreeMap;

use fpsmaster_app::chat::lang::Language;
use fpsmaster_app::clientbound::ClientboundPlayPacket;
use fpsmaster_app::game::demos::{columns_of_demo, LANDSCAPE_RANGE};
use fpsmaster_app::game::aim::{
    block_reach, entity_reach, pick_target, ray_cells, raycast_block, raycast_entity, BlockHit,
    EntityHit, RayCell, RayPath,
};
use fpsmaster_app::game::dispatch::{EntityKind, Order};
use fpsmaster_app::game::entities::{entity_motion, slows_attacker, EntityMotion};
use fpsmaster_app::game::mining::{
    block_break_ticks, placement_block_state, Condition, Shape,
};
use fpsmaster_app::game::player::{
    resolve_placement, Effect, InteractionTarget, Outbox, Scene, Step, TickActions,
};
use fpsmaster_app::game::rules::{
    block_hardness, BlockState, ItemUseAction,
};
use fpsmaster_app::game::state::GameState;
use fpsmaster_app::game::vitals::ActiveEffect;
use fpsmaster_app::game::worldgen::DemoKind;
use fpsmaster_app::item::SlotItem;
use fpsmaster_app::packets::{
    DiggingStatus, HeldItem, Real32, Real64, ServerboundPacket, UseEntityKind,
};

const STONE: BlockState = BlockState { id: 1, meta: 0 };
const AIR: BlockState = BlockState { id: 0, meta: 0 };

fn r64(x: f64) -> Real64 {
    Real64 { bits: x.to_bits() }
}

fn no_language() -> Language {
    Language { entries: Vec::new() }
}

/// A game in a world of a few blocks and one entity, with the eye at (0.5, 0.5, 0.5)
/// looking toward +x.
struct Sim {
    g: GameState,
    blocks: BTreeMap<(i32, i32, i32), BlockState>,
    /// Number, kind and distance of its box.
    entity: Option<(i32, EntityKind, f64)>,
    on_ground: bool,
    velocity: (f64, f64, f64),
    effects: Vec<Effect>,
}

/// How far along a ray its crossings of one axis are: the arithmetic of the host.
fn crossings(origin: f64, dir: f64, reach: f64) -> Vec<Real64> {
    let mut list = Vec::new();
    if dir != 0.0 {
        let next = if dir > 0.0 { origin.floor() + 1.0 } else { origin.floor() };
        let mut t = (next - origin) / dir;
        while t <= reach {
            list.push(r64(t));
            t += (1.0 / dir).abs();
        }
    }
    list
}

/// The first block on a ray.
fn raycast(
    blocks: &BTreeMap<(i32, i32, i32), BlockState>,
    origin: [f64; 3],
    dir: [f64; 3],
    reach: f64,
) -> Option<(RayCell, f64)> {
    let path = RayPath {
        x: crossings(origin[0], dir[0], reach),
        y: crossings(origin[1], dir[1], reach),
        z: crossings(origin[2], dir[2], reach),
        up_x: dir[0] > 0.0,
        up_y: dir[1] > 0.0,
        up_z: dir[2] > 0.0,
    };
    let start = RayCell {
        x: origin[0].floor() as i32,
        y: origin[1].floor() as i32,
        z: origin[2].floor() as i32,
        face: 1,
    };
    let cells = ray_cells(&start, &path, r64(reach));
    let at = |c: &RayCell| blocks.get(&(c.x, c.y, c.z)).copied().unwrap_or(AIR);
    let found: Vec<BlockState> = cells.iter().map(|(c, _)| at(c)).collect();
    raycast_block(&cells, &found).map(|(cell, t)| (cell, f64::from_bits(t.bits)))
}

impl Sim {
    fn looking_along_x() -> Sim {
        Sim {
            g: GameState::empty_for_server(),
            blocks: BTreeMap::new(),
            entity: None,
            on_ground: false,
            velocity: (0.0, 0.0, 0.0),
            effects: Vec::new(),
        }
    }

    fn set_block(&mut self, x: i32, y: i32, z: i32, block: BlockState) {
        self.blocks.insert((x, y, z), block);
    }

    fn block_at(&self, x: i32, y: i32, z: i32) -> BlockState {
        self.blocks.get(&(x, y, z)).copied().unwrap_or(AIR)
    }

    fn pick_target(&self) -> Option<InteractionTarget> {
        let reach = block_reach(self.g.is_creative()) as f64 / 10.0;
        let block = raycast(&self.blocks, [0.5, 0.5, 0.5], [1.0, 0.0, 0.0], reach).map(
            |(cell, distance)| BlockHit {
                cell,
                cursor_x: 0,
                cursor_y: 8,
                cursor_z: 8,
                distance: r64(distance),
            },
        );
        let zero = Real32 { bits: 0 };
        let hits: Vec<EntityHit> = self
            .entity
            .iter()
            .filter(|e| e.2 <= entity_reach(self.g.is_creative()) as f64 / 10.0)
            .map(|e| EntityHit {
                id: e.0,
                distance: r64(e.2),
                hit_x: zero,
                hit_y: zero,
                hit_z: zero,
            })
            .collect();
        pick_target(block, raycast_entity(&hits, self.g.player_entity_id()))
    }

    fn scene(&self) -> Scene {
        let target = self.pick_target();
        let (block, cell) = match target {
            Some(InteractionTarget::Block { x, y, z, .. }) => {
                // Every block here is met from the west.
                (self.block_at(x, y, z), self.block_at(x - 1, y, z))
            }
            _ => (AIR, AIR),
        };
        Scene {
            target,
            block,
            cell,
            cell_loaded: true,
            blocked: false,
            facing: 0,
            shape: Shape::Cube,
            slows: slows_attacker(self.entity.map(|e| e.1)),
            sneaking: self.g.player_sneaking(),
            condition: self.g.vitals.condition(self.on_ground),
        }
    }

    fn apply(&mut self, effects: Vec<Effect>) {
        for effect in effects {
            match effect {
                Effect::Break { x, y, z } => {
                    self.blocks.remove(&(x, y, z));
                }
                Effect::Place { x, y, z, state } => self.set_block(x, y, z, state),
                Effect::SlowDown => {
                    self.velocity.0 *= 0.6;
                    self.velocity.2 *= 0.6;
                }
                Effect::Chew { .. } => {}
            }
            self.effects.push(effect);
        }
    }

    /// Act on this tick's input.
    fn process(&mut self) -> Vec<ServerboundPacket> {
        let mut packets = Vec::new();
        let mut out = Outbox::new();
        let (a, swallowed) = self.g.process_tick_actions(&mut out);
        let mut step = self.g.hands.next_step(Step::Done, &a, swallowed);
        loop {
            packets.append(&mut out.packets);
            let effects = std::mem::take(&mut out.effects);
            self.apply(effects);
            if step == Step::Done {
                return packets;
            }
            let scene = self.scene();
            self.g.perform(step, &a, &scene, &mut out);
            step = self.g.hands.next_step(step, &a, swallowed);
        }
    }

    /// Stage `a` and act on it.
    fn act(&mut self, a: TickActions) -> Vec<ServerboundPacket> {
        self.g.set_pending_actions(a);
        self.process()
    }

    /// A left-click press (attack held).
    fn attack(&mut self) -> Vec<ServerboundPacket> {
        self.act(TickActions {
            attack_pressed: true,
            left_held: true,
            ..Default::default()
        })
    }

    /// A right-click press (use held).
    fn use_item(&mut self) -> Vec<ServerboundPacket> {
        self.act(TickActions {
            use_pressed: true,
            right_held: true,
            ..Default::default()
        })
    }

    /// A whole tick: the clock, the input, then the sprint rules before the move.
    fn tick(&mut self, collided: bool) -> Vec<ServerboundPacket> {
        let start = self.g.tick(false);
        assert!(!start.frozen, "not a freeze tick");
        let packets = self.process();
        if !self.g.ride(true) {
            self.g.tick_sprint(self.on_ground, collided);
        }
        packets
    }
}

fn item(id: i16, count: u8) -> SlotItem {
    SlotItem::new(id, count, 0)
}

fn standing() -> Condition {
    Condition { haste: None, fatigue: None, on_ground: true }
}

#[test]
fn pickaxe_mines_stone_far_faster_than_bare_hand() {
    let stone = BlockState::new(1, 0);
    // Bare hand on stone: needs a tool → divisor 100, speed 1 → 1.5·100 = 150.
    assert_eq!(block_break_ticks(&None, stone, standing()), Some(150));
    // Diamond pickaxe (eff 8), harvestable → divisor 30 → ceil(1.5·30/8) = 6.
    assert_eq!(block_break_ticks(&Some(SlotItem::new(278, 1, 0)), stone, standing()), Some(6));
    // Wooden pickaxe (eff 2) → ceil(1.5·30/2) = 23.
    assert_eq!(block_break_ticks(&Some(SlotItem::new(270, 1, 0)), stone, standing()), Some(23));
}

#[test]
fn obsidian_needs_a_diamond_pickaxe_to_harvest() {
    let obsidian = BlockState::new(49, 0); // hardness 50, harvest level 3
    // Stone pickaxe (tier 1 < 3): can't harvest → divisor 100, speed 4 → 1250.
    assert_eq!(
        block_break_ticks(&Some(SlotItem::new(274, 1, 0)), obsidian, standing()),
        Some(1250)
    );
    // Diamond pickaxe (tier 3): harvestable → divisor 30, speed 8 → ceil(187.5)=188.
    assert_eq!(
        block_break_ticks(&Some(SlotItem::new(278, 1, 0)), obsidian, standing()),
        Some(188)
    );
}

#[test]
fn haste_and_air_penalty_scale_the_dig_speed() {
    let mut gs = GameState::empty_for_server();
    let stone = BlockState::new(1, 0);
    let pickaxe = Some(SlotItem::new(278, 1, 0)); // diamond pickaxe
    assert_eq!(block_break_ticks(&pickaxe, stone, gs.vitals.condition(true)), Some(6));
    // Haste I: speed ×1.2 → ceil(1.5·30/9.6) = 5.
    gs.vitals.effects.insert(3, ActiveEffect { amplifier: 0, duration: 0 });
    assert_eq!(block_break_ticks(&pickaxe, stone, gs.vitals.condition(true)), Some(5));
    // Mining in the air divides speed by 5 (vanilla !onGround): 8/5 = 1.6 → ceil(28.125)=29.
    gs.vitals.effects.clear();
    assert_eq!(block_break_ticks(&pickaxe, stone, gs.vitals.condition(false)), Some(29));
}

#[test]
fn shovel_and_sword_have_their_own_speed_curves() {
    // Diamond shovel on dirt (hand-harvestable, hardness 0.5): eff 8, /30 → ceil(1.875)=2.
    let dirt = BlockState::new(3, 0);
    assert_eq!(block_break_ticks(&Some(SlotItem::new(277, 1, 0)), dirt, standing()), Some(2));
    // A pickaxe is NOT effective on dirt → speed 1 → ceil(0.5·30)=15.
    assert_eq!(block_break_ticks(&Some(SlotItem::new(278, 1, 0)), dirt, standing()), Some(15));
    // Sword shreds cobweb (15×); web hardness 4, hand-harvestable → ceil(4·30/15)=8.
    let web = BlockState::new(30, 0);
    assert_eq!(block_break_ticks(&Some(SlotItem::new(276, 1, 0)), web, standing()), Some(8));
}

#[test]
fn block_hardness_matches_vanilla_across_the_tiers() {
    // Spot-check the full 1.8.9 hardness table (copied from minecraft-data)
    // against known vanilla values, one per tier, to guard the big match.
    for (id, expected) in [
        (49u16, 50.0f32), // obsidian
        (130, 22.5),      // ender chest
        (52, 5.0),        // mob spawner
        (30, 4.0),        // cobweb
        (61, 3.5),        // furnace
        (14, 3.0),        // coal ore
        (54, 2.5),        // chest
        (4, 2.0),         // cobblestone
        (1, 1.5),         // stone
        (159, 1.25),      // stained hardened clay
        (63, 1.0),        // standing sign
        (35, 0.8),        // wool
        (97, 0.75),       // monster egg
        (27, 0.7),        // golden rail
        (2, 0.6),         // grass
        (3, 0.5),         // dirt
        (87, 0.4),        // netherrack
        (20, 0.3),        // glass
        (18, 0.2),        // leaves
        (171, 0.1),       // carpet
        (31, 0.0),        // tall grass (instant)
        (46, 0.0),        // tnt (instant)
    ] {
        // Hardness is kept in hundredths.
        let hardness = block_hardness(id) as f32 / 100.0;
        assert!(
            (hardness - expected).abs() < 1e-4,
            "block {id} hardness {hardness} != vanilla {expected}"
        );
    }
    // Unbreakable tier is negative (bedrock, fluids, portals, command block).
    for id in [7u16, 8, 9, 10, 11, 90, 119, 120, 137, 166] {
        assert!(block_hardness(id) < 0, "block {id} should be unbreakable");
    }
    // Every in-range id resolves; none accidentally hits a wrong sign.
    for id in 1..=197u16 {
        let h = block_hardness(id);
        assert!(h >= -100, "block {id} hardness out of range: {h}");
    }
}

#[test]
fn eating_plays_chew_sound_every_four_ticks_from_tick_eight() {
    let mut s = Sim::looking_along_x();
    s.g.windows.inventory[36] = Some(item(297, 1)); // bread (EAT) in hotbar slot 0
    // Right-click in air starts the use (sendUseItem sets use_action = Eat).
    s.use_item();
    s.effects.clear(); // drop any press-tick sounds
    let mut eat_ticks = Vec::new();
    for _ in 0..30 {
        s.act(TickActions {
            right_held: true,
            ..Default::default()
        });
        if s.effects.iter().any(|e| matches!(e, Effect::Chew { drink: false, .. })) {
            eat_ticks.push(s.g.hands.use_item_ticks);
        }
        s.effects.clear();
    }
    // Vanilla itemInUseCount <= 25 && % 4 == 0, counting down from 32.
    assert_eq!(eat_ticks, vec![8, 12, 16, 20, 24, 28]);
}

#[test]
fn raycast_block_hits_first_block_and_face() {
    let mut blocks = BTreeMap::new();
    blocks.insert((3, 0, 0), STONE);
    let (cell, distance) = raycast(&blocks, [0.0, 0.0, 0.0], [1.0, 0.0, 0.0], 4.5)
        .expect("ray should hit the block");
    assert_eq!((cell.x, cell.y, cell.z), (3, 0, 0));
    assert_eq!(cell.face, 4, "entered the west face moving +x");
    assert!((distance - 3.0).abs() < 1e-9);
}

#[test]
fn raycast_block_respects_reach() {
    let mut blocks = BTreeMap::new();
    blocks.insert((10, 0, 0), STONE);
    assert!(
        raycast(&blocks, [0.0, 0.0, 0.0], [1.0, 0.0, 0.0], 4.5).is_none(),
        "block beyond reach must not be targeted"
    );
}

#[test]
fn rays_pass_from_cell_to_cell() {
    // Across x first, then z, then x: each with the face it comes through.
    let path = RayPath {
        x: vec![r64(0.5), r64(2.5), r64(4.5)],
        y: Vec::new(),
        z: vec![r64(1.0)],
        up_x: true,
        up_y: false,
        up_z: false,
    };
    let start = RayCell { x: 0, y: 64, z: 0, face: 1 };
    let cells = ray_cells(&start, &path, r64(4.0));
    let places: Vec<(i32, i32, i32, u8)> =
        cells.iter().map(|(c, _)| (c.x, c.y, c.z, c.face)).collect();
    assert_eq!(places, vec![(0, 64, 0, 1), (1, 64, 0, 4), (1, 64, -1, 3), (2, 64, -1, 4)]);
    let distances: Vec<f64> = cells.iter().map(|(_, t)| f64::from_bits(t.bits)).collect();
    assert_eq!(distances, vec![0.0, 0.5, 1.0, 2.5]);
    // Water is looked through; the first solid block counts.
    let water = BlockState { id: 9, meta: 0 };
    let hit = raycast_block(&cells, &vec![AIR, water, STONE, STONE]);
    assert_eq!(hit.map(|(c, _)| (c.x, c.z)), Some((1, -1)));
    assert_eq!(raycast_block(&cells, &vec![AIR, water, AIR, AIR]), None);
}

#[test]
fn hitting_an_item_does_not_slow_down() {
    assert!(!slows_attacker(Some(EntityKind::Object(2))));
    assert!(slows_attacker(Some(EntityKind::Object(10))));
    assert!(slows_attacker(Some(EntityKind::RemotePlayer)));
    // What comes of a hit on a mob the server alone decides.
    assert!(!slows_attacker(Some(EntityKind::Mob(54))));
}

#[test]
fn the_player_holds_still_for_one_tick_after_a_teleport() {
    let mut g = GameState::empty_for_server();
    assert!(!g.tick(false).frozen);
    let place = || ClientboundPlayPacket::PlayerPositionLook {
        x: r64(1.0),
        y: r64(64.0),
        z: r64(1.0),
        yaw: Real32 { bits: 0 },
        pitch: Real32 { bits: 0 },
        flags: 0,
    };
    g.apply_play_packet(place(), &no_language(), 0);
    g.apply_play_packet(ClientboundPlayPacket::KeepAlive { id: 1 }, &no_language(), 0);
    g.tick_sprint(true, false);
    g.land(true);
    assert!(g.tick(false).frozen);
    assert!(!g.tick(false).frozen);
    // Twice placed, the player holds still once.
    g.apply_play_packet(place(), &no_language(), 0);
    g.apply_play_packet(place(), &no_language(), 0);
    assert!(g.tick(false).frozen);
    assert!(!g.tick(false).frozen);
}

#[test]
fn sword_right_click_air_starts_and_releases_blocking() {
    let mut gs = Sim::looking_along_x();
    // Diamond sword in the selected hotbar slot, aiming at empty air.
    gs.g.windows.inventory[36] = Some(SlotItem::new(276, 1, 0));
    // Vanilla `sendUseItem`: C08 with the in-air position (-1,-1,-1)/face 255.
    let start = gs.use_item();
    assert!(
        matches!(
            start.as_slice(),
            [ServerboundPacket::PlayerBlockPlacement {
                x: -1,
                y: -1,
                z: -1,
                face: 255,
                ..
            }]
        ),
        "got {start:?}"
    );
    assert_eq!(gs.g.hands.use_action, ItemUseAction::Block);
    // Holding keeps the item in use without re-sending anything.
    assert!(gs
        .act(TickActions {
            right_held: true,
            ..Default::default()
        })
        .is_empty());
    assert_eq!(gs.g.hands.use_action, ItemUseAction::Block);
    // Releasing sends C07 RELEASE_USE_ITEM and clears the state.
    let stop = gs.act(TickActions::default());
    assert!(
        matches!(
            stop.as_slice(),
            [ServerboundPacket::PlayerDigging {
                status: DiggingStatus::ReleaseUseItem,
                ..
            }]
        ),
        "got {stop:?}"
    );
    assert_eq!(gs.g.hands.use_action, ItemUseAction::Nothing);
}

#[test]
fn attack_while_blocking_swings_only_with_old_animations() {
    // Enter the sword block, aiming at air.
    let mut gs = Sim::looking_along_x();
    gs.g.windows.inventory[36] = Some(SlotItem::new(276, 1, 0));
    gs.use_item();
    assert_eq!(gs.g.hands.use_action, ItemUseAction::Block);

    // 1.8 default: a left-click while blocking is swallowed — no swing.
    let p = gs.act(TickActions {
        attack_pressed: true,
        left_held: true,
        right_held: true,
        old_animations: false,
        ..Default::default()
    });
    assert!(
        !p.iter().any(|x| matches!(x, ServerboundPacket::SwingArm)),
        "1.8 must not swing while blocking, got {p:?}"
    );
    assert!(!gs.g.hands.is_swinging);
    assert_eq!(gs.g.hands.use_action, ItemUseAction::Block, "still blocking");

    // 1.7 (old_animations) is ANIMATION-ONLY: the same left-click starts the
    // local arm swing (for the "swing + block" visual) but sends NO packet —
    // the network stays vanilla 1.8 (block-hitting removed), so Grim still
    // sees a plain block. No SwingArm/UseEntity/PlayerDigging goes out.
    let p = gs.act(TickActions {
        attack_pressed: true,
        left_held: true,
        right_held: true,
        old_animations: true,
        ..Default::default()
    });
    assert!(
        p.is_empty(),
        "old_animations must not send any packet while blocking, got {p:?}"
    );
    assert!(gs.g.hands.is_swinging, "but the local swing animation starts");
    assert_eq!(gs.g.hands.use_action, ItemUseAction::Block, "block is not released");
}

#[test]
fn non_sword_right_click_air_sends_use_but_does_not_block() {
    let mut gs = Sim::looking_along_x();
    gs.g.windows.inventory[36] = Some(SlotItem::new(1, 1, 0));
    // Vanilla sendUseItem fires for any held item (the "right-click air"
    // C08), but only usable items enter the use state.
    let packets = gs.use_item();
    assert!(
        matches!(
            packets.as_slice(),
            [ServerboundPacket::PlayerBlockPlacement { x: -1, face: 255, .. }]
        ),
        "got {packets:?}"
    );
    assert_eq!(gs.g.hands.use_action, ItemUseAction::Nothing);
}

#[test]
fn blocking_cancels_sprint_through_the_tick() {
    let mut gs = Sim::looking_along_x();
    gs.on_ground = true;
    gs.g.hands.sprinting = true;
    gs.g.input.sprint = true;
    gs.g.input.forward = true;
    // Hold a sword and keep blocking (right held) so the tick keeps the
    // item in use and slows movement below the sprint threshold.
    gs.g.windows.inventory[36] = Some(SlotItem::new(276, 1, 0));
    gs.g.hands.use_action = ItemUseAction::Block;
    gs.g.set_pending_actions(TickActions {
        right_held: true,
        ..Default::default()
    });
    gs.tick(false);
    assert_eq!(gs.g.hands.use_action, ItemUseAction::Block);
    assert!(!gs.g.player_sprinting(), "blocking drops sprint within the tick");
}

#[test]
fn sprint_key_with_forward_starts_and_releasing_forward_stops() {
    let mut gs = Sim::looking_along_x();
    gs.on_ground = true;
    gs.g.input.forward = true;
    gs.g.input.sprint = true; // toggle = keyBindSprint.isKeyDown()
    gs.tick(false);
    assert!(gs.g.player_sprinting(), "sprint key + forward starts sprinting");
    // Release forward: moveForward drops below 0.8 → stop.
    gs.g.input.forward = false;
    gs.tick(false);
    assert!(!gs.g.player_sprinting(), "releasing forward stops the sprint");
}

#[test]
fn wall_collision_ends_the_tick_not_sprinting() {
    let mut gs = Sim::looking_along_x();
    gs.on_ground = true;
    gs.g.input.forward = true;
    gs.g.input.sprint = true;
    // Vanilla starts (no collision check) then stops (collidedHorizontally)
    // in the same onLivingUpdate, so it never flickers on in the report.
    gs.tick(true);
    assert!(!gs.g.player_sprinting(), "pressing into a wall reports not-sprinting");
}

#[test]
fn double_tap_forward_starts_sprint_without_the_sprint_key() {
    let mut gs = Sim::looking_along_x();
    gs.on_ground = true;
    gs.g.input.sprint = false; // no sprint key — only the double-tap can start
    // First fresh forward press: arms the 7-tick window, no sprint yet.
    gs.g.input.forward = true;
    gs.tick(false);
    assert!(!gs.g.player_sprinting(), "first tap only arms sprintToggleTimer");
    // Release, then re-press within the window → sprint starts.
    gs.g.input.forward = false;
    gs.tick(false);
    gs.g.input.forward = true;
    gs.tick(false);
    assert!(gs.g.player_sprinting(), "a second tap within 7 ticks starts the sprint");
}

#[test]
fn sprint_attack_on_a_player_resets_sprint_and_halves_horizontal_motion() {
    // Hitting another PLAYER slows: EntityOtherPlayerMP.attackEntityFrom
    // returns true on the client, so the sprint hit lands.
    let mut gs = Sim::looking_along_x();
    gs.entity = Some((1, EntityKind::RemotePlayer, 1.1));
    gs.g.hands.sprinting = true;
    gs.velocity = (1.0, 0.0, 2.0);
    let _ = gs.attack();
    assert!(!gs.g.hands.sprinting, "a sprint hit on a player cancels the sprint");
    assert!((gs.velocity.0 - 0.6).abs() < 1e-9);
    assert!((gs.velocity.2 - 1.2).abs() < 1e-9);
}

#[test]
fn sprint_attack_on_a_mob_does_not_slow_or_cancel_sprint() {
    // Hitting a living mob does NOT slow on the client: EntityLivingBase's
    // attackEntityFrom short-circuits to false under `worldObj.isRemote`, so
    // motion and the sprint flag are untouched (Grim expects no attack-slow
    // here — applying one trips Simulation).
    let mut gs = Sim::looking_along_x();
    gs.entity = Some((1, EntityKind::Mob(54), 1.1));
    gs.g.hands.sprinting = true;
    gs.velocity = (1.0, 0.0, 2.0);
    let _ = gs.attack();
    assert!(gs.g.hands.sprinting, "a mob hit must NOT cancel the sprint");
    assert_eq!(
        gs.velocity,
        (1.0, 0.0, 2.0),
        "a mob hit must NOT halve horizontal motion"
    );
}

#[test]
fn sprint_attack_reenables_sprint_same_tick_when_holding_forward() {
    // Vanilla: a sprint-hit cancels sprint inside clickMouse, but the SAME
    // tick's onLivingUpdate re-enables it while W + the sprint key are held,
    // so isSprinting() is still true at onUpdateWalkingPlayer — no
    // StopSprinting is sent (the ×0.6 momentum is the only server-visible
    // effect).
    let mut gs = Sim::looking_along_x();
    gs.on_ground = true;
    gs.g.hands.sprinting = true;
    gs.g.input.sprint = true; // toggle stands in for keyBindSprint.isKeyDown()
    gs.g.input.forward = true;
    // A PLAYER target; attacking a player actually cancels sprint, so the
    // re-enable is tested.
    gs.entity = Some((1, EntityKind::RemotePlayer, 1.1));
    gs.g.set_pending_actions(TickActions {
        attack_pressed: true,
        left_held: true,
        ..Default::default()
    });
    let packets = gs.tick(false);
    assert!(
        packets.iter().any(|p| matches!(
            p,
            ServerboundPacket::UseEntity {
                target: 1,
                kind: UseEntityKind::Attack
            }
        )),
        "the attack must land for this test to be meaningful: {packets:?}"
    );
    assert!(
        gs.g.player_sprinting(),
        "sprint must re-enable the same tick so no StopSprinting is sent"
    );
}

#[test]
fn attack_entity_swings_then_sends_use_entity() {
    let mut gs = Sim::looking_along_x();
    gs.entity = Some((1, EntityKind::Mob(54), 1.1));
    let packets = gs.attack();
    // Vanilla `clickMouse`: swingItem (C0A) precedes attackEntity (C02).
    assert!(
        matches!(
            packets.as_slice(),
            [
                ServerboundPacket::SwingArm,
                ServerboundPacket::UseEntity {
                    target: 1,
                    kind: UseEntityKind::Attack
                },
            ]
        ),
        "got {packets:?}"
    );
}

#[test]
fn survival_dig_starts_on_press_and_finishes_after_holding() {
    let mut gs = Sim::looking_along_x();
    gs.on_ground = true; // standing: no vanilla in-air dig penalty
    gs.set_block(3, 0, 0, STONE);
    // Vanilla press tick: clickMouse swings + sends START, then
    // sendClickBlockToController advances the dig and swings again (two C0A).
    let packets = gs.attack();
    assert!(
        matches!(
            packets.as_slice(),
            [
                ServerboundPacket::SwingArm,
                ServerboundPacket::PlayerDigging {
                    status: DiggingStatus::StartDestroy,
                    x: 3,
                    ..
                },
                ServerboundPacket::SwingArm,
            ]
        ),
        "got {packets:?}"
    );
    assert!(gs.g.hands.breaking.is_some(), "dig should be in progress");
    // Holding for enough ticks finishes the dig with FinishDestroy.
    let mut finished = false;
    for _ in 0..400 {
        if gs.block_at(3, 0, 0).is_air() {
            break;
        }
        for packet in gs.act(TickActions {
            left_held: true,
            ..Default::default()
        }) {
            if matches!(
                packet,
                ServerboundPacket::PlayerDigging {
                    status: DiggingStatus::FinishDestroy,
                    x: 3,
                    ..
                }
            ) {
                finished = true;
            }
        }
    }
    assert!(finished, "holding should eventually send FinishDestroy");
    assert!(
        gs.g.hands.breaking.is_none(),
        "dig should be cleared after finishing"
    );
}

#[test]
fn use_block_sends_block_placement() {
    let mut gs = Sim::looking_along_x();
    gs.set_block(3, 0, 0, STONE);
    // Empty hand: vanilla sends the C08 to trigger onBlockActivated but does
    // NOT swing (onPlayerRightClick returns false with no item).
    let packets = gs.use_item();
    assert!(
        matches!(
            packets.as_slice(),
            [ServerboundPacket::PlayerBlockPlacement { x: 3, face: 4, .. }]
        ),
        "got {packets:?}"
    );
}

#[test]
fn use_block_predicts_placement_and_sends_held_item() {
    let mut gs = Sim::looking_along_x();
    gs.set_block(3, 0, 0, STONE);
    gs.g.hands.selected_slot = 0;
    gs.g.windows.inventory[36] = Some(SlotItem::new(1, 64, 0)); // stone in hotbar slot 0
    assert!(gs.block_at(2, 0, 0).is_air());

    let packets = gs.use_item();

    // The block shows immediately at the adjacent cell, without a server echo.
    assert_eq!(gs.block_at(2, 0, 0), BlockState::new(1, 0));
    // C08 now carries the held stack rather than an empty slot.
    assert!(
        matches!(
            packets.first(),
            Some(ServerboundPacket::PlayerBlockPlacement {
                held_item: Some(HeldItem { id: 1, .. }),
                ..
            })
        ),
        "got {packets:?}"
    );
}

#[test]
fn server_cancel_reverts_a_predicted_placement() {
    let mut gs = Sim::looking_along_x();
    gs.set_block(3, 0, 0, STONE);
    gs.g.apply_chunk_column(0, 0, true, &vec![0]);
    gs.g.hands.selected_slot = 0;
    gs.g.windows.inventory[36] = Some(SlotItem::new(1, 64, 0));
    let _ = gs.use_item();
    assert_eq!(
        gs.block_at(2, 0, 0),
        BlockState::new(1, 0),
        "placement is predicted locally"
    );

    // The server rejects the placement and sends the original (air) back. The
    // prediction never locks the cell, so this authoritative update wins.
    let packet = ClientboundPlayPacket::BlockChange {
        x: 2,
        y: 0,
        z: 0,
        id: 0,
        meta: 0,
    };
    let done = gs.g.apply_play_packet(packet, &no_language(), 0);
    for order in &done.orders {
        if let Order::SetBlock { edit } = order {
            gs.set_block(edit.x, edit.y, edit.z, edit.state);
        }
    }
    assert!(
        gs.block_at(2, 0, 0).is_air(),
        "a server cancel must revert the phantom block"
    );
    assert!(done.remesh, "the revert should re-mesh the chunk");
}

#[test]
fn use_block_on_interactable_does_not_predict() {
    let mut gs = Sim::looking_along_x();
    gs.set_block(3, 0, 0, BlockState::new(54, 2)); // chest
    gs.g.hands.selected_slot = 0;
    gs.g.windows.inventory[36] = Some(SlotItem::new(1, 64, 0));
    let _ = gs.use_item();
    assert!(
        gs.block_at(2, 0, 0).is_air(),
        "right-clicking a chest must not conjure a phantom block in front of it"
    );
}

/// A click on the top of a floor block; `blocked` says whether the player stands there.
fn on_the_floor(blocked: bool) -> Scene {
    Scene {
        target: None,
        block: STONE,
        cell: AIR,
        cell_loaded: true,
        blocked,
        facing: 0,
        shape: Shape::Cube,
        slows: false,
        sneaking: false,
        condition: standing(),
    }
}

#[test]
fn cannot_place_a_block_inside_the_player() {
    let stone = SlotItem::new(1, 64, 0);
    // Standing on the floor (feet at y=1): clicking its top face would land a
    // block at our feet — its 0.6×1.8 box covers cell (0,1,0).
    assert!(
        resolve_placement(&stone, 0, 0, 0, 1, 8, &on_the_floor(true)).is_none(),
        "must not place a block where the player is standing"
    );
    // Jump clear (feet at y=2) and the cell frees up — placement now predicts.
    assert_eq!(
        resolve_placement(&stone, 0, 0, 0, 1, 8, &on_the_floor(false)),
        Some(Effect::Place { x: 0, y: 1, z: 0, state: BlockState::new(1, 0) })
    );
}

#[test]
fn placement_block_state_orients_common_blocks() {
    let stone = SlotItem::new(1, 1, 0);
    assert_eq!(
        placement_block_state(&stone, 1, 0, 8, Shape::Cube),
        Some(BlockState::new(1, 0))
    );
    // Slab on top of a block → bottom half; on the underside → top half.
    let slab = SlotItem::new(44, 1, 0);
    assert_eq!(
        placement_block_state(&slab, 1, 0, 8, Shape::Cube),
        Some(BlockState::new(44, 0))
    );
    assert_eq!(
        placement_block_state(&slab, 0, 0, 8, Shape::Cube),
        Some(BlockState::new(44, 8))
    );
    // Log placed against an x-facing face → x axis (meta bit 4).
    let log = SlotItem::new(17, 1, 0);
    assert_eq!(
        placement_block_state(&log, 4, 0, 8, Shape::Cube),
        Some(BlockState::new(17, 4))
    );
    // Non-block items and oriented blocks we don't model are not predicted.
    let pickaxe = SlotItem::new(278, 1, 0);
    assert!(placement_block_state(&pickaxe, 1, 0, 8, Shape::Cube).is_none());
    let torch = SlotItem::new(50, 1, 0);
    assert!(placement_block_state(&torch, 1, 0, 8, Shape::Oriented).is_none());
}

/// A game in the landscape demo, on a plain.
fn landscape() -> GameState {
    let heights = vec![70; columns_of_demo(LANDSCAPE_RANGE)];
    GameState::demo(DemoKind::Landscape, &heights).0
}

#[test]
fn double_tap_jump_toggles_flight_and_queues_echo() {
    let mut gs = landscape(); // demo grants allow_flying
    // Press, release, press again within the 7-tick window.
    gs.input.jump = true;
    gs.tick(false);
    gs.input.jump = false;
    gs.tick(false);
    gs.input.jump = true;
    gs.tick(false);
    assert!(gs.capabilities().flying, "double-tap should enable flight");
    let packet = gs.take_abilities_packet().expect("C13 echo queued");
    assert!(matches!(
        packet,
        ServerboundPacket::PlayerAbilities { flying: true, .. }
    ));
    assert!(gs.take_abilities_packet().is_none(), "echo consumed once");
}

#[test]
fn slow_taps_do_not_toggle_flight() {
    let mut gs = landscape();
    gs.input.jump = true;
    gs.tick(false);
    gs.input.jump = false;
    for _ in 0..8 {
        gs.tick(false); // let the 7-tick window lapse
    }
    gs.input.jump = true;
    gs.tick(false);
    assert!(!gs.capabilities().flying, "slow second tap must not toggle");
    assert!(gs.take_abilities_packet().is_none());
}

#[test]
fn touching_ground_disables_flight() {
    let mut gs = landscape();
    gs.motion.capabilities.flying = true;
    gs.tick(false);
    gs.land(true); // resting on the floor
    assert!(!gs.capabilities().flying, "landing must stop flight");
    assert!(matches!(
        gs.take_abilities_packet(),
        Some(ServerboundPacket::PlayerAbilities { flying: false, .. })
    ));
}

#[test]
fn continuous_swinging_cycles_instead_of_pinning_at_the_start() {
    let mut gs = landscape();
    // Swinging every tick (hold-to-mine) must advance through the vanilla
    // half-cycle (restart allowed past the midpoint), not reset to zero
    // every tick.
    let mut max_progress: f32 = 0.0;
    let mut distinct = std::collections::BTreeSet::new();
    for _ in 0..12 {
        gs.swing_arm();
        gs.tick(false);
        let p = gs.hands.swing_progress_int as f32 / 6.0;
        max_progress = max_progress.max(p);
        distinct.insert((p * 1000.0) as i32);
    }
    assert!(
        (0.5..=1.0).contains(&max_progress),
        "swing never progressed: {max_progress}"
    );
    assert!(distinct.len() >= 3, "swing progress never animated");
}

#[test]
fn nearer_entity_beats_block() {
    let mut gs = Sim::looking_along_x();
    gs.set_block(5, 0, 0, STONE);
    gs.entity = Some((7, EntityKind::Mob(54), 1.1));
    assert!(matches!(
        gs.pick_target(),
        Some(InteractionTarget::Entity { id: 7, .. })
    ));
}

#[test]
fn a_block_in_front_hides_the_entity() {
    let mut gs = Sim::looking_along_x();
    gs.set_block(1, 0, 0, STONE);
    gs.entity = Some((7, EntityKind::Mob(54), 1.1));
    assert!(matches!(
        gs.pick_target(),
        Some(InteractionTarget::Block { x: 1, face: 4, .. })
    ));
}

#[test]
fn the_player_never_hits_itself() {
    let zero = Real32 { bits: 0 };
    let hits = vec![
        EntityHit { id: 3, distance: r64(0.0), hit_x: zero, hit_y: zero, hit_z: zero },
        EntityHit { id: 4, distance: r64(2.0), hit_x: zero, hit_y: zero, hit_z: zero },
        EntityHit { id: 5, distance: r64(1.0), hit_x: zero, hit_y: zero, hit_z: zero },
    ];
    assert_eq!(raycast_entity(&hits, 3).map(|h| h.id), Some(5));
}

#[test]
fn reach_is_longer_in_creative() {
    assert_eq!((block_reach(false), block_reach(true)), (45, 50));
    assert_eq!((entity_reach(false), entity_reach(true)), (30, 60));
}

#[test]
fn unbreakable_blocks_take_forever_and_soft_ones_no_time() {
    assert_eq!(block_break_ticks(&None, BlockState::new(7, 0), standing()), None);
    assert_eq!(block_break_ticks(&None, BlockState::new(31, 0), standing()), Some(1));
}

#[test]
fn creative_breaks_at_once() {
    let mut gs = Sim::looking_along_x();
    gs.g.hands.creative = true;
    gs.set_block(3, 0, 0, STONE);
    gs.attack();
    assert!(gs.block_at(3, 0, 0).is_air());
    assert!(gs.g.hands.breaking.is_none());
}

#[test]
fn letting_go_cancels_the_dig() {
    let mut gs = Sim::looking_along_x();
    gs.on_ground = true;
    gs.set_block(3, 0, 0, STONE);
    gs.attack();
    assert_eq!(gs.g.breaking_overlay().map(|c| (c.0, c.1, c.2)), Some((3, 0, 0)));
    let packets = gs.act(TickActions::default());
    assert!(packets.iter().any(|p| matches!(
        p,
        ServerboundPacket::PlayerDigging { status: DiggingStatus::CancelDestroy, x: 3, .. }
    )));
    assert!(gs.g.breaking_overlay().is_none());
    assert!(gs.g.cancel_breaking().is_none());
}

#[test]
fn the_wheel_and_the_digits_select_slots() {
    let mut gs = Sim::looking_along_x();
    gs.act(TickActions { slot_select: Some(4), ..Default::default() });
    assert_eq!(gs.g.selected_slot(), 4);
    // The change is reported with the next use of the hand.
    gs.act(TickActions { slot_scroll: 1, ..Default::default() });
    assert!(gs.g.selected_slot() != 4);
}

#[test]
fn extensions_select_a_slot_and_tell_it_once() {
    let mut g = GameState::empty_for_server();
    let packet = g.ext_select_slot(3);
    assert_eq!(packet, ServerboundPacket::HeldItemChange { slot: 3 });
    assert_eq!(g.selected_slot(), 3);
    let out = g.ext_use_item();
    assert!(!out.packets.iter().any(|p| matches!(p, ServerboundPacket::HeldItemChange { .. })));
    assert_eq!(g.ext_swing().packets, vec![ServerboundPacket::SwingArm]);
}

#[test]
fn extensions_attack_with_a_swing_first() {
    let mut g = GameState::empty_for_server();
    let out = g.ext_attack_entity(12, false);
    assert_eq!(
        out.packets,
        vec![
            ServerboundPacket::SwingArm,
            ServerboundPacket::UseEntity { target: 12, kind: UseEntityKind::Attack },
        ]
    );
    let out = g.ext_interact_entity(12, None);
    assert!(out.packets.iter().any(|p| matches!(
        p,
        ServerboundPacket::UseEntity { target: 12, kind: UseEntityKind::Interact }
    )));
}

#[test]
fn items_fall_and_arrows_fly_here() {
    let arrow = EntityKind::Object(60);
    assert_eq!(
        entity_motion(arrow, false, false, true),
        EntityMotion::Flight { gravity: 5, drag: 99, sticks: true }
    );
    assert_eq!(entity_motion(arrow, false, false, false), EntityMotion::Follow);
    assert_eq!(entity_motion(arrow, false, true, true), EntityMotion::Follow);
    assert_eq!(entity_motion(EntityKind::Object(2), false, false, false), EntityMotion::Item);
    assert_eq!(entity_motion(EntityKind::Mob(90), false, false, true), EntityMotion::Follow);
    assert_eq!(entity_motion(EntityKind::LocalPlayer, true, false, true), EntityMotion::Own);
}
