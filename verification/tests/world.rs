//! Terrain bookkeeping, generated terrain, weather and the demo commands.

use fpsmaster_app::chat::lang::Language;
use fpsmaster_app::clientbound::{BlockChangeRecord, BulkChunkData, ClientboundPlayPacket};
use fpsmaster_app::game::commands::strike_report;
use fpsmaster_app::game::demos::{
    build_demo_chunk_stress, build_demo_entity_stress, build_demo_landscape,
    build_demo_single_cube, build_demo_terrain, checker, column_of_demo, columns_of_demo,
    LitColumn, LANDSCAPE_RANGE, TERRAIN_RANGE,
};
use fpsmaster_app::game::dispatch::{Order, Outcome};
use fpsmaster_app::game::noise::hash2d;
use fpsmaster_app::game::residency::columns_to_generate;
use fpsmaster_app::game::rules::BlockState;
use fpsmaster_app::game::sections::{block_dirty_sections, ChunkPos, SectionPos};
use fpsmaster_app::game::state::GameState;
use fpsmaster_app::game::weather::{
    handle_change_game_state, precipitation_columns, precipitation_height, rain_drops,
    rain_heard, spawn_rain_particles, splash_at, splash_count, Falling, Landing, Splash, Weather,
    FULL, FULL_PUDDLE,
};
use fpsmaster_app::game::terrain::BlockEdit;
use fpsmaster_app::game::worldgen::{place_tree, DemoKind, WorldGen};

const STONE: BlockState = BlockState { id: 1, meta: 0 };
const AIR: BlockState = BlockState { id: 0, meta: 0 };

fn no_language() -> Language {
    Language { entries: Vec::new() }
}

/// Carry out what a packet orders of columns, as a host does whose columns all have the
/// lowest section.
fn follow_columns(g: &mut GameState, done: &Outcome) {
    for order in &done.orders {
        match order {
            Order::RemoveColumn { x, z } => g.unload_chunk(*x, *z),
            Order::DecodeColumn { x, z, ground_up, .. } => {
                g.apply_chunk_column(*x, *z, *ground_up, &vec![0]);
            }
            _ => {}
        }
    }
}

// ── Sections ──────────────────────────────────────────────────────────────

#[test]
fn dirty_budget_never_starves_chunk_removals() {
    let mut gs = GameState::empty_for_server();
    // The player stands in chunk (0,0).
    gs.terrain.columns.block_set(5, 64, 7, 0); // loads chunk (0,0)

    // A near remesh (loaded column) and a far removal (the server unloaded
    // chunk (50,50), so its column is gone). With max=1 the nearest-first
    // budget would, before the fix, spend its one slot on the near remesh
    // and leave the far removal queued — its GPU mesh would leak.
    let near = SectionPos::new(0, 4, 0);
    let far_removal = SectionPos::new(50, 4, 50);
    gs.terrain.residency.dirty.insert(near);
    gs.terrain.residency.dirty.insert(far_removal);

    let taken = gs.take_dirty_chunks_budget(1, 0, 64, 0);
    assert!(
        taken.contains(&far_removal),
        "removal must be drained regardless of the nearest-first budget"
    );
    assert!(taken.contains(&near), "the budget should still take the near remesh");
    assert!(gs.terrain.residency.dirty.is_empty(), "nothing left queued");
}

#[test]
fn render_distance_evicts_far_chunks_keeps_data_and_remeshes_on_return() {
    let mut gs = GameState::empty_for_server();
    gs.terrain.columns.block_set(5, 64, 5, 0); // chunk (0,0)
    gs.terrain.columns.block_set(20 * 16 + 5, 64, 5, 0); // chunk (20,0)

    // Player in chunk (0,0), render distance 4 → keep radius 4 + 2 = 6.
    let removals = gs.enforce_render_distance(4, 0, 0);

    // The far column is dropped (all 16 sections), the near one kept.
    let far = ChunkPos::new(20, 0);
    assert_eq!(removals.iter().filter(|s| s.x == 20 && s.z == 0).count(), 16);
    assert!(!removals.iter().any(|s| s.x == 0 && s.z == 0));
    assert!(gs.terrain.residency.evicted.contains(&far));
    // Block data stays in the world, so returning never shows a hole.
    assert!(gs.terrain.columns.find(far).is_some());

    // Standing still (same chunk) is a no-op.
    assert!(gs.enforce_render_distance(4, 0, 0).is_empty());

    // Walk to the far column: it returns to range (re-queued for meshing),
    // and the origin column is now the one evicted.
    let removals = gs.enforce_render_distance(4, 20 * 16, 0);
    assert!(!gs.terrain.residency.evicted.contains(&far));
    assert!(gs.terrain.residency.dirty.items.iter().any(|s| s.x == 20 && s.z == 0));
    assert!(removals.iter().any(|s| s.x == 0 && s.z == 0));
    assert!(gs.terrain.residency.evicted.contains(&ChunkPos::new(0, 0)));
}

/// The height field of local worlds.
fn terrain_height(x: i32, z: i32) -> i32 {
    let fx = x as f64;
    let fz = z as f64;
    let h = 62.0
        + 8.0 * (fx * 0.02).sin() * (fz * 0.03).cos()
        + 4.0 * (fx * 0.07 + 1.0).sin() * (fz * 0.05 + 2.0).cos()
        + 2.0 * (fx * 0.15 + 3.0).cos() * (fz * 0.12 + 1.0).sin();
    h as i32
}

fn heights(generator: &WorldGen, cx: i32, cz: i32) -> Vec<i32> {
    let mut list = Vec::new();
    for dx in 0..16 {
        for dz in 0..16 {
            let (x, z) = generator.sample_point(cx * 16 + dx, cz * 16 + dz);
            list.push(generator.height(terrain_height(x, z)));
        }
    }
    list
}

/// The surfaces of the spawn area of a local world.
fn spawn_heights(seed: i64) -> Vec<i32> {
    let generator = WorldGen::new(seed);
    let mut list = Vec::new();
    for cz in -1..=1 {
        for cx in -1..=1 {
            list.extend(heights(&generator, cx, cz));
        }
    }
    list
}

/// Headless load-model check for single-player streaming: simulate frames of
/// streaming + the main loop's dirty drain and confirm the generation backlog and
/// loaded-chunk count stay bounded — i.e. generation never outpaces the mesher and
/// floods the pipeline. No GPU.
#[test]
fn local_world_streaming_backlog_is_bounded() {
    const DRAIN_PER_FRAME: usize = 40;
    let (mut game, _) = GameState::local_world(0x1234_5678, &spawn_heights(0x1234_5678));
    let generator = game.local_worldgen.expect("a generated world");
    let rd = 12u32;
    let mut max_dirty = 0usize;
    let mut max_chunks = 0usize;
    let mut bx = 0i32;
    for frame in 0..600 {
        let (chosen, _) = game.stream_local_world(rd, bx, 0);
        for pos in chosen {
            let blocks = generator.generate_chunk(pos.x, pos.z, &heights(&generator, pos.x, pos.z));
            let trees = generator.chunk_trees(pos.x, pos.z, &heights(&generator, pos.x, pos.z));
            let before = game.loaded_chunk_count();
            game.column_generated(pos, &blocks, &trees, &Vec::new());
            assert_eq!(game.loaded_chunk_count(), before + 1);
        }
        let _ = game.take_dirty_chunks_budget(DRAIN_PER_FRAME, bx, 64, 0);
        max_dirty = max_dirty.max(game.terrain.residency.dirty.len());
        max_chunks = max_chunks.max(game.loaded_chunk_count());
        if frame % 3 == 0 {
            bx += 4; // keep the player moving into fresh terrain
        }
    }
    // The mesher drains 40 sections/frame; the backlog must not run away.
    assert!(
        max_dirty < DRAIN_PER_FRAME * 20,
        "dirty backlog exploded to {max_dirty}"
    );
    assert!(max_chunks < 3000, "loaded chunk count exploded to {max_chunks}");
    assert!(max_chunks > 100, "terrain was generated");
}

#[test]
fn the_nearest_missing_columns_come_first() {
    let (mut g, _) = GameState::local_world(7, &spawn_heights(7));
    let empty = GameState::empty_for_server();
    let chosen = columns_to_generate(&empty.terrain.columns, 0, 2, 8, 8);
    assert_eq!(chosen.len(), 12);
    assert_eq!(chosen[0], ChunkPos::new(0, 0));
    // Equally near ones by row, and by place in the row.
    assert_eq!(chosen[1], ChunkPos::new(0, -1));
    assert_eq!(chosen[2], ChunkPos::new(-1, 0));
    // The spawn area is there already.
    let (chosen, removed) = g.stream_local_world(2, 8, 8);
    assert_eq!(chosen.len(), 12);
    assert_eq!(chosen[0], ChunkPos::new(0, -2));
    assert_eq!(chosen[1], ChunkPos::new(-2, 0));
    assert!(chosen.iter().all(|c| c.x.abs() == 2 || c.z.abs() == 2) && removed.is_empty());
    let new = ChunkPos::new(0, -2);
    let at = |y: i32| BlockEdit { x: 5, y, z: -30, state: STONE };
    g.column_generated(new, &vec![at(0), at(50)], &Vec::new(), &vec![SectionPos::new(1, 3, 0)]);
    for s in [SectionPos::new(0, 0, -2), SectionPos::new(0, 3, -2), SectionPos::new(1, 3, 0)] {
        assert!(g.terrain.residency.dirty.contains(s));
    }
    assert_eq!(g.loaded_chunk_count(), 10);
    let (chosen, removed) = g.stream_local_world(2, 8, 8);
    assert!(!chosen.contains(&new) && removed.is_empty());
    // Eight columns on, all of them are past the margin.
    let (_, removed) = g.stream_local_world(2, 8 * 16, 8);
    assert_eq!(removed.len(), 10 * 16);
    assert_eq!(g.loaded_chunk_count(), 0);
    // Worlds of a server are not streamed.
    let mut other = GameState::empty_for_server();
    let (chosen, removed) = other.stream_local_world(2, 0, 0);
    assert!(chosen.is_empty() && removed.is_empty());
}

/// The columns of a game and their sections, in order.
fn listed(g: &GameState) -> Vec<(i32, i32, Vec<i32>)> {
    let columns = g.terrain.columns.list.iter();
    let mut list: Vec<(i32, i32, Vec<i32>)> = columns
        .map(|c| {
            let mut sections = c.sections.clone();
            sections.sort();
            (c.pos.x, c.pos.z, sections)
        })
        .collect();
    list.sort();
    list
}

/// The columns that blocks stand in and their sections, in order.
fn columns_of(blocks: &[BlockEdit], trees: &[(i32, i32, i32)]) -> Vec<(i32, i32, Vec<i32>)> {
    let mut found = std::collections::BTreeMap::new();
    let mut put = |e: &BlockEdit| {
        let sections = found
            .entry((e.x.div_euclid(16), e.z.div_euclid(16)))
            .or_insert_with(std::collections::BTreeSet::new);
        sections.insert(e.y.div_euclid(16));
    };
    blocks.iter().for_each(&mut put);
    for (x, y, z) in trees {
        let (trunk, leaves) = place_tree(*x, *y, *z);
        trunk.iter().for_each(&mut put);
        leaves.iter().for_each(&mut put);
    }
    found.into_iter().map(|((x, z), s)| (x, z, s.into_iter().collect())).collect()
}

#[test]
fn a_local_world_starts_with_its_spawn_area() {
    let surface = spawn_heights(42);
    let (g, area) = GameState::local_world(42, &surface);
    assert_eq!(g.loaded_chunk_count(), 9);
    for cz in -1..=1 {
        for cx in -1..=1 {
            assert!(g.terrain.columns.find(ChunkPos::new(cx, cz)).is_some());
        }
    }
    assert_eq!(listed(&g), columns_of(&area.blocks, &area.trees));
    // It is meshed at once, so nothing is queued.
    assert!(g.terrain.residency.dirty.is_empty());
    // The player stands on the surface of the middle column.
    let generator = WorldGen::new(42);
    assert_eq!(area.spawn_y, heights(&generator, 0, 0)[0] + 1);
    // Chunk by chunk what a streamed column holds too.
    let first = generator.generate_chunk(-1, -1, &heights(&generator, -1, -1));
    assert_eq!(area.blocks[..first.len()], first[..]);
    let mut trees = Vec::new();
    for cz in -1..=1 {
        for cx in -1..=1 {
            trees.extend(generator.chunk_trees(cx, cz, &heights(&generator, cx, cz)));
        }
    }
    assert_eq!(area.trees, trees);
}

#[test]
fn a_demo_starts_with_its_columns() {
    let (g, cube) = GameState::demo(DemoKind::SingleCube, &Vec::new());
    assert_eq!(listed(&g), vec![(0, 0, vec![4])]);
    assert_eq!(cube.spawn, (0, 64, -6));
    assert!(g.terrain.residency.dirty.is_empty());
    let (g, demo) = GameState::demo(DemoKind::EntityStress, &Vec::new());
    assert_eq!(g.loaded_chunk_count(), 81);
    assert_eq!(listed(&g), columns_of(&demo.blocks, &demo.trees));
    let (g, demo) = GameState::demo(DemoKind::ChunkStress, &Vec::new());
    assert_eq!(g.loaded_chunk_count(), 441);
    assert_eq!(listed(&g)[0], (-10, -10, vec![0, 1, 2, 3]));
    assert_eq!(demo.spawn, (0, 52, 0));
    // Leaves at the edge of the landscape may reach the next column.
    let heights = vec![70; columns_of_demo(LANDSCAPE_RANGE)];
    let (g, demo) = GameState::demo(DemoKind::Landscape, &heights);
    assert!(g.loaded_chunk_count() >= 289);
    assert_eq!(listed(&g), columns_of(&demo.blocks, &demo.trees));
}

#[test]
fn nearest_sections_are_meshed_first() {
    let mut gs = GameState::empty_for_server();
    gs.apply_chunk_column(0, 0, true, &vec![0, 1, 2, 3, 4, 5]);
    let mut order = Vec::new();
    loop {
        let taken = gs.take_dirty_chunks_budget(1, 8, 5 * 16, 8);
        match taken.iter().find(|s| s.x == 0 && s.z == 0) {
            Some(s) => order.push(s.y),
            None => break,
        }
    }
    assert_eq!(order, vec![5, 4, 3, 2, 1, 0]);
}

#[test]
fn an_edit_at_a_border_dirties_both_sides() {
    let inside = block_dirty_sections(5, 5, 5);
    assert_eq!(inside, vec![SectionPos::new(0, 0, 0)]);
    let corner = block_dirty_sections(0, 16, 15);
    for s in [
        SectionPos::new(0, 1, 0),
        SectionPos::new(-1, 1, 0),
        SectionPos::new(0, 0, 0),
        SectionPos::new(0, 1, 1),
    ] {
        assert!(corner.contains(&s), "{s:?} is missing");
    }
}

#[test]
fn changes_to_missing_columns_wait_for_them() {
    let mut g = GameState::empty_for_server();
    let early = ClientboundPlayPacket::BlockChange { x: 33, y: 70, z: -1, id: 1, meta: 0 };
    let done = g.apply_play_packet(early, &no_language(), 0);
    assert!(done.orders.is_empty() && !done.remesh);
    let other = g.apply_chunk_column(0, 0, true, &vec![4]);
    assert!(other.is_empty());
    let edits = g.apply_chunk_column(2, -1, true, &vec![4]);
    assert_eq!(edits.len(), 1);
    assert_eq!((edits[0].x, edits[0].y, edits[0].z, edits[0].state), (33, 70, -1, STONE));
    // Once made, it is not made again.
    assert!(g.apply_chunk_column(2, -1, true, &vec![4]).is_empty());
}

/// Whether a game lists a section.
fn has(g: &GameState, x: i32, y: i32, z: i32) -> bool {
    listed(g).iter().any(|c| (c.0, c.1) == (x, z) && c.2.contains(&y))
}

#[test]
fn a_change_lists_its_section() {
    let mut g = GameState::empty_for_server();
    g.apply_chunk_column(0, 0, true, &vec![0]);
    assert!(has(&g, 0, 0, 0) && !has(&g, 0, 6, 0));
    let tower = ClientboundPlayPacket::BlockChange { x: 3, y: 100, z: 3, id: 1, meta: 0 };
    g.apply_play_packet(tower, &no_language(), 0);
    assert!(has(&g, 0, 6, 0) && g.terrain.residency.dirty.contains(SectionPos::new(0, 6, 0)));
    // Past the height of the world no section comes up.
    let high = ClientboundPlayPacket::BlockChange { x: 3, y: 256, z: 3, id: 1, meta: 0 };
    g.apply_play_packet(high, &no_language(), 0);
    assert_eq!(listed(&g), vec![(0, 0, vec![0, 6])]);
    // So does a change that had to wait, and it is meshed.
    let early = ClientboundPlayPacket::BlockChange { x: 40, y: 70, z: 3, id: 1, meta: 0 };
    g.apply_play_packet(early, &no_language(), 0);
    assert_eq!(g.loaded_chunk_count(), 1);
    g.apply_chunk_column(2, 0, true, &vec![0]);
    assert!(has(&g, 2, 4, 0) && g.terrain.residency.dirty.contains(SectionPos::new(2, 4, 0)));
    // And what the player does ahead of the server, which is meshed first.
    let edit = BlockEdit { x: 3, y: 20, z: 3, state: STONE };
    assert!(g.predict_block(edit));
    assert!(has(&g, 0, 1, 0) && g.terrain.residency.urgent.contains(SectionPos::new(0, 1, 0)));
    let nowhere = BlockEdit { x: 3, y: 20, z: 30, state: STONE };
    assert!(!g.predict_block(nowhere) && g.loaded_chunk_count() == 2);
}

#[test]
fn a_tower_is_meshed_again_on_return() {
    let mut g = GameState::empty_for_server();
    g.apply_chunk_column(0, 0, true, &vec![0]);
    assert!(g.predict_block(BlockEdit { x: 3, y: 100, z: 3, state: STONE }));
    g.enforce_render_distance(4, 0, 0);
    g.enforce_render_distance(4, 40 * 16, 0);
    while !g.take_dirty_chunks_budget(100, 40 * 16, 64, 0).is_empty() {}
    assert!(!g.terrain.residency.dirty.contains(SectionPos::new(0, 6, 0)));
    g.enforce_render_distance(4, 0, 0);
    assert!(g.terrain.residency.dirty.contains(SectionPos::new(0, 0, 0)));
    assert!(g.terrain.residency.dirty.contains(SectionPos::new(0, 6, 0)));
}

#[test]
fn an_empty_part_of_a_missing_column_loads_nothing() {
    let mut g = GameState::empty_for_server();
    let early = ClientboundPlayPacket::BlockChange { x: 5, y: 70, z: 5, id: 1, meta: 0 };
    g.apply_play_packet(early, &no_language(), 0);
    assert!(g.apply_chunk_column(0, 0, false, &Vec::new()).is_empty());
    assert_eq!(g.loaded_chunk_count(), 0);
    // The change still waits for the column.
    assert_eq!(g.apply_chunk_column(0, 0, false, &vec![0]).len(), 1);
    assert_eq!(listed(&g), vec![(0, 0, vec![0, 4])]);
}

#[test]
fn many_changes_come_at_once() {
    let mut g = GameState::empty_for_server();
    g.apply_chunk_column(1, 0, true, &vec![0]);
    let done = g.apply_play_packet(
        ClientboundPlayPacket::MultiBlockChange {
            chunk_x: 1,
            chunk_z: 0,
            changes: vec![
                BlockChangeRecord { x: 2, y: 5, z: 3, id: 1, meta: 0 },
                BlockChangeRecord { x: 15, y: 6, z: 0, id: 0, meta: 0 },
            ],
        },
        &no_language(),
        0,
    );
    let places: Vec<(i32, i32, i32)> = done
        .orders
        .iter()
        .filter_map(|o| match o {
            Order::SetBlock { edit } => Some((edit.x, edit.y, edit.z)),
            _ => None,
        })
        .collect();
    assert_eq!(places, vec![(18, 5, 3), (31, 6, 0)]);
}

#[test]
fn an_empty_full_column_unloads() {
    let mut g = GameState::empty_for_server();
    g.apply_chunk_column(4, 4, true, &vec![0]);
    assert_eq!(g.loaded_chunk_count(), 1);
    let done = g.apply_play_packet(
        ClientboundPlayPacket::ChunkData {
            x: 4,
            z: 4,
            ground_up: true,
            primary_bit_mask: 0,
            data: Vec::new(),
        },
        &no_language(),
        0,
    );
    assert_eq!(done.orders, vec![Order::RemoveColumn { x: 4, z: 4 }]);
    follow_columns(&mut g, &done);
    assert_eq!(g.loaded_chunk_count(), 0);
    // The sections of the column and of its neighbours wait for meshing.
    assert!(g.terrain.residency.dirty.contains(SectionPos::new(4, 0, 4)));
}

#[test]
fn the_columns_of_a_bulk_come_in_turn() {
    let column = |x: i32, mask: u16, data: Vec<u8>| BulkChunkData {
        x,
        z: 0,
        primary_bit_mask: mask,
        data,
    };
    // Unloaded last, a column is gone, and loaded last it is there.
    for (chunks, loaded) in [
        (vec![column(0, 1, vec![1]), column(0, 0, Vec::new())], 0),
        (vec![column(0, 0, Vec::new()), column(0, 1, vec![1])], 1),
        (vec![column(0, 1, vec![1]), column(1, 0, Vec::new())], 1),
    ] {
        let mut g = GameState::empty_for_server();
        let bulk = ClientboundPlayPacket::ChunkBulk { sky_light_sent: true, chunks };
        let done = g.apply_play_packet(bulk, &no_language(), 0);
        assert_eq!(done.orders.len(), 2);
        follow_columns(&mut g, &done);
        assert_eq!(g.loaded_chunk_count(), loaded);
    }
}

#[test]
fn packets_at_the_edge_of_the_numbers_are_told_apart() {
    let g = GameState::empty_for_server();
    let changes = |chunk_x: i32| ClientboundPlayPacket::MultiBlockChange {
        chunk_x,
        chunk_z: 0,
        changes: vec![BlockChangeRecord { x: 15, y: 0, z: 0, id: 1, meta: 0 }],
    };
    assert!(g.packet_in_range(&changes(1000)));
    assert!(g.packet_in_range(&changes(0x7ff_ffff)));
    assert!(!g.packet_in_range(&changes(0x800_0000)));
}

#[test]
fn predicted_edits_go_first() {
    let mut g = GameState::empty_for_server();
    g.apply_chunk_column(0, 0, true, &vec![0]);
    g.terrain.residency.mark_block_dirty_urgent(5, 5, 5);
    let urgent = g.take_urgent_remesh();
    assert_eq!(urgent, vec![SectionPos::new(0, 0, 0)]);
    assert!(!g.terrain.residency.dirty.contains(SectionPos::new(0, 0, 0)));
    assert!(g.take_urgent_remesh().is_empty());
    g.mark_all_sections_dirty();
    assert!(g.terrain.residency.dirty.contains(SectionPos::new(0, 0, 0)));
}

// ── Generated terrain ─────────────────────────────────────────────────────

#[test]
fn terrain_is_the_same_every_time() {
    let generator = WorldGen::new(99);
    let list = heights(&generator, 3, -2);
    let a = generator.generate_chunk(3, -2, &list);
    let b = generator.generate_chunk(3, -2, &list);
    assert_eq!(a, b);
    // Bedrock at the bottom of every column, and the surface at its height.
    assert_eq!(a.iter().filter(|e| e.y == 0 && e.state.id == 7).count(), 256);
    for (i, h) in list.iter().enumerate() {
        let (x, z) = (48 + (i / 16) as i32, -32 + (i % 16) as i32);
        assert!(a.iter().any(|e| e.x == x && e.z == z && e.y == *h && !e.state.is_air()));
    }
    for (x, z) in generator.trees(3, -2) {
        assert!((2..=13).contains(&x) && (2..=13).contains(&z));
    }
}

#[test]
fn trees_stay_close_to_their_trunk() {
    let (trunk, leaves) = place_tree(10, 70, -4);
    assert!((4..=6).contains(&trunk.len()));
    assert!(trunk.iter().all(|e| (e.x, e.z) == (10, -4) && e.state.id == 17));
    assert!(leaves.iter().all(|e| (e.x - 10).abs() <= 2 && (e.z + 4).abs() <= 2));
}

#[test]
fn the_hash_is_fixed() {
    assert_eq!(hash2d(0, 0, 0), hash2d(0, 0, 0));
    assert!(hash2d(1, 0, 0) != hash2d(0, 1, 0));
    assert!(hash2d(1, 2, 3) != hash2d(1, 2, 4));
}

#[test]
fn the_stress_worlds_are_full() {
    let flat = build_demo_entity_stress();
    assert_eq!((flat.mobs.len(), flat.blocks.len()), (23 * 23, 144 * 144));
    assert_eq!(flat.spawn, (0, 2, 0));
    assert_eq!((flat.mobs[0].id, flat.mobs[0].kind, flat.mobs[0].centred), (100, 50, false));
    assert_eq!((flat.mobs[0].x, flat.mobs[0].y, flat.mobs[0].z), (-34, 1, -34));
    assert_eq!((flat.mobs[528].id, flat.mobs[528].x, flat.mobs[528].z), (628, 32, 32));
    assert!(flat.blocks.iter().all(|e| e.y == 0 && e.state.id == 2));
    assert!(flat.lit.iter().all(|l| (l.low, l.high) == (1, 3)));
    let cube = build_demo_single_cube();
    assert_eq!(cube.blocks, vec![BlockEdit { x: 0, y: 64, z: 0, state: STONE }]);
    assert_eq!(cube.lit[1], LitColumn { x: 0, z: 5, low: 64, high: 80 });
    let board = build_demo_chunk_stress();
    // Bedrock and every second of 48 layers, in 336 by 336 columns.
    assert_eq!(board.blocks.len(), 336 * 336 * 25);
    assert_eq!((board.lit.len(), board.spawn), (336 * 336, (0, 52, 0)));
    assert!(board.mobs.is_empty() && board.trees.is_empty());
    assert_eq!(checker(0, 10, 0), Some(BlockState { id: 20, meta: 0 }));
    assert_eq!(checker(1, 10, 0), None);
    assert_eq!(checker(-20, 5, 1), Some(BlockState { id: 95, meta: 4 }));
}

#[test]
fn the_columns_of_a_demo_go_chunk_by_chunk() {
    assert_eq!(columns_of_demo(LANDSCAPE_RANGE), 272 * 272);
    assert_eq!(column_of_demo(8, 0), (-128, -128));
    assert_eq!(column_of_demo(8, 17), (-127, -127));
    assert_eq!(column_of_demo(8, 256), (-128, -112));
    assert_eq!(column_of_demo(8, 272 * 272 - 1), (143, 143));
}

#[test]
fn the_landscape_has_trees_animals_and_a_lake() {
    let count = columns_of_demo(LANDSCAPE_RANGE);
    // A plain above the water: every animal is there, and two trees to a chunk but where
    // they would grow past the edge.
    let plain = build_demo_landscape(&vec![70; count]);
    assert_eq!(plain.blocks.len(), count * 71);
    assert_eq!(plain.lit.len(), count);
    assert_eq!(plain.lit[0], LitColumn { x: -128, z: -128, low: 70, high: 86 });
    assert_eq!(plain.spawn, (0, 72, 0));
    assert_eq!(plain.mobs.len(), 24);
    let r = hash2d(1, 10, 555);
    let sheep = &plain.mobs[1];
    assert_eq!((sheep.id, sheep.kind, sheep.y), (101, 91, 71));
    assert_eq!((sheep.x, sheep.z), ((r % 80) as i32 - 40, ((r >> 8) % 80) as i32 - 40));
    assert!(sheep.centred && sheep.yaw == r % 360);
    let trees = &plain.trees;
    assert!(trees.len() > 500 && trees.len() <= 578);
    assert!(trees.iter().all(|(x, y, z)| x.abs() <= 128 && *y == 71 && z.abs() <= 128));
    let t = hash2d(-8, -8, 111);
    assert_eq!(trees[0], (-127 + (t % 14) as i32, 71, -127 + ((t >> 8) % 14) as i32));
    // Under water nothing grows, and the player starts above it.
    let lake = build_demo_landscape(&vec![50; count]);
    assert!(lake.trees.is_empty() && lake.mobs.is_empty());
    assert_eq!(lake.spawn, (0, 62, 0));
    assert_eq!(lake.lit[0].low, 60);
    assert_eq!(lake.blocks.len(), count * 61);
    // On a shore animals stand, but no trees.
    let shore = build_demo_landscape(&vec![62; count]);
    assert!(shore.trees.is_empty());
    assert_eq!(shore.mobs.len(), 24);
}

#[test]
fn the_terrain_demo_is_seen_from_above() {
    let count = columns_of_demo(TERRAIN_RANGE);
    let hills = build_demo_terrain(&vec![5; count]);
    assert_eq!((hills.spawn, count), ((0, 104, 0), 400 * 400));
    assert!(hills.trees.is_empty());
    // Bedrock, one stone or ore, three of sand, sand, and water up to its level.
    let ids: Vec<u16> = hills.blocks[..57].iter().map(|e| e.state.id).collect();
    assert_eq!(ids[0], 7);
    assert_eq!(ids[2..6], [12, 12, 12, 12]);
    assert!(ids[6..].iter().all(|id| *id == 9));
}

// ── Weather ───────────────────────────────────────────────────────────────

fn run(weather: &mut Weather, ticks: usize) {
    for _ in 0..ticks {
        weather.tick();
    }
}

/// How hard it rains, at the end of the tick.
fn rain(w: &Weather, alpha: f64) -> f64 {
    w.rain_strength((alpha * FULL as f64) as u64) as f64 / FULL as f64 / FULL as f64
}

fn thunder(w: &Weather) -> f64 {
    let full = FULL as f64;
    w.thunder_strength(FULL) as f64 / (full * full) / (full * full)
}

fn puddle(w: &Weather) -> f64 {
    w.puddle_level(FULL) as f64 / FULL_PUDDLE as f64 / FULL as f64
}

#[test]
fn weather_ramps_instead_of_popping() {
    let mut w = Weather::default();
    assert_eq!(rain(&w, 1.0), 0.0);

    w.set_raining(true);
    run(&mut w, 50);
    let half = rain(&w, 1.0);
    assert!(
        (half - 0.5).abs() < 0.02,
        "0.01/tick puts 50 ticks at ~half: {half}"
    );

    // Vanilla takes 100 ticks (5 s) to reach full, then clamps.
    run(&mut w, 60);
    assert_eq!(rain(&w, 1.0), 1.0);

    w.set_raining(false);
    run(&mut w, 110);
    assert_eq!(rain(&w, 1.0), 0.0, "and fades back out");
}

#[test]
fn thunder_implies_rain_and_clearing_rain_clears_thunder() {
    let mut w = Weather::default();
    w.set_thundering(true);
    assert!(w.is_raining(), "a thunderstorm is rain plus thunder");

    run(&mut w, 100);
    assert!((rain(&w, 1.0) - 1.0).abs() < 1e-4);
    assert!((thunder(&w) - 1.0).abs() < 1e-4);

    w.set_raining(false);
    assert!(!w.is_thundering(), "thunder cannot outlive its rain");
    run(&mut w, 100);
    assert!(thunder(&w) < 1e-4);
}

#[test]
fn thunder_is_gated_by_the_rain_level() {
    // Vanilla getThunderStrength multiplies by the rain strength, so thunder
    // can never darken a sky that is not already overcast.
    let mut w = Weather::default();
    w.set_thundering(true);
    run(&mut w, 20);
    let falling = rain(&w, 1.0);
    assert!(thunder(&w) <= falling + 1e-6);
    assert!(thunder(&w) < 0.05, "still barely thundering");
}

#[test]
fn explicit_levels_bypass_the_ramp() {
    // S2B reason 7/8 set the level outright; no interpolation artefact.
    let mut w = Weather::default();
    w.set_rain_level(FULL * 3 / 4);
    assert_eq!(rain(&w, 0.0), 0.75);
    assert_eq!(rain(&w, 1.0), 0.75);
    w.set_thunder_level(FULL);
    assert_eq!(thunder(&w), 0.75, "gated by rain");
}

#[test]
fn lightning_flash_lasts_two_ticks() {
    let mut w = Weather::default();
    assert!(!w.lightning_flash());
    w.flash();
    assert!(w.lightning_flash());
    w.tick();
    assert!(w.lightning_flash(), "still lit on the second tick");
    w.tick();
    assert!(!w.lightning_flash());
}

#[test]
fn snow_forces_rain_on_and_clear_cancels_it() {
    let mut w = Weather::default();
    assert!(!w.force_snow());
    w.set_force_snow(true);
    assert!(w.is_raining(), "snow is precipitation, so it must be raining");
    assert!(w.force_snow());
    w.set_force_snow(false);
    w.set_raining(false);
    assert!(!w.force_snow());
}

#[test]
fn puddles_fill_far_slower_than_rain_and_drain_slower_still() {
    let mut w = Weather::default();
    w.set_raining(true);
    // Rain is full in 100 ticks; puddles must be nowhere near it, or they
    // snap in with the weather change instead of pooling.
    run(&mut w, 100);
    assert!((rain(&w, 1.0) - 1.0).abs() < 1e-3);
    let after_5s = puddle(&w);
    assert!(
        after_5s < 0.3,
        "puddles barely started after 5s of rain: {after_5s}"
    );

    // Not full at 20s: the fill rate scales with the rain actually falling,
    // so the 5-second ramp-up only contributes at half rate. Full lands
    // nearer 22s.
    run(&mut w, 300);
    let at_20s = puddle(&w);
    assert!((0.8..1.0).contains(&at_20s), "{at_20s}");
    run(&mut w, 100);
    assert!((puddle(&w) - 1.0).abs() < 1e-3, "full by ~25s");

    // Draining is slower than filling, so pools linger after the rain stops.
    w.set_raining(false);
    run(&mut w, 200);
    let left = puddle(&w);
    assert!(
        left > 0.5,
        "10s after the rain stops most water is still there: {left}"
    );
}

#[test]
fn a_brief_shower_leaves_only_a_trace() {
    // Fill rate scales with the rain actually falling, so weather that ramps
    // up and straight back down should not pool.
    let mut w = Weather::default();
    w.set_raining(true);
    run(&mut w, 40);
    w.set_raining(false);
    run(&mut w, 40);
    assert!(puddle(&w) < 0.1, "{}", puddle(&w));
}

#[test]
fn the_server_changes_the_weather() {
    let mut w = Weather::default();
    handle_change_game_state(&mut w, 2, 0);
    assert!(w.is_raining());
    handle_change_game_state(&mut w, 1, 0);
    assert!(!w.is_raining());
    handle_change_game_state(&mut w, 7, FULL / 2);
    assert_eq!(w.rain, FULL / 2);
    handle_change_game_state(&mut w, 3, FULL);
    assert_eq!(w.rain, FULL / 2, "other reasons are not about the weather");
}

#[test]
fn bolts_fade_within_four_ticks() {
    let mut g = GameState::empty_for_server();
    assert!(g.run_demo_command("weather strike").is_none());
    let zero = fpsmaster_app::packets::Real64 { bits: 0 };
    g.handle_lightning_bolt(zero, zero, zero, 3, 4);
    assert_eq!(g.lightning_bolts().len(), 1);
    assert_eq!(g.lightning_bolts()[0].brightness(), (4, 4));
    for _ in 0..4 {
        g.tick(false);
    }
    assert!(g.lightning_bolts().is_empty());
    assert_eq!(strike_report(1, -2, 3), "Lightning strikes at 1, -2, 3");
}

/// A column with stone at these heights, up to the top of the highest section.
fn column_with(heights: &[usize]) -> Vec<BlockState> {
    let top = heights.iter().map(|h| h / 16 * 16 + 16).max().unwrap_or(0);
    let mut column = vec![AIR; top];
    for h in heights {
        column[*h] = STONE;
    }
    column
}

#[test]
fn returns_one_above_the_topmost_solid_block() {
    assert_eq!(precipitation_height(&column_with(&[60, 71, 12])), 72);
}

#[test]
fn an_empty_or_unloaded_column_is_zero() {
    // Loaded chunk, but this column has nothing in it.
    assert_eq!(precipitation_height(&vec![AIR; 64]), 0);
    // Chunk never loaded at all.
    assert_eq!(precipitation_height(&Vec::new()), 0);
}

#[test]
fn finds_blocks_above_the_topmost_allocated_section_boundary() {
    // The scan starts at the top of the highest allocated section; a block
    // sitting in that section's last row must still be found, and one in a
    // section allocated later must lift the answer.
    assert_eq!(precipitation_height(&column_with(&[60])), 61);
    assert_eq!(precipitation_height(&column_with(&[60, 255])), 256);
}

#[test]
fn rain_falls_through_plants() {
    let mut column = column_with(&[60]);
    column[61] = BlockState { id: 31, meta: 1 };
    assert_eq!(precipitation_height(&column), 61);
    // Water stops it.
    column[62] = BlockState { id: 9, meta: 0 };
    assert_eq!(precipitation_height(&column), 63);
}

#[test]
fn curtains_hang_between_ground_and_view() {
    let mut w = Weather::default();
    let cells = |n: usize| -> Vec<Option<Falling>> {
        (0..n).map(|_| Some(Falling { ground: 64, snow: false })).collect()
    };
    assert!(precipitation_columns(&w, FULL, true, 0, 70, 0, 1, &cells(9)).is_empty());
    w.set_rain_level(FULL);
    let columns = precipitation_columns(&w, FULL, true, 0, 70, 0, 1, &cells(9));
    assert_eq!(columns.len(), 9);
    assert!(columns.iter().all(|c| c.y_min >= 64 && c.y_min < c.y_max && !c.snow));
    // Under a sky without light nothing falls.
    assert!(precipitation_columns(&w, FULL, false, 0, 70, 0, 1, &cells(9)).is_empty());
    w.set_force_snow(true);
    let snow = precipitation_columns(&w, FULL, true, 0, 70, 0, 1, &cells(9));
    assert!(snow.iter().all(|c| c.snow));
}

#[test]
fn drops_splash_and_sizzle() {
    let mut w = Weather::default();
    assert_eq!(splash_count(&w, true), 0);
    w.set_rain_level(FULL);
    assert_eq!(splash_count(&w, true), 100);
    assert_eq!(splash_at(64, 65, Some(false), false, STONE), Splash::Droplet);
    assert_eq!(
        splash_at(64, 65, Some(false), false, BlockState { id: 10, meta: 0 }),
        Splash::Smoke
    );
    assert_eq!(splash_at(64, 65, Some(true), false, STONE), Splash::Nothing);
    assert_eq!(splash_at(64, 200, Some(false), false, STONE), Splash::Nothing);
    // At the edge of the numbers too.
    assert_eq!(splash_at(i32::MAX, i32::MIN, Some(false), false, STONE), Splash::Nothing);
    assert_eq!(splash_at(i32::MAX, i32::MAX, Some(false), false, STONE), Splash::Droplet);
    // Silence never lasts long while drops land.
    let (heard, _) = rain_heard(1, 0, 3);
    assert!(heard);
}

#[test]
fn rain_falls_around_the_player() {
    let mut w = Weather::default();
    assert!(rain_drops(&w, true, 0, 0, 1).is_empty());
    w.set_rain_level(FULL / 2);
    let drops = rain_drops(&w, true, 100, -50, 1);
    assert_eq!(drops.len(), 25);
    assert!(drops.iter().all(|d| (d.x - 100).abs() < 10 && (d.z + 50).abs() < 10));
    assert!(rain_drops(&w, false, 100, -50, 1).is_empty());
    let landings = vec![
        None,
        Some(Landing { top: 64, snows: Some(false), below: STONE }),
        Some(Landing { top: 64, snows: None, below: STONE }),
        Some(Landing { top: 60, snows: Some(false), below: BlockState { id: 11, meta: 0 } }),
    ];
    let mut silent = 2;
    let rain = spawn_rain_particles(&landings, 65, false, 1, &mut silent);
    assert_eq!(rain.splashes, vec![(1, Splash::Droplet), (3, Splash::Smoke)]);
    // Two silent ticks before make it sure, at the last drop that landed.
    assert_eq!((rain.heard, silent), (Some(3), 0));
    let dry = spawn_rain_particles(&landings, 65, true, 1, &mut silent);
    assert!(dry.splashes.is_empty() && dry.heard.is_none());
    assert_eq!(silent, 0);
}

// ── Commands ──────────────────────────────────────────────────────────────

#[test]
fn demo_commands_set_the_time() {
    let mut g = GameState::empty_for_server();
    assert_eq!(g.run_demo_command("time set noon").as_deref(), Some("Set the time to 6000"));
    assert_eq!(g.run_demo_command("time set -1").as_deref(), Some("Set the time to 23999"));
    assert_eq!(
        g.run_demo_command("time add 2").as_deref(),
        Some("Added 2 to the time (now 1)")
    );
    assert_eq!(
        g.run_demo_command("time rate -5").as_deref(),
        Some("Day/night rate set to 0x")
    );
    assert_eq!(
        g.run_demo_command("time set dusk").as_deref(),
        Some("Usage: /time set <day|noon|night|midnight|ticks>")
    );
    assert_eq!(
        g.run_demo_command("time add").as_deref(),
        Some("Usage: /time set|add <…> or /time rate <n>")
    );
    assert_eq!(g.run_demo_command("time add x").as_deref(), Some("Usage: /time add <ticks>"));
    assert_eq!(
        g.run_demo_command("time rate x").as_deref(),
        Some("Usage: /time rate <ticks-per-tick>")
    );
    assert_eq!(g.run_demo_command("fly  away").as_deref(), Some("Unknown command: /fly  away"));
}

#[test]
fn demo_commands_set_the_weather() {
    let mut g = GameState::empty_for_server();
    assert_eq!(g.run_demo_command("weather thunder").as_deref(), Some("Weather set to thunder"));
    assert!(g.weather.is_thundering() && g.weather.is_raining());
    assert_eq!(g.run_demo_command("weather snow").as_deref(), Some("Weather set to snow"));
    assert!(g.weather.force_snow());
    assert_eq!(g.run_demo_command("weather rain").as_deref(), Some("Weather set to rain"));
    assert!(!g.weather.force_snow());
    assert_eq!(g.run_demo_command("weather clear").as_deref(), Some("Weather set to clear"));
    assert!(!g.weather.is_raining() && !g.weather.is_thundering());
    assert_eq!(
        g.run_demo_command("weather hail").as_deref(),
        Some("Usage: /weather clear|rain|snow|thunder|strike")
    );
}

#[test]
fn time_runs_and_is_interpolated() {
    let mut g = GameState::demo(DemoKind::EntityStress, &Vec::new()).0;
    assert_eq!(g.world_time_ticks(), 6000);
    assert_eq!(g.world_time(500_000_000), 6_006_000_000_000);
    g.tick(false);
    assert_eq!(g.world_time_ticks(), 6012);
    // A negative time from the server stops the sun there.
    let packet = ClientboundPlayPacket::TimeUpdate { time_of_day: -18000 };
    g.apply_play_packet(packet, &no_language(), 0);
    g.tick(false);
    assert_eq!(g.world_time_ticks(), 18000);
}

#[test]
fn a_day_starts_over() {
    let mut g = GameState::empty_for_server();
    g.run_demo_command("time set 23999");
    g.tick(false);
    assert_eq!(g.world_time_ticks(), 0);
    let packet = ClientboundPlayPacket::TimeUpdate { time_of_day: 24000 };
    g.apply_play_packet(packet, &no_language(), 0);
    assert_eq!(g.world_time_ticks(), 0);
    let packet = ClientboundPlayPacket::TimeUpdate { time_of_day: 49001 };
    g.apply_play_packet(packet, &no_language(), 0);
    assert_eq!(g.world_time_ticks(), 1001);
}

#[test]
fn meshes_out_of_range_are_freed_once() {
    let mut g = GameState::empty_for_server();
    g.apply_chunk_column(0, 0, true, &vec![4]);
    g.apply_chunk_column(9, 0, true, &vec![4]);
    g.apply_chunk_column(6, 0, true, &vec![4]);
    // Four chunks and a margin of two are kept.
    let freed = g.enforce_render_distance(4, 5, 5);
    let far: Vec<SectionPos> = (0..16).map(|y| SectionPos::new(9, y, 0)).collect();
    assert_eq!(freed.len(), 16);
    assert!(far.iter().all(|s| freed.contains(s)));
    assert!(!g.terrain.residency.dirty.contains(SectionPos::new(9, 4, 0)));
    // From the same column nothing more happens, and from the next only the column that
    // is out of range now is freed.
    assert!(g.enforce_render_distance(4, 15, 15).is_empty());
    let next = g.enforce_render_distance(4, -1, 0);
    assert!(next.len() == 16 && next.iter().all(|s| s.x == 6));
    // Back in range it is meshed again.
    let back = g.enforce_render_distance(4, 9 * 16, 0);
    assert!(back.len() == 16 && back.iter().all(|s| s.x == 0));
    assert!(g.terrain.residency.dirty.contains(SectionPos::new(9, 4, 0)));
}
