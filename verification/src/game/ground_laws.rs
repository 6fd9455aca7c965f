//! What generated ground is like: layers from bedrock to grass, water over low land, and
//! trees that stand on it.

use vstd::prelude::*;
use super::demos::{animal_kind, hill_light, stress_kind, stress_mob};
use super::terrain::BlockEdit;
use super::worldgen::{
    chunk_blocks, in_canopy, local_tree, spawn_chunk, tree_at, trees_of_chunk, trunk, Ground,
};

verus! {

/// A column of dry land is bedrock below, then stone and ores, three blocks of dirt, and
/// grass; nothing stands on it.
pub proof fn law_dry_land_has_layers(g: Ground, x: i32, y: int, z: int, h: int)
    requires
        h > g.water_level + 2,
        h > 4,
        0 <= y <= h,
    ensures
        ({
            let id = g.cell(x, y, z, h).id;
            &&& y == 0 ==> id == 7
            &&& 0 < y < h - 3 ==> id == 1 || id == 15 || id == 16
            &&& h - 3 <= y < h && y > 0 ==> id == 3
            &&& y == h ==> id == 2
            &&& g.top(h) == h
            &&& g.cell(x, y, z, h).meta == 0
        }),
{
}

/// By the water the ground is sand, and what lies below the water line is covered up to it.
pub proof fn law_shores_are_sandy(g: Ground, x: i32, y: int, z: int, h: int)
    requires
        h <= g.water_level + 2,
        h > 4,
        0 <= y <= g.top(h),
    ensures
        ({
            let id = g.cell(x, y, z, h).id;
            &&& y == 0 ==> id == 7
            &&& 0 < y < h - 3 ==> id == 1 || id == 15 || id == 16
            &&& h - 3 <= y <= h && y > 0 ==> id == 12
            &&& y > h ==> id == 9
            &&& h < g.water_level ==> g.top(h) == g.water_level
            &&& h >= g.water_level ==> g.top(h) == h
        }),
{
}

/// A column has one block at every height from the bottom to the top, on its own place.
pub proof fn law_columns_have_a_block_at_every_height(g: Ground, x: i32, z: i32, h: int, y: int)
    requires
        g.wf(),
        5 <= h <= 240,
        0 <= y <= g.top(h),
    ensures
        g.column(x, z, h).len() == g.top(h) + 1,
        g.column(x, z, h)[y].x == x,
        g.column(x, z, h)[y].y == y,
        g.column(x, z, h)[y].z == z,
        g.column(x, z, h)[y].state == g.cell(x, y, z as int, h),
{
}

/// A chunk has a column at each of its places, as high as the surface there: sixteen along
/// z to each place along x.
pub proof fn law_chunks_have_all_their_columns(
    g: Ground,
    cx: int,
    cz: int,
    heights: Seq<i32>,
    n: int,
    lx: int,
    lz: int,
    y: int,
)
    requires
        g.wf(),
        heights.len() == 256,
        0 <= lx < 16,
        0 <= lz < 16,
        16 * lx + lz < n <= 256,
        5 <= heights[16 * lx + lz] <= 240,
        0 <= y <= g.top(heights[16 * lx + lz] as int),
        -0x800_0000 <= cx <= 0x7ff_ffff,
        -0x800_0000 <= cz <= 0x7ff_ffff,
    ensures
        ({
            let h = heights[16 * lx + lz] as int;
            chunk_blocks(g, cx, cz, heights, n).contains(
                BlockEdit {
                    x: (16 * cx + lx) as i32,
                    y: y as i32,
                    z: (16 * cz + lz) as i32,
                    state: g.cell((16 * cx + lx) as i32, y, 16 * cz + lz, h),
                },
            )
        }),
    decreases n,
{
    let at = 16 * lx + lz;
    let h = heights[at] as int;
    let block = BlockEdit {
        x: (16 * cx + lx) as i32,
        y: y as i32,
        z: (16 * cz + lz) as i32,
        state: g.cell((16 * cx + lx) as i32, y, 16 * cz + lz, h),
    };
    let before = chunk_blocks(g, cx, cz, heights, n - 1);
    let x = (cx * 16 + (n - 1) / 16) as i32;
    let z = (cz * 16 + (n - 1) % 16) as i32;
    let column = g.column(x, z, heights[n - 1] as int);
    let all = chunk_blocks(g, cx, cz, heights, n);
    assert(all == before + column);
    if at < n - 1 {
        law_chunks_have_all_their_columns(g, cx, cz, heights, n - 1, lx, lz, y);
        let i = choose|i: int| 0 <= i < before.len() && before[i] == block;
        assert(all[i] == block);
    } else {
        assert((n - 1) / 16 == lx && (n - 1) % 16 == lz);
        assert(column[y] == block);
        assert(all[before.len() + y] == block);
    }
}

/// A tree of a chunk stands on the surface of its own column, away from the edges.
pub proof fn law_trees_stand_on_the_surface(
    seed: i64,
    cx: int,
    cz: int,
    heights: Seq<i32>,
    salt: u32,
    lx: int,
    lz: int,
)
    requires
        heights.len() == 256,
        forall|i: int| 0 <= i < 256 ==> 5 <= (#[trigger] heights[i]) <= 240,
        -0x800_0000 <= cx <= 0x7ff_ffff,
        -0x800_0000 <= cz <= 0x7ff_ffff,
        0 <= lx < 16,
        0 <= lz < 16,
    ensures
        tree_at(cx, cz, heights, lx, lz).0 == 16 * cx + lx,
        tree_at(cx, cz, heights, lx, lz).1 == heights[16 * lx + lz] + 1,
        tree_at(cx, cz, heights, lx, lz).2 == 16 * cz + lz,
        local_tree(seed, cx as i32, cz as i32, salt) matches Some((a, b)) ==> 2 <= a <= 13 && 2 <= b
            <= 13,
        trees_of_chunk(seed, cx, cz, heights).len() <= 2,
{
}

/// A trunk is four to six blocks of wood, one on the other, from where the tree stands.
pub proof fn law_trunks_are_four_to_six_high(x: i32, y: i32, z: i32, i: int)
    requires
        y <= i32::MAX - 7,
        0 <= i < trunk(x, y, z).len(),
    ensures
        4 <= trunk(x, y, z).len() <= 6,
        trunk(x, y, z)[i].x == x,
        trunk(x, y, z)[i].y == y + i,
        trunk(x, y, z)[i].z == z,
        trunk(x, y, z)[i].state.id == 17,
{
}

/// A canopy is the same to all four sides, covers the top of the trunk and leaves the trunk
/// itself free.
pub proof fn law_canopies_are_round(dx: int, dy: int, dz: int)
    ensures
        in_canopy(dx, dy, dz) == in_canopy(-dx, dy, dz),
        in_canopy(dx, dy, dz) == in_canopy(dx, dy, -dz),
        in_canopy(dx, dy, dz) == in_canopy(dz, dy, dx),
        in_canopy(0, 0, 0) && in_canopy(0, 1, 0),
        !in_canopy(0, -1, 0) && !in_canopy(0, -2, 0),
        in_canopy(1, 0, 1) && in_canopy(2, 0, 0) && in_canopy(2, 0, 1) && !in_canopy(2, 0, 2),
        in_canopy(dx, dy, dz) ==> -2 <= dx <= 2 && -2 <= dy <= 1 && -2 <= dz <= 2,
{
    assert(in_canopy(dx, dy, dz) ==> -2 <= dx <= 2 && -2 <= dy <= 1 && -2 <= dz <= 2);
    assert((-dx) * (-dx) == dx * dx && (-dz) * (-dz) == dz * dz) by (nonlinear_arith);
}

/// The area where a world starts is the nine chunks around its middle.
pub proof fn law_worlds_start_in_the_middle(cx: int, cz: int)
    requires
        -1 <= cx <= 1,
        -1 <= cz <= 1,
    ensures
        spawn_chunk((cz + 1) * 3 + cx + 1) == (cx, cz),
{
}

/// Animals come by turns: pigs, sheep, cows and chickens.
pub proof fn law_animals_come_by_turns(i: int)
    requires
        i >= 0,
    ensures
        90 <= animal_kind(i) <= 93,
        animal_kind(i + 4) == animal_kind(i),
        animal_kind(i + 1) == animal_kind(i) + 1 || (animal_kind(i) == 93 && animal_kind(i + 1)
            == 90),
{
}

/// The mobs of the entity demo stand on a grid of twenty-three by twenty-three, three blocks
/// apart, each with its own number.
pub proof fn law_stress_mobs_stand_on_a_grid(a: int, b: int)
    requires
        0 <= a < 23,
        0 <= b < 23,
    ensures
        ({
            let m = stress_mob(a * 23 + b);
            &&& m.x == 3 * a - 34
            &&& m.z == 3 * b - 34
            &&& m.y == 1
            &&& m.id == 100 + a * 23 + b
            &&& m.kind == stress_kind(a * 23 + b)
        }),
{
    assert((a * 23 + b) / 23 == a && (a * 23 + b) % 23 == b);
}

/// Sky light reaches from the top of each column sixteen blocks up.
pub proof fn law_hills_are_lit_from_their_top(g: Ground, range: int, heights: Seq<i32>, n: int)
    requires
        g.wf(),
        0 <= range <= 100,
        0 <= n < heights.len(),
        5 <= heights[n] <= 240,
        n < (2 * range + 1) * (2 * range + 1) * 256,
    ensures
        hill_light(g, range, heights, n).low == g.top(heights[n] as int),
        hill_light(g, range, heights, n).high == hill_light(g, range, heights, n).low + 16,
{
}

} // verus!
