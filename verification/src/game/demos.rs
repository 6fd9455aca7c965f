//! The scenes of the demo worlds: their blocks, the cells that the sky lights, their
//! trees and mobs, and where the player starts.

use vstd::prelude::*;
use super::noise::{hash2d, spec_hash2d};
use super::rules::BlockState;
use super::sections::{to_chunk, ChunkPos, Columns};
use super::terrain::{holds_blocks, in_column, lemma_both, BlockEdit};
use super::worldgen::{block, grown, plain, plantable, with_tree, DemoKind, Ground, HIGH, LOW};

verus! {

/// Chunks from the middle to the edge of each demo.
pub const LANDSCAPE_RANGE: i32 = 8;

pub const STRESS_RANGE: i32 = 10;

pub const ENTITY_RANGE: i32 = 4;

pub const TERRAIN_RANGE: i32 = 12;

// ── Columns ───────────────────────────────────────────────────────────────

/// How many columns a demo has that reaches `range` chunks from the middle.
pub open spec fn demo_size(range: int) -> int {
    (2 * range + 1) * (2 * range + 1) * 256
}

/// The `n`-th column of a demo: chunk by chunk along z, then along x, and within a
/// chunk likewise.
pub open spec fn demo_column(range: int, n: int) -> (int, int) {
    let side = 2 * range + 1;
    let k = n / 256;
    let i = n % 256;
    ((k / side - range) * 16 + i / 16, (k % side - range) * 16 + i % 16)
}

/// The place of a column in a demo.
pub open spec fn demo_index(range: int, x: int, z: int) -> int {
    ((x / 16 + range) * (2 * range + 1) + z / 16 + range) * 256 + x % 16 * 16 + z % 16
}

proof fn lemma_demo_chunk(range: int, k: int)
    requires
        0 <= range <= 100,
        0 <= k < (2 * range + 1) * (2 * range + 1),
    ensures
        0 <= k / (2 * range + 1) <= 2 * range,
        0 <= k % (2 * range + 1) <= 2 * range,
        k == (k / (2 * range + 1)) * (2 * range + 1) + k % (2 * range + 1),
{
    let side = 2 * range + 1;
    assert(0 <= k / side < side && 0 <= k % side < side && k == (k / side) * side + k % side)
        by (nonlinear_arith)
        requires
            0 <= k < side * side,
            side > 0,
    ;
}

/// Every column of a demo has its own place, which its coordinates give.
pub proof fn law_demo_columns_are_told_apart(range: int, n: int)
    requires
        0 <= range <= 100,
        0 <= n < demo_size(range),
    ensures
        ({
            let (x, z) = demo_column(range, n);
            &&& demo_index(range, x, z) == n
            &&& -16 * range <= x < 16 * range + 16
            &&& -16 * range <= z < 16 * range + 16
        }),
{
    let k = n / 256;
    lemma_demo_chunk(range, k);
    let (x, z) = demo_column(range, n);
    let side = 2 * range + 1;
    assert(x / 16 == k / side - range && x % 16 == n % 256 / 16);
    assert(z / 16 == k % side - range && z % 16 == n % 256 % 16);
}

/// The block coordinates of the `n`-th column of a demo.
pub fn column_of_demo(range: i32, n: usize) -> (place: (i32, i32))
    requires
        0 <= range <= 100,
        n < demo_size(range as int),
    ensures
        (place.0 as int, place.1 as int) == demo_column(range as int, n as int),
        -16 * range <= place.0 < 16 * range + 16,
        -16 * range <= place.1 < 16 * range + 16,
{
    let side: usize = (2 * range + 1) as usize;
    let k: usize = n / 256;
    let i: usize = n % 256;
    proof {
        lemma_demo_chunk(range as int, k as int);
    }
    let cx: i32 = (k / side) as i32 - range;
    let cz: i32 = (k % side) as i32 - range;
    (cx * 16 + (i / 16) as i32, cz * 16 + (i % 16) as i32)
}

/// How many columns a demo has.
pub fn columns_of_demo(range: i32) -> (count: usize)
    requires
        0 <= range <= 100,
    ensures
        count == demo_size(range as int),
{
    let side: usize = (2 * range + 1) as usize;
    assert(side * side * 256 <= 0x7fff_ffff) by (nonlinear_arith)
        requires
            side <= 201,
    ;
    assert(side * side <= 0x7fff_ffff) by (nonlinear_arith)
        requires
            side <= 201,
    ;
    side * side * 256
}

/// The surfaces of the columns of a demo, one each.
pub open spec fn demo_surfaces(range: int, heights: Seq<i32>) -> bool {
    &&& heights.len() == demo_size(range)
    &&& forall|i: int| 0 <= i < heights.len() ==> LOW <= (#[trigger] heights[i]) <= HIGH
}

/// The cells of a column that are fully lit, from the lowest to the highest.
#[derive(Debug, Clone, Copy, PartialEq, Eq, Structural)]
pub struct LitColumn {
    pub x: i32,
    pub z: i32,
    pub low: i32,
    pub high: i32,
}

/// A mob of a demo.
#[derive(Debug, Clone, Copy, PartialEq, Eq, Structural)]
pub struct DemoMob {
    pub id: i32,
    pub kind: u8,
    pub x: i32,
    pub y: i32,
    pub z: i32,
    /// In the middle of the block, or else on its corner.
    pub centred: bool,
    /// Degrees.
    pub yaw: u32,
}

/// A demo world.
#[derive(Debug)]
pub struct DemoWorld {
    pub blocks: Vec<BlockEdit>,
    /// Where trees grow: the lowest block of each trunk.
    pub trees: Vec<(i32, i32, i32)>,
    /// What the sky lights.
    pub lit: Vec<LitColumn>,
    pub mobs: Vec<DemoMob>,
    /// The block in whose middle the player starts, at its lower face.
    pub spawn: (i32, i32, i32),
}

/// All blocks of a demo world, those of its trees too.
pub open spec fn scenery(d: DemoWorld) -> Seq<BlockEdit> {
    d.blocks@ + grown(d.trees@, d.trees@.len() as int)
}

// ── Hills ─────────────────────────────────────────────────────────────────

/// The ground of the landscape demo.
pub open spec fn landscape_ground() -> Ground {
    Ground { seed: 42, coal: 80, iron: 120, water_level: 60 }
}

/// The ground of the terrain demo.
pub open spec fn terrain_ground() -> Ground {
    Ground { seed: 42, coal: 80, iron: 120, water_level: 56 }
}

/// The blocks of the first `n` columns.
pub open spec fn hill_blocks(g: Ground, range: int, heights: Seq<i32>, n: int) -> Seq<BlockEdit>
    decreases n,
{
    if n <= 0 {
        Seq::empty()
    } else {
        let (x, z) = demo_column(range, n - 1);
        hill_blocks(g, range, heights, n - 1) + g.column(x as i32, z as i32, heights[n - 1] as int)
    }
}

/// What the sky lights in the `n`-th column: from its surface, or the water over it,
/// to sixteen above.
pub open spec fn hill_light(g: Ground, range: int, heights: Seq<i32>, n: int) -> LitColumn {
    let (x, z) = demo_column(range, n);
    let top = g.top(heights[n] as int);
    LitColumn { x: x as i32, z: z as i32, low: top as i32, high: (top + 16) as i32 }
}

/// The tree that a seed grows in the `k`-th chunk: within the demo, and on dry grass.
pub open spec fn hill_tree(g: Ground, range: int, heights: Seq<i32>, k: int, seed: u32) -> Option<
    (i32, i32, i32),
> {
    let side = 2 * range + 1;
    let cx = k / side - range;
    let cz = k % side - range;
    let r = spec_hash2d(cx as i32, cz as i32, seed);
    let lx = r as int % 14 + 1;
    let lz = (r >> 8) as int % 14 + 1;
    let x = cx * 16 + lx;
    let z = cz * 16 + lz;
    let h = heights[k * 256 + lx * 16 + lz];
    if -16 * range <= x <= 16 * range && -16 * range <= z <= 16 * range && h > g.water_level + 2 {
        Some((x as i32, (h + 1) as i32, z as i32))
    } else {
        None
    }
}

/// The trees of the first `n` chunks: up to two in each.
pub open spec fn hill_trees(g: Ground, range: int, heights: Seq<i32>, n: int) -> Seq<(i32, i32, i32)>
    decreases n,
{
    if n <= 0 {
        Seq::empty()
    } else {
        with_tree(
            with_tree(
                hill_trees(g, range, heights, n - 1),
                hill_tree(g, range, heights, n - 1, 111),
            ),
            hill_tree(g, range, heights, n - 1, 222),
        )
    }
}

/// Hills of a ground over a range, with these surfaces.
pub open spec fn hills_built(g: Ground, range: int, heights: Seq<i32>, hills: DemoWorld) -> bool {
    &&& hills.blocks@ == hill_blocks(g, range, heights, demo_size(range))
    &&& hills.lit@ == Seq::new(
        demo_size(range) as nat,
        |n: int| hill_light(g, range, heights, n),
    )
    &&& hills.trees@ == hill_trees(g, range, heights, (2 * range + 1) * (2 * range + 1))
    &&& forall|i: int| 0 <= i < hills.trees@.len() ==> plantable(#[trigger] hills.trees@[i])
}

/// The tree that a seed grows in the `k`-th chunk.
fn tree_in(g: &Ground, range: i32, heights: &Vec<i32>, k: usize, seed: u32) -> (tree: Option<
    (i32, i32, i32),
>)
    requires
        g.wf(),
        0 <= range <= 100,
        k < (2 * range + 1) * (2 * range + 1),
        demo_surfaces(range as int, heights@),
    ensures
        tree == hill_tree(*g, range as int, heights@, k as int, seed),
        tree matches Some(t) ==> plantable(t),
{
    let side: usize = (2 * range + 1) as usize;
    proof {
        lemma_demo_chunk(range as int, k as int);
    }
    let cx: i32 = (k / side) as i32 - range;
    let cz: i32 = (k % side) as i32 - range;
    let r = hash2d(cx, cz, seed);
    let lx: i32 = (r % 14 + 1) as i32;
    let lz: i32 = ((r >> 8) % 14 + 1) as i32;
    let x: i32 = cx * 16 + lx;
    let z: i32 = cz * 16 + lz;
    assert(k * 256 + 255 < heights@.len() == heights.len());
    let at: usize = k * 256 + (lx * 16 + lz) as usize;
    let h: i32 = heights[at];
    let edge: i32 = 16 * range;
    if -edge <= x && x <= edge && -edge <= z && z <= edge && h > g.water_level + 2 {
        Some((x, h + 1, z))
    } else {
        None
    }
}

/// Hills of a ground over a range, with these surfaces.
fn build_hills(g: &Ground, range: i32, heights: &Vec<i32>) -> (hills: DemoWorld)
    requires
        g.wf(),
        0 <= range <= 100,
        demo_surfaces(range as int, heights@),
    ensures
        hills_built(*g, range as int, heights@, hills),
        hills.mobs@ == Seq::<DemoMob>::empty(),
{
    let count = columns_of_demo(range);
    let mut blocks: Vec<BlockEdit> = Vec::new();
    let mut lit: Vec<LitColumn> = Vec::new();
    let mut n: usize = 0;
    while n < count
        invariant
            n <= count,
            count == demo_size(range as int),
            0 <= range <= 100,
            g.wf(),
            demo_surfaces(range as int, heights@),
            blocks@ == hill_blocks(*g, range as int, heights@, n as int),
            lit@ == Seq::new(n as nat, |i: int| hill_light(*g, range as int, heights@, i)),
        decreases count - n,
    {
        let (x, z) = column_of_demo(range, n);
        let h: i32 = heights[n];
        g.push_column(x, z, h, &mut blocks);
        let top: i32 = if h < g.water_level {
            g.water_level
        } else {
            h
        };
        lit.push(LitColumn { x, z, low: top, high: top + 16 });
        n += 1;
        assert(lit@ =~= Seq::new(n as nat, |i: int| hill_light(*g, range as int, heights@, i)));
    }
    let chunks: usize = count / 256;
    assert(chunks == (2 * range + 1) * (2 * range + 1));
    let mut trees: Vec<(i32, i32, i32)> = Vec::new();
    let mut k: usize = 0;
    while k < chunks
        invariant
            k <= chunks,
            chunks == (2 * range + 1) * (2 * range + 1),
            0 <= range <= 100,
            g.wf(),
            demo_surfaces(range as int, heights@),
            trees@ == hill_trees(*g, range as int, heights@, k as int),
            forall|i: int| 0 <= i < trees@.len() ==> plantable(#[trigger] trees@[i]),
        decreases chunks - k,
    {
        if let Some(tree) = tree_in(g, range, heights, k, 111) {
            trees.push(tree);
        }
        if let Some(tree) = tree_in(g, range, heights, k, 222) {
            trees.push(tree);
        }
        k += 1;
    }
    DemoWorld { blocks, lit, trees, mobs: Vec::new(), spawn: (0, 0, 0) }
}

/// The terrain demo, given its surfaces: a large rolling landscape. The player hovers
/// high over its middle.
pub fn build_demo_terrain(heights: &Vec<i32>) -> (demo: DemoWorld)
    requires
        demo_surfaces(TERRAIN_RANGE as int, heights@),
    ensures
        terrain_built(heights@, demo),
{
    let g = Ground { seed: 42, coal: 80, iron: 120, water_level: 56 };
    let mut demo = build_hills(&g, TERRAIN_RANGE, heights);
    demo.spawn = (0, 104, 0);
    demo
}

/// The terrain demo.
pub open spec fn terrain_built(heights: Seq<i32>, demo: DemoWorld) -> bool {
    &&& hills_built(terrain_ground(), TERRAIN_RANGE as int, heights, demo)
    &&& demo.mobs@ == Seq::<DemoMob>::empty()
    &&& demo.spawn == (0i32, 104i32, 0i32)
}

/// Trees grow above the water, on the column they stand in.
pub proof fn law_demo_trees_stand_on_dry_ground(
    g: Ground,
    range: int,
    heights: Seq<i32>,
    k: int,
    seed: u32,
)
    requires
        0 <= range <= 100,
        demo_surfaces(range, heights),
        0 <= k < (2 * range + 1) * (2 * range + 1),
    ensures
        hill_tree(g, range, heights, k, seed) matches Some(t) ==> {
            &&& t.1 == heights[demo_index(range, t.0 as int, t.2 as int)] + 1
            &&& t.1 > g.water_level + 3
            &&& -16 * range <= t.0 <= 16 * range
            &&& -16 * range <= t.2 <= 16 * range
        },
{
    lemma_demo_chunk(range, k);
}

// ── The landscape ─────────────────────────────────────────────────────────

/// Pig, sheep, cow, chicken.
pub open spec fn animal_kind(i: int) -> u8 {
    if i % 4 == 0 {
        90
    } else if i % 4 == 1 {
        91
    } else if i % 4 == 2 {
        92
    } else {
        93
    }
}

/// The column whose surface an animal in the middle of block `b` stands on, along one
/// axis: the middle, rounded toward zero.
pub open spec fn footing(b: int) -> int {
    if b < 0 {
        b + 1
    } else {
        b
    }
}

/// The `i`-th animal of the landscape, with the number `id`: in the middle of a block
/// of the surface, unless that is under water.
pub open spec fn landscape_animal(heights: Seq<i32>, i: int, id: int) -> Option<DemoMob> {
    let r = spec_hash2d(i as i32, (i * 7 + 3) as i32, 555);
    let x = r as int % 80 - 40;
    let z = (r >> 8) as int % 80 - 40;
    let h = heights[demo_index(LANDSCAPE_RANGE as int, footing(x), footing(z))];
    if h > 60 {
        Some(
            DemoMob {
                id: id as i32,
                kind: animal_kind(i),
                x: x as i32,
                y: (h + 1) as i32,
                z: z as i32,
                centred: true,
                yaw: r % 360,
            },
        )
    } else {
        None
    }
}

/// The first `n` animals of the landscape, numbered from a hundred.
pub open spec fn landscape_animals(heights: Seq<i32>, n: int) -> Seq<DemoMob>
    decreases n,
{
    if n <= 0 {
        Seq::empty()
    } else {
        let rest = landscape_animals(heights, n - 1);
        match landscape_animal(heights, n - 1, 100 + rest.len() as int) {
            Some(animal) => rest.push(animal),
            None => rest,
        }
    }
}

/// The landscape demo.
pub open spec fn landscape_built(heights: Seq<i32>, demo: DemoWorld) -> bool {
    let middle = heights[demo_index(LANDSCAPE_RANGE as int, 0, 0)] as int;
    &&& hills_built(landscape_ground(), LANDSCAPE_RANGE as int, heights, demo)
    &&& demo.mobs@ == landscape_animals(heights, 24)
    &&& demo.spawn == (0i32, (landscape_ground().top(middle) + 2) as i32, 0i32)
}

/// The surface of a column of the landscape.
fn landscape_surface(heights: &Vec<i32>, x: i32, z: i32) -> (h: i32)
    requires
        demo_surfaces(LANDSCAPE_RANGE as int, heights@),
        -128 <= x < 144,
        -128 <= z < 144,
    ensures
        h == heights@[demo_index(LANDSCAPE_RANGE as int, x as int, z as int)],
        LOW <= h <= HIGH,
{
    let cx = to_chunk(x);
    let cz = to_chunk(z);
    let at: i32 = ((cx + 8) * 17 + cz + 8) * 256 + (x - 16 * cx) * 16 + (z - 16 * cz);
    assert(at == demo_index(8, x as int, z as int));
    assert(0 <= at < 73984 == heights@.len());
    heights[at as usize]
}

/// The landscape demo, given its surfaces: hills, lakes, trees and up to twenty-four
/// animals. The player starts above the ground or the water in the middle.
pub fn build_demo_landscape(heights: &Vec<i32>) -> (demo: DemoWorld)
    requires
        demo_surfaces(LANDSCAPE_RANGE as int, heights@),
    ensures
        landscape_built(heights@, demo),
{
    let g = Ground { seed: 42, coal: 80, iron: 120, water_level: 60 };
    let mut demo = build_hills(&g, LANDSCAPE_RANGE, heights);
    let mut animals: Vec<DemoMob> = Vec::new();
    let mut i: i32 = 0;
    while i < 24
        invariant
            0 <= i <= 24,
            demo_surfaces(LANDSCAPE_RANGE as int, heights@),
            animals@.len() <= i,
            animals@ == landscape_animals(heights@, i as int),
        decreases 24 - i,
    {
        let r = hash2d(i, i * 7 + 3, 555);
        let x: i32 = (r % 80) as i32 - 40;
        let z: i32 = ((r >> 8) % 80) as i32 - 40;
        let fx: i32 = if x < 0 {
            x + 1
        } else {
            x
        };
        let fz: i32 = if z < 0 {
            z + 1
        } else {
            z
        };
        let h = landscape_surface(heights, fx, fz);
        if h > 60 {
            let kind: u8 = match i % 4 {
                0 => 90,
                1 => 91,
                2 => 92,
                _ => 93,
            };
            let id: i32 = 100 + animals.len() as i32;
            animals.push(DemoMob { id, kind, x, y: h + 1, z, centred: true, yaw: r % 360 });
        }
        i += 1;
    }
    let middle = landscape_surface(heights, 0, 0);
    let spawn_y: i32 = if middle < 60 {
        62
    } else {
        middle + 2
    };
    demo.mobs = animals;
    demo.spawn = (0, spawn_y, 0);
    demo
}

/// The animals of the landscape have numbers of their own, from a hundred on, and stand
/// above the water.
pub proof fn law_landscape_animals_are_numbered(heights: Seq<i32>, n: int, i: int)
    requires
        demo_surfaces(LANDSCAPE_RANGE as int, heights),
        0 <= n <= 24,
        0 <= i < landscape_animals(heights, n).len(),
    ensures
        landscape_animals(heights, n).len() <= n,
        landscape_animals(heights, n)[i].id == 100 + i,
        landscape_animals(heights, n)[i].y > 61,
    decreases n,
{
    lemma_animal_count(heights, n);
    if n > 0 {
        lemma_animal_count(heights, n - 1);
        lemma_animal(heights, n - 1, 100 + landscape_animals(heights, n - 1).len() as int);
        if i < landscape_animals(heights, n - 1).len() {
            law_landscape_animals_are_numbered(heights, n - 1, i);
        }
    }
}

proof fn lemma_animal(heights: Seq<i32>, i: int, id: int)
    requires
        demo_surfaces(LANDSCAPE_RANGE as int, heights),
        0 <= id <= 1000,
    ensures
        landscape_animal(heights, i, id) matches Some(mob) ==> mob.id == id && mob.y > 61,
{
    let r = spec_hash2d(i as i32, (i * 7 + 3) as i32, 555);
    lemma_middle_surface(heights, r as int % 80 - 40, (r >> 8) as int % 80 - 40);
}

proof fn lemma_middle_surface(heights: Seq<i32>, x: int, z: int)
    requires
        demo_surfaces(LANDSCAPE_RANGE as int, heights),
        -40 <= x < 40,
        -40 <= z < 40,
    ensures
        LOW <= heights[demo_index(LANDSCAPE_RANGE as int, footing(x), footing(z))] <= HIGH,
{
    let (fx, fz) = (footing(x), footing(z));
    assert(-3 <= fx / 16 <= 2);
    assert(-3 <= fz / 16 <= 2);
    let at = demo_index(8, fx, fz);
    assert(0 <= at < 73984);
    assert(heights.len() == 73984);
}

proof fn lemma_animal_count(heights: Seq<i32>, n: int)
    requires
        n >= 0,
    ensures
        landscape_animals(heights, n).len() <= n,
    decreases n,
{
    if n > 0 {
        lemma_animal_count(heights, n - 1);
    }
}

// ── Mobs on flat ground ───────────────────────────────────────────────────

/// The mobs of the entity demo come in these kinds, in turn.
pub open spec fn stress_kind(i: int) -> u8 {
    let k = i % 10;
    if k == 0 {
        50
    } else if k == 1 {
        51
    } else if k == 2 {
        52
    } else if k == 3 {
        54
    } else if k == 4 {
        90
    } else if k == 5 {
        91
    } else if k == 6 {
        92
    } else if k == 7 {
        93
    } else if k == 8 {
        95
    } else {
        120
    }
}

/// Mobs along a side of the entity demo.
pub const MOB_GRID: i32 = 23;

/// The `k`-th mob of the entity demo: on a grid three blocks apart, around the middle. It
/// stands on the corner of four blocks.
pub open spec fn stress_mob(k: int) -> DemoMob {
    DemoMob {
        id: (100 + k) as i32,
        kind: stress_kind(k),
        x: (3 * (k / 23) - 34) as i32,
        y: 1,
        z: (3 * (k % 23) - 34) as i32,
        centred: false,
        yaw: spec_hash2d((k / 23) as i32, (k % 23) as i32, 999) % 360,
    }
}

/// The grass of the `n`-th column of the entity demo.
pub open spec fn flat_block(n: int) -> BlockEdit {
    let (x, z) = demo_column(ENTITY_RANGE as int, n);
    BlockEdit { x: x as i32, y: 0, z: z as i32, state: block(2) }
}

/// The lit cells of the `n`-th column of the entity demo.
pub open spec fn flat_light(n: int) -> LitColumn {
    let (x, z) = demo_column(ENTITY_RANGE as int, n);
    LitColumn { x: x as i32, z: z as i32, low: 1, high: 3 }
}

/// The entity demo.
pub open spec fn entities_built(demo: DemoWorld) -> bool {
    let size = demo_size(ENTITY_RANGE as int) as nat;
    &&& demo.blocks@ == Seq::new(size, |n: int| flat_block(n))
    &&& demo.trees@ == Seq::<(i32, i32, i32)>::empty()
    &&& demo.lit@ == Seq::new(size, |n: int| flat_light(n))
    &&& demo.mobs@ == Seq::new(529, |k: int| stress_mob(k))
    &&& demo.spawn == (0i32, 2i32, 0i32)
}

/// The entity demo: flat grass with a grid of mobs.
pub fn build_demo_entity_stress() -> (demo: DemoWorld)
    ensures
        entities_built(demo),
{
    let count = columns_of_demo(ENTITY_RANGE);
    let mut blocks: Vec<BlockEdit> = Vec::new();
    let mut lit: Vec<LitColumn> = Vec::new();
    let mut n: usize = 0;
    while n < count
        invariant
            n <= count,
            count == demo_size(ENTITY_RANGE as int),
            blocks@ == Seq::new(n as nat, |n: int| flat_block(n)),
            lit@ == Seq::new(n as nat, |n: int| flat_light(n)),
        decreases count - n,
    {
        let (x, z) = column_of_demo(ENTITY_RANGE, n);
        blocks.push(BlockEdit { x, y: 0, z, state: plain(2) });
        lit.push(LitColumn { x, z, low: 1, high: 3 });
        n += 1;
        assert(blocks@ =~= Seq::new(n as nat, |n: int| flat_block(n)));
        assert(lit@ =~= Seq::new(n as nat, |n: int| flat_light(n)));
    }
    let mut mobs: Vec<DemoMob> = Vec::new();
    let mut k: i32 = 0;
    while k < 529
        invariant
            0 <= k <= 529,
            mobs@ == Seq::new(k as nat, |j: int| stress_mob(j)),
        decreases 529 - k,
    {
        let ix: i32 = k / 23;
        let iz: i32 = k % 23;
        let kind: u8 = match k % 10 {
            0 => 50,
            1 => 51,
            2 => 52,
            3 => 54,
            4 => 90,
            5 => 91,
            6 => 92,
            7 => 93,
            8 => 95,
            _ => 120,
        };
        let yaw = hash2d(ix, iz, 999) % 360;
        mobs.push(
            DemoMob {
                id: 100 + k,
                kind,
                x: 3 * ix - 34,
                y: 1,
                z: 3 * iz - 34,
                centred: false,
                yaw,
            },
        );
        k += 1;
        assert(mobs@ =~= Seq::new(k as nat, |j: int| stress_mob(j)));
    }
    assert(mobs@ =~= Seq::new(529, |j: int| stress_mob(j)));
    DemoWorld { blocks, trees: Vec::new(), lit, mobs, spawn: (0, 2, 0) }
}

// ── The checkerboard ──────────────────────────────────────────────────────

/// The block of the checkerboard demo at a position: every second cell up to
/// height 48 is filled, with a kind per layer; bedrock below.
pub open spec fn spec_checker(x: int, y: int, z: int) -> Option<BlockState> {
    if y == 0 {
        Some(block(7))
    } else if 1 <= y <= 48 && (x + y + z) % 2 == 0 {
        Some(
            if y % 6 == 0 {
                block(1)
            } else if y % 6 == 1 {
                block(4)
            } else if y % 6 == 2 {
                block(98)
            } else if y % 6 == 3 {
                block(18)
            } else if y % 6 == 4 {
                block(20)
            } else {
                BlockState {
                    id: 95,
                    meta: ((if x < 0 {
                        -x
                    } else {
                        x
                    }) % 16) as u8,
                }
            },
        )
    } else {
        None
    }
}

/// The block of the checkerboard demo at a position.
pub fn checker(x: i32, y: i32, z: i32) -> (b: Option<BlockState>)
    requires
        -1000 <= x <= 1000,
        0 <= y <= 255,
        -1000 <= z <= 1000,
    ensures
        b == spec_checker(x as int, y as int, z as int),
{
    if y == 0 {
        return Some(plain(7));
    }
    // An even number keeps the sum positive.
    let sum: i32 = x + y + z + 4000;
    assert(sum % 2 == (x + y + z) % 2);
    if y > 48 || sum % 2 != 0 {
        return None;
    }
    let size: i32 = if x < 0 {
        -x
    } else {
        x
    };
    Some(
        match y % 6 {
            0 => plain(1),
            1 => plain(4),
            2 => plain(98),
            3 => plain(18),
            4 => plain(20),
            _ => BlockState { id: 95, meta: (size % 16) as u8 },
        },
    )
}

/// The blocks of a column of the checkerboard below height `n`, from the bottom up.
pub open spec fn checker_column(x: int, z: int, n: int) -> Seq<BlockEdit>
    decreases n,
{
    if n <= 0 {
        Seq::empty()
    } else {
        match spec_checker(x, n - 1, z) {
            Some(state) => checker_column(x, z, n - 1).push(
                BlockEdit { x: x as i32, y: (n - 1) as i32, z: z as i32, state },
            ),
            None => checker_column(x, z, n - 1),
        }
    }
}

/// The blocks of the first `n` columns of the checkerboard.
pub open spec fn checker_blocks(n: int) -> Seq<BlockEdit>
    decreases n,
{
    if n <= 0 {
        Seq::empty()
    } else {
        let (x, z) = demo_column(STRESS_RANGE as int, n - 1);
        checker_blocks(n - 1) + checker_column(x, z, 49)
    }
}

/// The lit cells of the `n`-th column of the checkerboard.
pub open spec fn checker_light(n: int) -> LitColumn {
    let (x, z) = demo_column(STRESS_RANGE as int, n);
    LitColumn { x: x as i32, z: z as i32, low: 49, high: 64 }
}

/// The checkerboard demo.
pub open spec fn checkerboard_built(demo: DemoWorld) -> bool {
    let size = demo_size(STRESS_RANGE as int);
    &&& demo.blocks@ == checker_blocks(size)
    &&& demo.trees@ == Seq::<(i32, i32, i32)>::empty()
    &&& demo.lit@ == Seq::new(size as nat, |n: int| checker_light(n))
    &&& demo.mobs@ == Seq::<DemoMob>::empty()
    &&& demo.spawn == (0i32, 52i32, 0i32)
}

/// The checkerboard demo: as many faces as blocks can show.
pub fn build_demo_chunk_stress() -> (demo: DemoWorld)
    ensures
        checkerboard_built(demo),
{
    let count = columns_of_demo(STRESS_RANGE);
    let mut blocks: Vec<BlockEdit> = Vec::new();
    let mut lit: Vec<LitColumn> = Vec::new();
    let mut n: usize = 0;
    while n < count
        invariant
            n <= count,
            count == demo_size(STRESS_RANGE as int),
            blocks@ == checker_blocks(n as int),
            lit@ == Seq::new(n as nat, |n: int| checker_light(n)),
        decreases count - n,
    {
        let (x, z) = column_of_demo(STRESS_RANGE, n);
        let ghost before = blocks@;
        let mut y: i32 = 0;
        assert(blocks@ =~= before + checker_column(x as int, z as int, 0));
        while y < 49
            invariant
                0 <= y <= 49,
                -1000 <= x <= 1000,
                -1000 <= z <= 1000,
                blocks@ == before + checker_column(x as int, z as int, y as int),
            decreases 49 - y,
        {
            let cell = checker(x, y, z);
            if let Some(state) = cell {
                blocks.push(BlockEdit { x, y, z, state });
            }
            y += 1;
            assert(blocks@ =~= before + checker_column(x as int, z as int, y as int));
        }
        lit.push(LitColumn { x, z, low: 49, high: 64 });
        n += 1;
        assert(lit@ =~= Seq::new(n as nat, |n: int| checker_light(n)));
    }
    DemoWorld { blocks, trees: Vec::new(), lit, mobs: Vec::new(), spawn: (0, 52, 0) }
}

/// No two neighbours of the checkerboard are both filled.
pub proof fn law_checkerboard_neighbours_differ(x: int, y: int, z: int)
    requires
        1 <= y < 48,
    ensures
        spec_checker(x, y, z) is Some != spec_checker(x + 1, y, z) is Some,
        spec_checker(x, y, z) is Some != spec_checker(x, y + 1, z) is Some,
        spec_checker(x, y, z) is Some != spec_checker(x, y, z + 1) is Some,
{
}

// ── A single block ────────────────────────────────────────────────────────

/// The one block of the single-block demo.
pub open spec fn lone_block() -> BlockEdit {
    BlockEdit { x: 0, y: 64, z: 0, state: block(1) }
}

/// The single-block demo: its block, and the cells that are lit in full, seventeen high
/// where it stands and as many behind it. The player hovers in front of it.
pub open spec fn cube_built(demo: DemoWorld) -> bool {
    &&& demo.blocks@ == seq![lone_block()]
    &&& demo.trees@ == Seq::<(i32, i32, i32)>::empty()
    &&& demo.lit@ == seq![
        LitColumn { x: 0, z: 0, low: 64, high: 80 },
        LitColumn { x: 0, z: 5, low: 64, high: 80 },
    ]
    &&& demo.mobs@ == Seq::<DemoMob>::empty()
    &&& demo.spawn == (0i32, 64i32, -6i32)
}

/// The single-block demo.
pub fn build_demo_single_cube() -> (demo: DemoWorld)
    ensures
        cube_built(demo),
{
    let mut blocks: Vec<BlockEdit> = Vec::new();
    blocks.push(BlockEdit { x: 0, y: 64, z: 0, state: plain(1) });
    let mut lit: Vec<LitColumn> = Vec::new();
    lit.push(LitColumn { x: 0, z: 0, low: 64, high: 80 });
    lit.push(LitColumn { x: 0, z: 5, low: 64, high: 80 });
    assert(blocks@ =~= seq![lone_block()]);
    assert(lit@ =~= seq![
        LitColumn { x: 0, z: 0, low: 64, high: 80 },
        LitColumn { x: 0, z: 5, low: 64, high: 80 },
    ]);
    DemoWorld { blocks, trees: Vec::new(), lit, mobs: Vec::new(), spawn: (0, 64, -6) }
}

// ── Each of them ──────────────────────────────────────────────────────────

/// The surfaces that a demo is built on; those without hills need none.
pub open spec fn surfaces_for(kind: DemoKind, heights: Seq<i32>) -> bool {
    match kind {
        DemoKind::Landscape => demo_surfaces(LANDSCAPE_RANGE as int, heights),
        DemoKind::Terrain => demo_surfaces(TERRAIN_RANGE as int, heights),
        _ => true,
    }
}

/// A demo of a kind.
pub open spec fn demo_built(kind: DemoKind, heights: Seq<i32>, demo: DemoWorld) -> bool {
    match kind {
        DemoKind::Landscape => landscape_built(heights, demo),
        DemoKind::Terrain => terrain_built(heights, demo),
        DemoKind::EntityStress => entities_built(demo),
        DemoKind::ChunkStress => checkerboard_built(demo),
        DemoKind::SingleCube => cube_built(demo),
    }
}

/// Build a demo, given its surfaces.
pub fn build_demo(kind: DemoKind, heights: &Vec<i32>) -> (demo: DemoWorld)
    requires
        surfaces_for(kind, heights@),
    ensures
        demo_built(kind, heights@, demo),
{
    match kind {
        DemoKind::Landscape => build_demo_landscape(heights),
        DemoKind::Terrain => build_demo_terrain(heights),
        DemoKind::EntityStress => build_demo_entity_stress(),
        DemoKind::ChunkStress => build_demo_chunk_stress(),
        DemoKind::SingleCube => build_demo_single_cube(),
    }
}

/// The columns a demo needs the surfaces of: chunks from its middle to its edge, if it has
/// hills.
pub fn hills_range(kind: DemoKind) -> (range: Option<i32>)
    ensures
        range == match kind {
            DemoKind::Landscape => Some(LANDSCAPE_RANGE),
            DemoKind::Terrain => Some(TERRAIN_RANGE),
            _ => None,
        },
{
    match kind {
        DemoKind::Landscape => Some(LANDSCAPE_RANGE),
        DemoKind::Terrain => Some(TERRAIN_RANGE),
        _ => None,
    }
}

/// Chunks from the middle to the edge of a demo.
pub open spec fn demo_range(kind: DemoKind) -> int {
    match kind {
        DemoKind::Landscape => LANDSCAPE_RANGE as int,
        DemoKind::Terrain => TERRAIN_RANGE as int,
        DemoKind::EntityStress => ENTITY_RANGE as int,
        DemoKind::ChunkStress => STRESS_RANGE as int,
        DemoKind::SingleCube => 0,
    }
}

/// The place of the first column of a chunk.
proof fn lemma_first_of_chunk(range: int, c: ChunkPos) -> (n: int)
    requires
        0 <= range <= 100,
        -range <= c.x <= range,
        -range <= c.z <= range,
    ensures
        0 <= n < demo_size(range),
        demo_column(range, n) == (c.x * 16, c.z * 16),
{
    let side = 2 * range + 1;
    let p = c.x + range;
    let q = c.z + range;
    let k = p * side + q;
    assert(0 <= k < side * side && k / side == p && k % side == q) by (nonlinear_arith)
        requires
            k == p * side + q,
            0 <= p < side,
            0 <= q < side,
    ;
    k * 256
}

proof fn lemma_hill_at(g: Ground, range: int, heights: Seq<i32>, n: int, size: int)
    requires
        0 <= n < size,
        g.wf(),
        LOW <= heights[n] <= HIGH,
    ensures
        ({
            let (x, z) = demo_column(range, n);
            let e = BlockEdit { x: x as i32, y: 0, z: z as i32, state: block(7) };
            in_column(hill_blocks(g, range, heights, size), e.spec_column())
        }),
    decreases size,
{
    let (x, z) = demo_column(range, size - 1);
    let rest = hill_blocks(g, range, heights, size - 1);
    let more = g.column(x as i32, z as i32, heights[size - 1] as int);
    lemma_both(rest, more);
    if n < size - 1 {
        lemma_hill_at(g, range, heights, n, size - 1);
    } else {
        assert(more[0].inside());
    }
}

proof fn lemma_checker_at(n: int, size: int)
    requires
        0 <= n < size,
    ensures
        ({
            let (x, z) = demo_column(STRESS_RANGE as int, n);
            let e = BlockEdit { x: x as i32, y: 0, z: z as i32, state: block(7) };
            in_column(checker_blocks(size), e.spec_column())
        }),
    decreases size,
{
    let (x, z) = demo_column(STRESS_RANGE as int, size - 1);
    lemma_both(checker_blocks(size - 1), checker_column(x, z, 49));
    if n < size - 1 {
        lemma_checker_at(n, size - 1);
    } else {
        lemma_checker_floor(x, z, 49);
    }
}

/// The lowest block of a column of the checkerboard.
proof fn lemma_checker_floor(x: int, z: int, n: int)
    requires
        n >= 1,
    ensures
        checker_column(x, z, n).len() > 0,
        checker_column(x, z, n)[0] == (BlockEdit {
            x: x as i32,
            y: 0,
            z: z as i32,
            state: block(7),
        }),
    decreases n,
{
    if n > 1 {
        lemma_checker_floor(x, z, n - 1);
    } else {
        reveal_with_fuel(checker_column, 2);
    }
}

/// All chunks of a demo are there from the start.
pub proof fn law_a_demo_starts_with_its_chunks(
    kind: DemoKind,
    heights: Seq<i32>,
    demo: DemoWorld,
    columns: Columns,
    c: ChunkPos,
)
    requires
        surfaces_for(kind, heights),
        demo_built(kind, heights, demo),
        holds_blocks(columns, scenery(demo)),
        -demo_range(kind) <= c.x <= demo_range(kind),
        -demo_range(kind) <= c.z <= demo_range(kind),
    ensures
        columns.loaded(c),
{
    let range = demo_range(kind);
    let n = lemma_first_of_chunk(range, c);
    let (x, z) = demo_column(range, n);
    let e = BlockEdit { x: x as i32, y: 0, z: z as i32, state: block(7) };
    assert(e.spec_column() == c);
    lemma_both(demo.blocks@, grown(demo.trees@, demo.trees@.len() as int));
    match kind {
        DemoKind::Landscape => {
            lemma_hill_at(landscape_ground(), range, heights, n, demo_size(range));
        },
        DemoKind::Terrain => {
            lemma_hill_at(terrain_ground(), range, heights, n, demo_size(range));
        },
        DemoKind::EntityStress => {
            assert(demo.blocks@[n].spec_column() == c && demo.blocks@[n].inside());
        },
        DemoKind::ChunkStress => {
            lemma_checker_at(n, demo_size(range));
        },
        DemoKind::SingleCube => {
            assert(demo.blocks@[0].spec_column() == c && demo.blocks@[0].inside());
        },
    }
}

} // verus!
