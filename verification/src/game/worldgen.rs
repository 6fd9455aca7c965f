//! Generated terrain: what blocks stand in a column of a given height, and where
//! trees grow.

use vstd::prelude::*;
use super::noise::{hash2d, spec_hash2d};
use super::rules::BlockState;
use super::sections::{ChunkPos, Columns, SectionPos};
use super::terrain::{
    blocks_entered, enter_blocks, holds_blocks, in_column, in_section, lemma_both, BlockEdit,
};

verus! {

/// The demo worlds.
#[derive(Debug, Clone, Copy, PartialEq, Eq, Structural)]
pub enum DemoKind {
    /// Hills, a lake, trees and animals.
    Landscape,
    /// A dense checkerboard.
    ChunkStress,
    /// Hundreds of mobs on flat ground.
    EntityStress,
    /// A large rolling landscape seen from above.
    Terrain,
    /// A single block.
    SingleCube,
}

/// The lowest and highest surface of a column.
pub const LOW: i32 = 5;

pub const HIGH: i32 = 240;

pub open spec fn block(id: u16) -> BlockState {
    BlockState { id, meta: 0 }
}

pub fn plain(id: u16) -> (b: BlockState)
    ensures
        b == block(id),
{
    BlockState { id, meta: 0 }
}

/// The ground a column is made of.
#[derive(Debug, Clone, Copy, PartialEq, Eq, Structural)]
pub struct Ground {
    /// Seeds the ores.
    pub seed: u32,
    /// One stone in this many is coal.
    pub coal: u32,
    /// One of the others in this many is iron.
    pub iron: u32,
    /// Lakes fill up to here; no lakes where it is below the lowest surface.
    pub water_level: i32,
}

/// The ground of the generated world.
pub open spec fn local_ground(seed: i64) -> Ground {
    Ground { seed: (seed as u32) ^ 0x9e37_79b9, coal: 96, iron: 160, water_level: 0 }
}

impl Ground {
    pub open spec fn wf(self) -> bool {
        self.coal > 0 && self.iron > 0 && -1000 <= self.water_level <= 255
    }

    /// A shore or lake bed: sand instead of dirt and grass.
    pub open spec fn near_water(self, h: int) -> bool {
        h <= self.water_level + 2
    }

    /// The stone of a cell, sometimes an ore.
    pub open spec fn stone(self, x: i32, y: int, z: int) -> BlockState {
        let r = spec_hash2d(x, (y * 37 + z) as i32, self.seed);
        if r % self.coal == 0 {
            block(16)
        } else if r % self.iron == 0 {
            block(15)
        } else {
            block(1)
        }
    }

    /// How high a column reaches: its surface or the water above it.
    pub open spec fn top(self, h: int) -> int {
        if h < self.water_level {
            self.water_level as int
        } else {
            h
        }
    }

    /// The block at height `y` of a column whose surface is at `h`: bedrock, stone,
    /// three layers of dirt or sand, the surface, and water over a lake bed.
    pub open spec fn cell(self, x: i32, y: int, z: int, h: int) -> BlockState {
        let fill = if self.near_water(h) {
            block(12)
        } else {
            block(3)
        };
        if y == 0 {
            block(7)
        } else if y < h - 3 {
            self.stone(x, y, z)
        } else if y < h {
            fill
        } else if y == h {
            if self.near_water(h) {
                fill
            } else {
                block(2)
            }
        } else {
            block(9)
        }
    }

    /// The blocks of a column from the bottom up.
    pub open spec fn column(self, x: i32, z: i32, h: int) -> Seq<BlockEdit> {
        Seq::new(
            (self.top(h) + 1) as nat,
            |y: int| BlockEdit { x, y: y as i32, z, state: self.cell(x, y, z as int, h) },
        )
    }

    /// The block at a height of a column.
    pub fn block_at(&self, x: i32, y: i32, z: i32, h: i32) -> (b: BlockState)
        requires
            self.wf(),
            LOW <= h <= HIGH,
            0 <= y <= 300,
            z <= i32::MAX - 37 * 300,
        ensures
            b == self.cell(x, y as int, z as int, h as int),
    {
        let shore = h <= self.water_level + 2;
        let fill = if shore {
            plain(12)
        } else {
            plain(3)
        };
        if y == 0 {
            plain(7)
        } else if y < h - 3 {
            let r = hash2d(x, y * 37 + z, self.seed);
            if r % self.coal == 0 {
                plain(16)
            } else if r % self.iron == 0 {
                plain(15)
            } else {
                plain(1)
            }
        } else if y < h {
            fill
        } else if y == h {
            if shore {
                fill
            } else {
                plain(2)
            }
        } else {
            plain(9)
        }
    }

    /// Append the blocks of a column.
    pub fn push_column(&self, x: i32, z: i32, h: i32, out: &mut Vec<BlockEdit>)
        requires
            self.wf(),
            LOW <= h <= HIGH,
            z <= i32::MAX - 37 * 300,
        ensures
            final(out)@ == old(out)@ + self.column(x, z, h as int),
    {
        let top: i32 = if h < self.water_level {
            self.water_level
        } else {
            h
        };
        let ghost all = self.column(x, z, h as int);
        let mut y: i32 = 0;
        assert(out@ =~= old(out)@ + all.take(0));
        while y <= top
            invariant
                0 <= y <= top + 1,
                top == self.top(h as int),
                top <= 255,
                self.wf(),
                LOW <= h <= HIGH,
                z <= i32::MAX - 37 * 300,
                all == self.column(x, z, h as int),
                out@ == old(out)@ + all.take(y as int),
            decreases top + 1 - y,
        {
            out.push(BlockEdit { x, y, z, state: self.block_at(x, y, z, h) });
            y += 1;
            assert(all.take(y as int) =~= all.take(y - 1).push(all[y - 1]));
            assert(out@ =~= old(out)@ + all.take(y as int));
        }
        assert(all.take(y as int) =~= all);
    }
}

/// The first `n` columns of a chunk, along z, then along x, with their surfaces.
pub open spec fn chunk_blocks(g: Ground, cx: int, cz: int, heights: Seq<i32>, n: int) -> Seq<BlockEdit>
    decreases n,
{
    if n <= 0 {
        Seq::empty()
    } else {
        chunk_blocks(g, cx, cz, heights, n - 1) + g.column(
            (cx * 16 + (n - 1) / 16) as i32,
            (cz * 16 + (n - 1) % 16) as i32,
            heights[n - 1] as int,
        )
    }
}

/// The surfaces of a chunk's columns.
pub open spec fn surfaces(heights: Seq<i32>) -> bool {
    &&& heights.len() == 256
    &&& forall|i: int| 0 <= i < 256 ==> LOW <= (#[trigger] heights[i]) <= HIGH
}

/// The blocks of a chunk, column by column.
pub fn fill_chunk(g: &Ground, cx: i32, cz: i32, heights: &Vec<i32>) -> (blocks: Vec<BlockEdit>)
    requires
        g.wf(),
        surfaces(heights@),
        -0x800_0000 <= cx <= 0x7ff_ffff,
        -0x800_0000 <= cz && cz * 16 + 15 <= i32::MAX - 37 * 300,
    ensures
        blocks@ == chunk_blocks(*g, cx as int, cz as int, heights@, 256),
{
    let mut blocks: Vec<BlockEdit> = Vec::new();
    let mut n: usize = 0;
    while n < 256
        invariant
            n <= 256,
            g.wf(),
            surfaces(heights@),
            -0x800_0000 <= cx <= 0x7ff_ffff,
            -0x800_0000 <= cz && cz * 16 + 15 <= i32::MAX - 37 * 300,
            blocks@ == chunk_blocks(*g, cx as int, cz as int, heights@, n as int),
        decreases 256 - n,
    {
        let x: i32 = cx * 16 + (n / 16) as i32;
        let z: i32 = cz * 16 + (n % 16) as i32;
        g.push_column(x, z, heights[n], &mut blocks);
        n += 1;
    }
    blocks
}

// ── Trees ─────────────────────────────────────────────────────────────────

/// How high a trunk is: four to six blocks.
pub open spec fn trunk_height(x: i32, z: i32) -> int {
    4 + spec_hash2d(x, z, 777) as int % 3
}

/// A cell of the canopy, relative to the top of the trunk: within a ball, and not
/// in the trunk.
pub open spec fn in_canopy(dx: int, dy: int, dz: int) -> bool {
    &&& -2 <= dx <= 2
    &&& -2 <= dz <= 2
    &&& -2 <= dy <= 1
    &&& dx * dx + dy * dy + dz * dz <= 6
    &&& !(dx == 0 && dz == 0 && dy < 0)
}

/// The trunk of a tree.
pub open spec fn trunk(x: i32, y: i32, z: i32) -> Seq<BlockEdit> {
    Seq::new(
        trunk_height(x, z) as nat,
        |dy: int| BlockEdit { x, y: (y + dy) as i32, z, state: block(17) },
    )
}

/// The leaves of a tree, in the first `n` cells of the box around its top, along
/// x, then z, then up.
pub open spec fn canopy(x: i32, y: i32, z: i32, n: int) -> Seq<BlockEdit>
    decreases n,
{
    if n <= 0 {
        Seq::empty()
    } else {
        let k = n - 1;
        let dx = k / 20 - 2;
        let dz = k / 4 % 5 - 2;
        let dy = k % 4 - 2;
        let rest = canopy(x, y, z, n - 1);
        if in_canopy(dx, dy, dz) {
            rest.push(
                BlockEdit {
                    x: (x + dx) as i32,
                    y: (y + trunk_height(x, z) + dy) as i32,
                    z: (z + dz) as i32,
                    state: block(18),
                },
            )
        } else {
            rest
        }
    }
}

/// A tree that grows at a position: its trunk, and its leaves, which only go where
/// there is air.
pub fn place_tree(x: i32, y: i32, z: i32) -> (tree: (Vec<BlockEdit>, Vec<BlockEdit>))
    requires
        i32::MIN + 2 <= x <= i32::MAX - 2,
        y <= i32::MAX - 7,
        i32::MIN + 2 <= z <= i32::MAX - 2,
    ensures
        tree.0@ == trunk(x, y, z),
        tree.1@ == canopy(x, y, z, 100),
{
    let h: i32 = 4 + (hash2d(x, z, 777) % 3) as i32;
    let mut wood: Vec<BlockEdit> = Vec::new();
    let mut dy: i32 = 0;
    while dy < h
        invariant
            0 <= dy <= h,
            h == trunk_height(x, z),
            4 <= h <= 6,
            y <= i32::MAX - 7,
            wood@ == trunk(x, y, z).take(dy as int),
        decreases h - dy,
    {
        wood.push(BlockEdit { x, y: y + dy, z, state: plain(17) });
        dy += 1;
        assert(trunk(x, y, z).take(dy as int) =~= trunk(x, y, z).take(dy - 1).push(
            trunk(x, y, z)[dy - 1],
        ));
    }
    assert(trunk(x, y, z).take(dy as int) =~= trunk(x, y, z));
    let mut leaves: Vec<BlockEdit> = Vec::new();
    let mut k: i32 = 0;
    while k < 100
        invariant
            0 <= k <= 100,
            h == trunk_height(x, z),
            4 <= h <= 6,
            i32::MIN + 2 <= x <= i32::MAX - 2,
            y <= i32::MAX - 7,
            i32::MIN + 2 <= z <= i32::MAX - 2,
            leaves@ == canopy(x, y, z, k as int),
        decreases 100 - k,
    {
        let dx: i32 = k / 20 - 2;
        let dz: i32 = k / 4 % 5 - 2;
        let up: i32 = k % 4 - 2;
        assert(0 <= dx * dx <= 4) by (nonlinear_arith)
            requires
                -2 <= dx <= 2,
        ;
        assert(0 <= dz * dz <= 4) by (nonlinear_arith)
            requires
                -2 <= dz <= 2,
        ;
        assert(0 <= up * up <= 4) by (nonlinear_arith)
            requires
                -2 <= up <= 1,
        ;
        if dx * dx + up * up + dz * dz <= 6 && !(dx == 0 && dz == 0 && up < 0) {
            leaves.push(
                BlockEdit { x: x + dx, y: y + h + up, z: z + dz, state: plain(18) },
            );
        }
        k += 1;
    }
    (wood, leaves)
}

/// Every block of a tree is within two columns of its trunk.
pub proof fn law_trees_stay_close(x: i32, y: i32, z: i32, n: int, i: int)
    requires
        i32::MIN + 2 <= x <= i32::MAX - 2,
        y <= i32::MAX - 7,
        i32::MIN + 2 <= z <= i32::MAX - 2,
        0 <= n <= 100,
        0 <= i < canopy(x, y, z, n).len(),
    ensures
        -2 <= canopy(x, y, z, n)[i].x - x <= 2,
        -2 <= canopy(x, y, z, n)[i].z - z <= 2,
    decreases n,
{
    if n > 0 && i < canopy(x, y, z, n - 1).len() {
        law_trees_stay_close(x, y, z, n - 1, i);
    }
}

/// A place where a tree has room in the numbers.
pub open spec fn plantable(t: (i32, i32, i32)) -> bool {
    &&& i32::MIN + 2 <= t.0 <= i32::MAX - 2
    &&& t.1 <= i32::MAX - 7
    &&& i32::MIN + 2 <= t.2 <= i32::MAX - 2
}

/// The wood and the leaves of the first `n` of some trees.
pub open spec fn grown(trees: Seq<(i32, i32, i32)>, n: int) -> Seq<BlockEdit>
    decreases n,
{
    if n <= 0 {
        Seq::empty()
    } else {
        let (x, y, z) = trees[n - 1];
        grown(trees, n - 1) + (trunk(x, y, z) + canopy(x, y, z, 100))
    }
}

/// Blocks and trees stand in the world: their columns are there, with their sections. A
/// leaf that finds its place taken changes nothing of that.
pub fn enter_scenery(columns: &mut Columns, blocks: &Vec<BlockEdit>, trees: &Vec<(i32, i32, i32)>)
    requires
        old(columns).wf(),
        forall|i: int| 0 <= i < trees@.len() ==> plantable(#[trigger] trees@[i]),
    ensures
        final(columns).wf(),
        blocks_entered(
            *old(columns),
            blocks@ + grown(trees@, trees@.len() as int),
            *final(columns),
        ),
{
    enter_blocks(columns, blocks);
    let mut i: usize = 0;
    assert(blocks@ + grown(trees@, 0) =~= blocks@);
    while i < trees.len()
        invariant
            i <= trees@.len(),
            columns.wf(),
            forall|i: int| 0 <= i < trees@.len() ==> plantable(#[trigger] trees@[i]),
            blocks_entered(*old(columns), blocks@ + grown(trees@, i as int), *columns),
        decreases trees@.len() - i,
    {
        let (x, y, z) = trees[i];
        assert(plantable(trees@[i as int]));
        let (wood, leaves) = place_tree(x, y, z);
        enter_blocks(columns, &wood);
        enter_blocks(columns, &leaves);
        proof {
            let so_far = blocks@ + grown(trees@, i as int);
            lemma_both(wood@, leaves@);
            lemma_both(so_far, wood@ + leaves@);
            assert(blocks@ + grown(trees@, i + 1) =~= so_far + (wood@ + leaves@));
        }
        i += 1;
    }
}

// ── The generated world ───────────────────────────────────────────────────

/// The terrain generator of worlds without a server.
#[derive(Debug, Clone, Copy, PartialEq, Eq, Structural)]
pub struct WorldGen {
    pub seed: i64,
}

/// The offset that sixteen bits of the seed give.
pub open spec fn seed_offset(bits: i64) -> int {
    (bits & 0xffff) - 0x8000
}

/// Where in the height field a column of a world lies.
pub open spec fn spec_sample_point(seed: i64, x: i32, z: i32) -> (i32, i32) {
    (
        x.wrapping_add(seed_offset(seed) as i32),
        z.wrapping_add(seed_offset(seed >> 16) as i32),
    )
}

/// The surface of a column: the height field there, kept away from the bottom and the top
/// of the world.
pub open spec fn spec_height(field: int) -> int {
    if field < LOW {
        LOW as int
    } else if field > HIGH {
        HIGH as int
    } else {
        field
    }
}

/// A tree of a chunk: where its trunk stands within the chunk.
pub open spec fn local_tree(seed: i64, cx: i32, cz: i32, salt: u32) -> Option<(int, int)> {
    let r = spec_hash2d(cx, cz, (seed as u32) ^ salt);
    if r % 3 != 0 {
        None
    } else {
        Some((r as int % 12 + 2, (r >> 8) as int % 12 + 2))
    }
}

impl WorldGen {
    pub fn new(seed: i64) -> (g: WorldGen)
        ensures
            g == (WorldGen { seed }),
    {
        WorldGen { seed }
    }

    /// Where in the height field the column of this world lies.
    pub fn sample_point(&self, x: i32, z: i32) -> (p: (i32, i32))
        ensures
            p == spec_sample_point(self.seed, x, z),
    {
        let a: i64 = self.seed;
        let b: i64 = self.seed >> 16;
        assert(0 <= (a & 0xffff) <= 0xffff) by (bit_vector);
        assert(0 <= (b & 0xffff) <= 0xffff) by (bit_vector);
        let ox: i32 = (a & 0xffff) as i32 - 0x8000;
        let oz: i32 = (b & 0xffff) as i32 - 0x8000;
        (x.wrapping_add(ox), z.wrapping_add(oz))
    }

    /// The surface of a column, given the height field there: kept away from the
    /// bottom and the top of the world.
    pub fn height(&self, field: i32) -> (h: i32)
        ensures
            h == spec_height(field as int),
            LOW <= h <= HIGH,
    {
        if field < LOW {
            LOW
        } else if field > HIGH {
            HIGH
        } else {
            field
        }
    }

    /// The blocks of a chunk, given its surfaces. Trees come on top.
    pub fn generate_chunk(&self, cx: i32, cz: i32, heights: &Vec<i32>) -> (blocks: Vec<BlockEdit>)
        requires
            surfaces(heights@),
            -0x800_0000 <= cx <= 0x7ff_ffff,
            -0x800_0000 <= cz && cz * 16 + 15 <= i32::MAX - 37 * 300,
        ensures
            blocks@ == chunk_blocks(local_ground(self.seed), cx as int, cz as int, heights@, 256),
    {
        let g = Ground {
            seed: (#[verifier::truncate] (self.seed as u32)) ^ 0x9e37_79b9,
            coal: 96,
            iron: 160,
            water_level: 0,
        };
        fill_chunk(&g, cx, cz, heights)
    }

    /// The columns within a chunk on which trees grow: at most two.
    pub fn trees(&self, cx: i32, cz: i32) -> (spots: Vec<(i32, i32)>)
        ensures
            ({
                let a = local_tree(self.seed, cx, cz, 0x1111);
                let b = local_tree(self.seed, cx, cz, 0x2222);
                let first = match a {
                    Some(t) => seq![(t.0 as i32, t.1 as i32)],
                    None => Seq::empty(),
                };
                spots@ == match b {
                    Some(t) => first.push((t.0 as i32, t.1 as i32)),
                    None => first,
                }
            }),
            spots@.len() <= 2,
            forall|i: int|
                0 <= i < spots@.len() ==> 2 <= (#[trigger] spots@[i]).0 <= 13 && 2 <= spots@[i].1
                    <= 13,
    {
        let mut spots: Vec<(i32, i32)> = Vec::new();
        let seed: u32 = #[verifier::truncate] (self.seed as u32);
        let a = hash2d(cx, cz, seed ^ 0x1111);
        if a % 3 == 0 {
            spots.push(((a % 12 + 2) as i32, ((a >> 8) % 12 + 2) as i32));
        }
        let b = hash2d(cx, cz, seed ^ 0x2222);
        if b % 3 == 0 {
            spots.push(((b % 12 + 2) as i32, ((b >> 8) % 12 + 2) as i32));
        }
        spots
    }

    /// The trees of a chunk, given its surfaces: the lowest block of each trunk.
    pub fn chunk_trees(&self, cx: i32, cz: i32, heights: &Vec<i32>) -> (trees: Vec<(i32, i32, i32)>)
        requires
            surfaces(heights@),
            -0x800_0000 <= cx <= 0x7ff_ffff,
            -0x800_0000 <= cz <= 0x7ff_ffff,
        ensures
            trees@ == trees_of_chunk(self.seed, cx as int, cz as int, heights@),
            forall|i: int| 0 <= i < trees@.len() ==> plantable(#[trigger] trees@[i]),
    {
        let spots = self.trees(cx, cz);
        let mut trees: Vec<(i32, i32, i32)> = Vec::new();
        let mut i: usize = 0;
        while i < spots.len()
            invariant
                i <= spots@.len(),
                surfaces(heights@),
                -0x800_0000 <= cx <= 0x7ff_ffff,
                -0x800_0000 <= cz <= 0x7ff_ffff,
                forall|i: int|
                    0 <= i < spots@.len() ==> 2 <= (#[trigger] spots@[i]).0 <= 13 && 2
                        <= spots@[i].1 <= 13,
                trees@ == Seq::new(
                    i as nat,
                    |k: int| tree_at(cx as int, cz as int, heights@, spots@[k].0 as int, spots@[k].1 as int),
                ),
                forall|i: int| 0 <= i < trees@.len() ==> plantable(#[trigger] trees@[i]),
            decreases spots@.len() - i,
        {
            let (lx, lz) = spots[i];
            assert(2 <= spots@[i as int].0 <= 13 && 2 <= spots@[i as int].1 <= 13);
            let h: i32 = heights[(lx * 16 + lz) as usize];
            trees.push((cx * 16 + lx, h + 1, cz * 16 + lz));
            i += 1;
            assert(trees@ =~= Seq::new(
                i as nat,
                |k: int| tree_at(cx as int, cz as int, heights@, spots@[k].0 as int, spots@[k].1 as int),
            ));
        }
        assert(trees@ =~= trees_of_chunk(self.seed, cx as int, cz as int, heights@));
        trees
    }
}

/// A list with one more where there is one.
pub open spec fn with_tree(list: Seq<(i32, i32, i32)>, tree: Option<(i32, i32, i32)>) -> Seq<
    (i32, i32, i32),
> {
    match tree {
        Some(t) => list.push(t),
        None => list,
    }
}

/// The tree on a column of a chunk.
pub open spec fn tree_at(cx: int, cz: int, heights: Seq<i32>, lx: int, lz: int) -> (i32, i32, i32) {
    ((cx * 16 + lx) as i32, (heights[lx * 16 + lz] + 1) as i32, (cz * 16 + lz) as i32)
}

/// The tree that a salt grows in a chunk.
pub open spec fn salted_tree(seed: i64, cx: int, cz: int, heights: Seq<i32>, salt: u32) -> Option<
    (i32, i32, i32),
> {
    match local_tree(seed, cx as i32, cz as i32, salt) {
        Some((lx, lz)) => Some(tree_at(cx, cz, heights, lx, lz)),
        None => None,
    }
}

/// The trees of a chunk: at most two.
pub open spec fn trees_of_chunk(seed: i64, cx: int, cz: int, heights: Seq<i32>) -> Seq<
    (i32, i32, i32),
> {
    with_tree(
        with_tree(Seq::empty(), salted_tree(seed, cx, cz, heights, 0x1111)),
        salted_tree(seed, cx, cz, heights, 0x2222),
    )
}

/// A tree of the generated world stays within its chunk: its trunk stands at
/// least two columns from the edge.
pub proof fn law_generated_trees_stay_in_their_chunk(seed: i64, cx: i32, cz: i32, salt: u32, y: i32, i: int)
    requires
        -0x800_0000 <= cx <= 0x7ff_ffff,
        -0x800_0000 <= cz <= 0x7ff_ffff,
        y <= i32::MAX - 7,
        local_tree(seed, cx, cz, salt) is Some,
        ({
            let (lx, lz) = local_tree(seed, cx, cz, salt)->0;
            0 <= i < canopy((cx * 16 + lx) as i32, y, (cz * 16 + lz) as i32, 100).len()
        }),
    ensures
        ({
            let (lx, lz) = local_tree(seed, cx, cz, salt)->0;
            let leaf = canopy((cx * 16 + lx) as i32, y, (cz * 16 + lz) as i32, 100)[i];
            cx * 16 <= leaf.x < cx * 16 + 16 && cz * 16 <= leaf.z < cz * 16 + 16
        }),
{
    let (lx, lz) = local_tree(seed, cx, cz, salt)->0;
    law_trees_stay_close((cx * 16 + lx) as i32, y, (cz * 16 + lz) as i32, 100, i);
}

/// Every column stands on bedrock, is solid at its surface and dry below it, and
/// where it reaches above its surface it does so with water.
pub proof fn law_columns_are_solid(g: Ground, x: i32, z: i32, h: int)
    requires
        g.wf(),
        LOW <= h <= HIGH,
    ensures
        g.column(x, z, h)[0].state == block(7),
        !g.cell(x, h, z as int, h).spec_air(),
        forall|y: int| 0 <= y <= h ==> !(#[trigger] g.cell(x, y, z as int, h)).spec_liquid(),
        g.top(h) > h ==> g.cell(x, g.top(h), z as int, h) == block(9),
{
}

// ── The spawn area ────────────────────────────────────────────────────────

/// What is generated up front of a world of its own: the nine chunks around the origin,
/// so that there is ground to stand on.
#[derive(Debug)]
pub struct SpawnArea {
    pub blocks: Vec<BlockEdit>,
    /// The lowest block of each trunk.
    pub trees: Vec<(i32, i32, i32)>,
    /// Where the player starts, over the middle of column (0, 0).
    pub spawn_y: i32,
}

/// The `k`-th chunk of the spawn area: along x, then along z.
pub open spec fn spawn_chunk(k: int) -> (int, int) {
    (k % 3 - 1, k / 3 - 1)
}

/// The surfaces of the spawn area, chunk by chunk.
pub open spec fn spawn_surfaces(heights: Seq<i32>) -> bool {
    &&& heights.len() == 9 * 256
    &&& forall|i: int| 0 <= i < heights.len() ==> LOW <= (#[trigger] heights[i]) <= HIGH
}

/// The surfaces of the `k`-th chunk.
pub open spec fn part_of(heights: Seq<i32>, k: int) -> Seq<i32> {
    heights.subrange(k * 256, k * 256 + 256)
}

/// The blocks of the first `n` chunks of the spawn area.
pub open spec fn spawn_blocks(seed: i64, heights: Seq<i32>, n: int) -> Seq<BlockEdit>
    decreases n,
{
    if n <= 0 {
        Seq::empty()
    } else {
        let (cx, cz) = spawn_chunk(n - 1);
        spawn_blocks(seed, heights, n - 1) + chunk_blocks(
            local_ground(seed),
            cx,
            cz,
            part_of(heights, n - 1),
            256,
        )
    }
}

/// The trees of the first `n` chunks of the spawn area.
pub open spec fn spawn_trees(seed: i64, heights: Seq<i32>, n: int) -> Seq<(i32, i32, i32)>
    decreases n,
{
    if n <= 0 {
        Seq::empty()
    } else {
        let (cx, cz) = spawn_chunk(n - 1);
        spawn_trees(seed, heights, n - 1) + trees_of_chunk(seed, cx, cz, part_of(heights, n - 1))
    }
}

/// The spawn area of a world, with these surfaces.
pub open spec fn spawn_built(seed: i64, heights: Seq<i32>, area: SpawnArea) -> bool {
    &&& area.blocks@ == spawn_blocks(seed, heights, 9)
    &&& area.trees@ == spawn_trees(seed, heights, 9)
    &&& area.spawn_y == heights[1024] + 1
}

/// All blocks of the spawn area.
pub open spec fn spawn_scenery(area: SpawnArea) -> Seq<BlockEdit> {
    area.blocks@ + grown(area.trees@, area.trees@.len() as int)
}

impl WorldGen {
    /// The spawn area, given its surfaces.
    pub fn spawn_area(&self, heights: &Vec<i32>) -> (area: SpawnArea)
        requires
            spawn_surfaces(heights@),
        ensures
            spawn_built(self.seed, heights@, area),
            forall|i: int| 0 <= i < area.trees@.len() ==> plantable(#[trigger] area.trees@[i]),
    {
        let mut blocks: Vec<BlockEdit> = Vec::new();
        let mut trees: Vec<(i32, i32, i32)> = Vec::new();
        let mut k: usize = 0;
        while k < 9
            invariant
                k <= 9,
                spawn_surfaces(heights@),
                blocks@ == spawn_blocks(self.seed, heights@, k as int),
                trees@ == spawn_trees(self.seed, heights@, k as int),
                forall|i: int| 0 <= i < trees@.len() ==> plantable(#[trigger] trees@[i]),
            decreases 9 - k,
        {
            let mut part: Vec<i32> = Vec::new();
            let mut i: usize = 0;
            while i < 256
                invariant
                    i <= 256,
                    k < 9,
                    spawn_surfaces(heights@),
                    part@.len() == i,
                    forall|j: int| 0 <= j < i ==> (#[trigger] part@[j]) == heights@[k * 256 + j],
                decreases 256 - i,
            {
                part.push(heights[k * 256 + i]);
                i += 1;
            }
            assert(part@ =~= part_of(heights@, k as int));
            assert(surfaces(part@));
            let cx: i32 = (k % 3) as i32 - 1;
            let cz: i32 = (k / 3) as i32 - 1;
            let mut more = self.generate_chunk(cx, cz, &part);
            blocks.append(&mut more);
            let mut grow = self.chunk_trees(cx, cz, &part);
            trees.append(&mut grow);
            k += 1;
        }
        SpawnArea { blocks, trees, spawn_y: heights[1024] + 1 }
    }
}

/// Every block of some lies in a column and within the world's height.
pub open spec fn all_in(blocks: Seq<BlockEdit>, c: ChunkPos) -> bool {
    forall|i: int|
        0 <= i < blocks.len() ==> (#[trigger] blocks[i]).inside() && blocks[i].spec_column() == c
}

proof fn lemma_chunk_blocks_in(g: Ground, cx: int, cz: int, heights: Seq<i32>, n: int)
    requires
        g.wf(),
        -0x800_0000 <= cx <= 0x7ff_ffff,
        -0x800_0000 <= cz <= 0x7ff_ffff,
        0 <= n <= 256,
        surfaces(heights),
    ensures
        all_in(chunk_blocks(g, cx, cz, heights, n), ChunkPos { x: cx as i32, z: cz as i32 }),
        n > 0 ==> chunk_blocks(g, cx, cz, heights, n).len() > 0,
    decreases n,
{
    if n > 0 {
        lemma_chunk_blocks_in(g, cx, cz, heights, n - 1);
        let x = (cx * 16 + (n - 1) / 16) as i32;
        let z = (cz * 16 + (n - 1) % 16) as i32;
        let h = heights[n - 1] as int;
        let rest = chunk_blocks(g, cx, cz, heights, n - 1);
        let more = g.column(x, z, h);
        let all = chunk_blocks(g, cx, cz, heights, n);
        assert(all == rest + more);
        assert(g.top(h) <= 255);
        assert forall|i: int| 0 <= i < all.len() implies (#[trigger] all[i]).inside()
            && all[i].spec_column() == (ChunkPos { x: cx as i32, z: cz as i32 }) by {
            if i < rest.len() {
                assert(all[i] == rest[i]);
            } else {
                assert(all[i] == more[i - rest.len()]);
            }
        }
    }
}

proof fn lemma_tree_in(seed: i64, cx: int, cz: int, heights: Seq<i32>, salt: u32)
    requires
        -0x800_0000 <= cx <= 0x7ff_ffff,
        -0x800_0000 <= cz <= 0x7ff_ffff,
        surfaces(heights),
    ensures
        salted_tree(seed, cx, cz, heights, salt) matches Some(t) ==> all_in(
            trunk(t.0, t.1, t.2) + canopy(t.0, t.1, t.2, 100),
            ChunkPos { x: cx as i32, z: cz as i32 },
        ),
{
    if let Some(t) = salted_tree(seed, cx, cz, heights, salt) {
        let (x, y, z) = t;
        let (lx, lz) = local_tree(seed, cx as i32, cz as i32, salt)->0;
        assert(LOW <= heights[lx * 16 + lz] <= HIGH);
        let all = trunk(x, y, z) + canopy(x, y, z, 100);
        assert forall|i: int| 0 <= i < all.len() implies (#[trigger] all[i]).inside()
            && all[i].spec_column() == (ChunkPos { x: cx as i32, z: cz as i32 }) by {
            let n = trunk(x, y, z).len();
            if i < n {
                assert(all[i] == trunk(x, y, z)[i]);
            } else {
                assert(all[i] == canopy(x, y, z, 100)[i - n]);
                law_trees_stay_close(x, y, z, 100, i - n);
                lemma_canopy_height(x, y, z, 100, i - n);
            }
        }
    }
}

proof fn lemma_canopy_height(x: i32, y: i32, z: i32, n: int, i: int)
    requires
        i32::MIN + 2 <= y <= i32::MAX - 7,
        0 <= n <= 100,
        0 <= i < canopy(x, y, z, n).len(),
    ensures
        y <= canopy(x, y, z, n)[i].y <= y + 7,
    decreases n,
{
    if n > 0 && i < canopy(x, y, z, n - 1).len() {
        lemma_canopy_height(x, y, z, n - 1, i);
    }
}

proof fn lemma_grown_push(trees: Seq<(i32, i32, i32)>, t: (i32, i32, i32))
    ensures
        grown(trees.push(t), trees.len() as int + 1) == grown(trees, trees.len() as int) + (trunk(
            t.0,
            t.1,
            t.2,
        ) + canopy(t.0, t.1, t.2, 100)),
{
    lemma_grown_same(trees, trees.push(t), trees.len() as int);
}

proof fn lemma_grown_same(a: Seq<(i32, i32, i32)>, b: Seq<(i32, i32, i32)>, n: int)
    requires
        0 <= n <= a.len(),
        n <= b.len(),
        forall|i: int| 0 <= i < n ==> a[i] == b[i],
    ensures
        grown(a, n) == grown(b, n),
    decreases n,
{
    if n > 0 {
        lemma_grown_same(a, b, n - 1);
    }
}

proof fn lemma_all_in(blocks: Seq<BlockEdit>, c: ChunkPos)
    requires
        all_in(blocks, c),
    ensures
        forall|d: ChunkPos| in_column(blocks, d) ==> d == c,
        blocks.len() > 0 ==> in_column(blocks, c),
{
    if blocks.len() > 0 {
        assert(blocks[0].inside() && blocks[0].spec_column() == c);
    }
}

proof fn lemma_with_tree(
    trees: Seq<(i32, i32, i32)>,
    t: Option<(i32, i32, i32)>,
    c: ChunkPos,
    had: spec_fn(ChunkPos) -> bool,
)
    requires
        t matches Some(p) ==> all_in(trunk(p.0, p.1, p.2) + canopy(p.0, p.1, p.2, 100), c),
        forall|d: ChunkPos|
            #[trigger] in_column(grown(trees, trees.len() as int), d) ==> had(d) || d == c,
    ensures
        forall|d: ChunkPos|
            #[trigger] in_column(
                grown(with_tree(trees, t), with_tree(trees, t).len() as int),
                d,
            ) ==> had(d) || d == c,
{
    if let Some(p) = t {
        lemma_grown_push(trees, p);
        let more = trunk(p.0, p.1, p.2) + canopy(p.0, p.1, p.2, 100);
        lemma_both(grown(trees, trees.len() as int), more);
        lemma_all_in(more, c);
    }
}

/// The chunks of the spawn area up to the `n`-th.
pub open spec fn among_spawn_chunks(c: ChunkPos, n: int) -> bool {
    exists|k: int| 0 <= k < n && #[trigger] spawn_chunk(k) == (c.x as int, c.z as int)
}

proof fn lemma_spawn_columns(seed: i64, heights: Seq<i32>, n: int)
    requires
        spawn_surfaces(heights),
        0 <= n <= 9,
    ensures
        forall|c: ChunkPos|
            #[trigger] in_column(spawn_blocks(seed, heights, n), c) == among_spawn_chunks(c, n),
        forall|c: ChunkPos|
            #[trigger] in_column(
                grown(spawn_trees(seed, heights, n), spawn_trees(seed, heights, n).len() as int),
                c,
            ) ==> among_spawn_chunks(c, n),
    decreases n,
{
    if n > 0 {
        lemma_spawn_columns(seed, heights, n - 1);
        let (cx, cz) = spawn_chunk(n - 1);
        let c = ChunkPos { x: cx as i32, z: cz as i32 };
        let part = part_of(heights, n - 1);
        assert(surfaces(part));
        let rest = spawn_blocks(seed, heights, n - 1);
        let more = chunk_blocks(local_ground(seed), cx, cz, part, 256);
        lemma_chunk_blocks_in(local_ground(seed), cx, cz, part, 256);
        lemma_both(rest, more);
        lemma_all_in(more, c);
        assert forall|d: ChunkPos| #[trigger] among_spawn_chunks(d, n) == (among_spawn_chunks(
            d,
            n - 1,
        ) || d == c) by {
            if among_spawn_chunks(d, n) {
                let k = choose|k: int|
                    0 <= k < n && #[trigger] spawn_chunk(k) == (d.x as int, d.z as int);
                if k < n - 1 {
                    assert(among_spawn_chunks(d, n - 1));
                }
            }
            if among_spawn_chunks(d, n - 1) {
                let k = choose|k: int|
                    0 <= k < n - 1 && #[trigger] spawn_chunk(k) == (d.x as int, d.z as int);
                assert(spawn_chunk(k) == (d.x as int, d.z as int));
            }
            if d == c {
                assert(spawn_chunk(n - 1) == (d.x as int, d.z as int));
            }
        }
        let a = salted_tree(seed, cx, cz, part, 0x1111);
        let b = salted_tree(seed, cx, cz, part, 0x2222);
        lemma_tree_in(seed, cx, cz, part, 0x1111);
        lemma_tree_in(seed, cx, cz, part, 0x2222);
        let before = spawn_trees(seed, heights, n - 1);
        let had = |d: ChunkPos| among_spawn_chunks(d, n - 1);
        lemma_with_tree(before, a, c, had);
        lemma_with_tree(with_tree(before, a), b, c, had);
        assert(spawn_trees(seed, heights, n) =~= with_tree(with_tree(before, a), b));
        assert forall|d: ChunkPos|
            #[trigger] in_column(
                grown(spawn_trees(seed, heights, n), spawn_trees(seed, heights, n).len() as int),
                d,
            ) implies among_spawn_chunks(d, n) by {
            assert(had(d) || d == c);
        }
    }
}

/// The spawn area is the nine columns around the origin.
pub proof fn law_the_spawn_area_is_nine_columns(
    seed: i64,
    heights: Seq<i32>,
    area: SpawnArea,
    columns: Columns,
    c: ChunkPos,
)
    requires
        spawn_surfaces(heights),
        spawn_built(seed, heights, area),
        holds_blocks(columns, spawn_scenery(area)),
    ensures
        columns.loaded(c) == (-1 <= c.x <= 1 && -1 <= c.z <= 1),
{
    lemma_spawn_columns(seed, heights, 9);
    lemma_both(area.blocks@, grown(area.trees@, area.trees@.len() as int));
    if -1 <= c.x <= 1 && -1 <= c.z <= 1 {
        let k = (c.z + 1) * 3 + c.x + 1;
        assert(spawn_chunk(k) == (c.x as int, c.z as int));
        assert(among_spawn_chunks(c, 9));
    }
}

/// A generated column comes alone: its trees reach into no other.
pub proof fn law_generated_columns_come_alone(
    seed: i64,
    heights: Seq<i32>,
    before: Columns,
    c: ChunkPos,
    after: Columns,
    s: SectionPos,
)
    requires
        surfaces(heights),
        -0x800_0000 <= c.x <= 0x7ff_ffff,
        -0x800_0000 <= c.z <= 0x7ff_ffff,
        ({
            let trees = trees_of_chunk(seed, c.x as int, c.z as int, heights);
            blocks_entered(
                before,
                chunk_blocks(local_ground(seed), c.x as int, c.z as int, heights, 256) + grown(
                    trees,
                    trees.len() as int,
                ),
                after,
            )
        }),
    ensures
        after.loaded(c),
        s.spec_chunk() != c ==> after.loaded(s.spec_chunk()) == before.loaded(s.spec_chunk())
            && after.has_section(s) == before.has_section(s),
{
    let (cx, cz) = (c.x as int, c.z as int);
    let blocks = chunk_blocks(local_ground(seed), cx, cz, heights, 256);
    let a = salted_tree(seed, cx, cz, heights, 0x1111);
    let b = salted_tree(seed, cx, cz, heights, 0x2222);
    let none = Seq::<(i32, i32, i32)>::empty();
    let had = |d: ChunkPos| false;
    lemma_chunk_blocks_in(local_ground(seed), cx, cz, heights, 256);
    lemma_all_in(blocks, c);
    lemma_tree_in(seed, cx, cz, heights, 0x1111);
    lemma_tree_in(seed, cx, cz, heights, 0x2222);
    lemma_with_tree(none, a, c, had);
    lemma_with_tree(with_tree(none, a), b, c, had);
    let trees = trees_of_chunk(seed, cx, cz, heights);
    let wood = grown(trees, trees.len() as int);
    lemma_both(blocks, wood);
    if s.spec_chunk() != c {
        assert(!in_column(blocks + wood, s.spec_chunk())) by {
            if in_column(wood, s.spec_chunk()) {
                assert(had(s.spec_chunk()) || s.spec_chunk() == c);
            }
        }
        if in_section(blocks + wood, s) {
            let all = blocks + wood;
            let i = choose|i: int|
                0 <= i < all.len() && (#[trigger] all[i]).inside() && all[i].spec_section() == s;
            assert(all[i].spec_column() == s.spec_chunk());
        }
    }
}

} // verus!
