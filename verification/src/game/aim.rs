//! What the crosshair points at: the walk of a ray through blocks, and the choice
//! between a block and an entity.

use vstd::prelude::*;
use crate::packets::{Real32, Real64};
use super::drawing::{below, INFINITE};
use super::player::InteractionTarget;
use super::rules::{is_pickable, pickable, spec_face_offset, BlockState};

verus! {

/// An axis of the world.
#[derive(Debug, Clone, Copy, PartialEq, Eq, Structural)]
pub enum Axis {
    X,
    Y,
    Z,
}

/// How far the ray has to go to the next block along each axis; never negative.
#[derive(Debug, Clone, Copy, PartialEq, Eq, Structural)]
pub struct Crossings {
    pub x: Real64,
    pub y: Real64,
    pub z: Real64,
}

/// The cell a ray is in, and the face through which it came.
#[derive(Debug, Clone, Copy, PartialEq, Eq, Structural)]
pub struct RayCell {
    pub x: i32,
    pub y: i32,
    pub z: i32,
    pub face: u8,
}

/// The axis along which the next block comes first; of equally near ones the first in
/// the order of the axes.
pub open spec fn first_axis(c: Crossings) -> Axis {
    if !below(c.y, c.x) && !below(c.z, c.x) {
        Axis::X
    } else if !below(c.z, c.y) {
        Axis::Y
    } else {
        Axis::Z
    }
}

/// The axis along which the next block comes first.
pub fn next_axis(c: &Crossings) -> (axis: Axis)
    ensures
        axis == first_axis(*c),
{
    if !is_nearer(c.y, c.x) && !is_nearer(c.z, c.x) {
        Axis::X
    } else if !is_nearer(c.z, c.y) {
        Axis::Y
    } else {
        Axis::Z
    }
}

fn is_nearer(a: Real64, b: Real64) -> (yes: bool)
    ensures
        yes == below(a, b),
{
    a.bits <= INFINITE && b.bits <= INFINITE && a.bits < b.bits
}

/// The face through which a ray enters the next cell.
pub open spec fn entry_face(axis: Axis, forward: bool) -> u8 {
    match axis {
        Axis::X => if forward {
            4
        } else {
            5
        },
        Axis::Y => if forward {
            0
        } else {
            1
        },
        Axis::Z => if forward {
            2
        } else {
            3
        },
    }
}

/// The next cell of a ray.
pub open spec fn entered(cell: RayCell, axis: Axis, forward: bool) -> RayCell {
    let d: int = if forward {
        1
    } else {
        -1
    };
    let face = entry_face(axis, forward);
    match axis {
        Axis::X => RayCell { x: (cell.x + d) as i32, face, ..cell },
        Axis::Y => RayCell { y: (cell.y + d) as i32, face, ..cell },
        Axis::Z => RayCell { z: (cell.z + d) as i32, face, ..cell },
    }
}

fn face_entered(axis: Axis, forward: bool) -> (face: u8)
    ensures
        face == entry_face(axis, forward),
{
    match axis {
        Axis::X => if forward {
            4
        } else {
            5
        },
        Axis::Y => if forward {
            0
        } else {
            1
        },
        Axis::Z => if forward {
            2
        } else {
            3
        },
    }
}

/// The face through which a ray enters a cell leads back to the cell it came from.
pub proof fn law_faces_lead_back(cell: RayCell, axis: Axis, forward: bool)
    requires
        i32::MIN < cell.x < i32::MAX,
        i32::MIN < cell.y < i32::MAX,
        i32::MIN < cell.z < i32::MAX,
    ensures
        ({
            let next = entered(cell, axis, forward);
            let (dx, dy, dz) = spec_face_offset(next.face);
            next.x + dx == cell.x && next.y + dy == cell.y && next.z + dz == cell.z
        }),
{
}

/// How a ray crosses from block to block along each axis: how far along the ray each
/// crossing is, one after the other, and whether it goes up.
#[derive(Debug)]
pub struct RayPath {
    pub x: Vec<Real64>,
    pub y: Vec<Real64>,
    pub z: Vec<Real64>,
    pub up_x: bool,
    pub up_y: bool,
    pub up_z: bool,
}

/// The `i`-th crossing of a list; out of reach past its end.
pub open spec fn crossing(list: Seq<Real64>, i: int) -> Real64 {
    if i < list.len() {
        list[i]
    } else {
        Real64 { bits: INFINITE }
    }
}

impl RayPath {
    /// The next crossings, so many of each axis being done.
    pub open spec fn next(&self, i: int, j: int, k: int) -> Crossings {
        Crossings {
            x: crossing(self.x@, i),
            y: crossing(self.y@, j),
            z: crossing(self.z@, k),
        }
    }

    /// The cells a ray that starts in this one may pass have coordinates.
    pub open spec fn fits(&self, cell: RayCell) -> bool {
        &&& i32::MIN <= cell.x - self.x@.len() && cell.x + self.x@.len() <= i32::MAX
        &&& i32::MIN <= cell.y - self.y@.len() && cell.y + self.y@.len() <= i32::MAX
        &&& i32::MIN <= cell.z - self.z@.len() && cell.z + self.z@.len() <= i32::MAX
    }
}

/// The cells that a ray enters within its reach, in turn, each with how far along the ray
/// that is; so many crossings of each axis being done.
pub open spec fn walk(path: RayPath, reach: Real64, cell: RayCell, i: int, j: int, k: int) -> Seq<
    (RayCell, Real64),
>
    recommends
        reach.bits < INFINITE,
    decreases path.x@.len() + path.y@.len() + path.z@.len() - i - j - k,
    when reach.bits < INFINITE && i >= 0 && j >= 0 && k >= 0 && i <= path.x@.len() && j
        <= path.y@.len() && k <= path.z@.len()
{
    let c = path.next(i, j, k);
    match first_axis(c) {
        Axis::X => if below(reach, c.x) {
            Seq::empty()
        } else {
            let next = entered(cell, Axis::X, path.up_x);
            seq![(next, c.x)] + walk(path, reach, next, i + 1, j, k)
        },
        Axis::Y => if below(reach, c.y) {
            Seq::empty()
        } else {
            let next = entered(cell, Axis::Y, path.up_y);
            seq![(next, c.y)] + walk(path, reach, next, i, j + 1, k)
        },
        Axis::Z => if below(reach, c.z) {
            Seq::empty()
        } else {
            let next = entered(cell, Axis::Z, path.up_z);
            seq![(next, c.z)] + walk(path, reach, next, i, j, k + 1)
        },
    }
}

fn crossing_at(list: &Vec<Real64>, i: usize) -> (c: Real64)
    ensures
        c == crossing(list@, i as int),
{
    if i < list.len() {
        list[i]
    } else {
        Real64 { bits: INFINITE }
    }
}

/// The cells of a ray within its reach: the one it starts in, at no distance, and those it
/// enters.
pub fn ray_cells(start: &RayCell, path: &RayPath, reach: Real64) -> (cells: Vec<(RayCell, Real64)>)
    requires
        reach.bits < INFINITE,
        path.fits(*start),
    ensures
        cells@ == seq![(*start, Real64 { bits: 0 })] + walk(*path, reach, *start, 0, 0, 0),
{
    let mut cells: Vec<(RayCell, Real64)> = Vec::new();
    let mut cell = *start;
    let (mut i, mut j, mut k): (usize, usize, usize) = (0, 0, 0);
    cells.push((cell, Real64 { bits: 0 }));
    assert(cells@ =~= seq![(*start, Real64 { bits: 0 })]);
    loop
        invariant
            reach.bits < INFINITE,
            path.fits(*start),
            i <= path.x@.len(),
            j <= path.y@.len(),
            k <= path.z@.len(),
            -i <= cell.x - start.x <= i,
            -j <= cell.y - start.y <= j,
            -k <= cell.z - start.z <= k,
            cells@ + walk(*path, reach, cell, i as int, j as int, k as int) == seq![
                (*start, Real64 { bits: 0 }),
            ] + walk(*path, reach, *start, 0, 0, 0),
        ensures
            cells@ == seq![(*start, Real64 { bits: 0 })] + walk(*path, reach, *start, 0, 0, 0),
        decreases path.x@.len() + path.y@.len() + path.z@.len() - i - j - k,
    {
        let c = Crossings {
            x: crossing_at(&path.x, i),
            y: crossing_at(&path.y, j),
            z: crossing_at(&path.z, k),
        };
        let axis = next_axis(&c);
        let (t, up): (Real64, bool) = match axis {
            Axis::X => (c.x, path.up_x),
            Axis::Y => (c.y, path.up_y),
            Axis::Z => (c.z, path.up_z),
        };
        if is_nearer(reach, t) {
            assert(cells@ + Seq::<(RayCell, Real64)>::empty() =~= cells@);
            break;
        }
        let ghost had = cells@;
        match axis {
            Axis::X => {
                cell = RayCell { x: if up { cell.x + 1 } else { cell.x - 1 }, face: face_entered(axis, up), ..cell };
                i += 1;
            },
            Axis::Y => {
                cell = RayCell { y: if up { cell.y + 1 } else { cell.y - 1 }, face: face_entered(axis, up), ..cell };
                j += 1;
            },
            Axis::Z => {
                cell = RayCell { z: if up { cell.z + 1 } else { cell.z - 1 }, face: face_entered(axis, up), ..cell };
                k += 1;
            },
        }
        cells.push((cell, t));
        assert(cells@ + walk(*path, reach, cell, i as int, j as int, k as int) =~= had + (seq![
            (cell, t),
        ] + walk(*path, reach, cell, i as int, j as int, k as int)));
    }
    cells
}

/// What a ray strikes: the first cell whose block can be pointed at, if there is one.
pub open spec fn block_struck(
    cells: Seq<(RayCell, Real64)>,
    blocks: Seq<BlockState>,
    hit: Option<(RayCell, Real64)>,
) -> bool {
    match hit {
        Some(found) => exists|n: int|
            0 <= n < cells.len() && found == cells[n] && pickable(#[trigger] blocks[n])
                && forall|m: int| 0 <= m < n ==> !pickable(#[trigger] blocks[m]),
        None => forall|m: int| 0 <= m < blocks.len() ==> !pickable(#[trigger] blocks[m]),
    }
}

/// The first of the cells of a ray whose block can be pointed at; what block is in each
/// `blocks` says.
pub fn raycast_block(cells: &Vec<(RayCell, Real64)>, blocks: &Vec<BlockState>) -> (hit: Option<
    (RayCell, Real64),
>)
    requires
        cells@.len() == blocks@.len(),
    ensures
        block_struck(cells@, blocks@, hit),
{
    let mut n: usize = 0;
    while n < cells.len()
        invariant
            n <= cells@.len(),
            cells@.len() == blocks@.len(),
            forall|m: int| 0 <= m < n ==> !pickable(#[trigger] blocks@[m]),
        decreases cells@.len() - n,
    {
        if is_pickable(blocks[n]) {
            return Some(cells[n]);
        }
        n += 1;
    }
    None
}

/// A ray enters no cell beyond its reach.
pub proof fn law_rays_end_at_their_reach(
    path: RayPath,
    reach: Real64,
    cell: RayCell,
    i: int,
    j: int,
    k: int,
    n: int,
)
    requires
        reach.bits < INFINITE,
        0 <= i <= path.x@.len(),
        0 <= j <= path.y@.len(),
        0 <= k <= path.z@.len(),
        0 <= n < walk(path, reach, cell, i, j, k).len(),
    ensures
        !below(reach, walk(path, reach, cell, i, j, k)[n].1),
    decreases path.x@.len() + path.y@.len() + path.z@.len() - i - j - k,
{
    let c = path.next(i, j, k);
    let axis = first_axis(c);
    if n > 0 {
        match axis {
            Axis::X => law_rays_end_at_their_reach(
                path,
                reach,
                entered(cell, axis, path.up_x),
                i + 1,
                j,
                k,
                n - 1,
            ),
            Axis::Y => law_rays_end_at_their_reach(
                path,
                reach,
                entered(cell, axis, path.up_y),
                i,
                j + 1,
                k,
                n - 1,
            ),
            Axis::Z => law_rays_end_at_their_reach(
                path,
                reach,
                entered(cell, axis, path.up_z),
                i,
                j,
                k + 1,
                n - 1,
            ),
        }
    }
}

/// A block that a ray hit.
#[derive(Debug, Clone, Copy, PartialEq, Eq, Structural)]
pub struct BlockHit {
    pub cell: RayCell,
    /// Where on the block, in sixteenths.
    pub cursor_x: u8,
    pub cursor_y: u8,
    pub cursor_z: u8,
    pub distance: Real64,
}

/// An entity that a ray hit.
#[derive(Debug, Clone, Copy, PartialEq, Eq, Structural)]
pub struct EntityHit {
    pub id: i32,
    pub distance: Real64,
    /// The point that was hit, from where the entity is.
    pub hit_x: Real32,
    pub hit_y: Real32,
    pub hit_z: Real32,
}

/// What the crosshair points at: an entity where it is nearer than the block, or where
/// there is no block.
pub open spec fn target_of(block: Option<BlockHit>, entity: Option<EntityHit>) -> Option<
    InteractionTarget,
> {
    let wins = match (entity, block) {
        (Some(e), Some(b)) => below(e.distance, b.distance),
        (Some(_), None) => true,
        _ => false,
    };
    if wins {
        let e = entity->0;
        Some(
            InteractionTarget::Entity { id: e.id, hit_x: e.hit_x, hit_y: e.hit_y, hit_z: e.hit_z },
        )
    } else {
        match block {
            Some(b) => Some(
                InteractionTarget::Block {
                    x: b.cell.x,
                    y: b.cell.y,
                    z: b.cell.z,
                    face: b.cell.face,
                    cursor_x: b.cursor_x,
                    cursor_y: b.cursor_y,
                    cursor_z: b.cursor_z,
                },
            ),
            None => None,
        }
    }
}

/// Choose what the crosshair points at.
pub fn pick_target(block: Option<BlockHit>, entity: Option<EntityHit>) -> (target: Option<
    InteractionTarget,
>)
    ensures
        target == target_of(block, entity),
{
    if let Some(e) = entity {
        let wins = match block {
            Some(b) => is_nearer(e.distance, b.distance),
            None => true,
        };
        if wins {
            return Some(
                InteractionTarget::Entity {
                    id: e.id,
                    hit_x: e.hit_x,
                    hit_y: e.hit_y,
                    hit_z: e.hit_z,
                },
            );
        }
    }
    match block {
        Some(b) => Some(
            InteractionTarget::Block {
                x: b.cell.x,
                y: b.cell.y,
                z: b.cell.z,
                face: b.cell.face,
                cursor_x: b.cursor_x,
                cursor_y: b.cursor_y,
                cursor_z: b.cursor_z,
            },
        ),
        None => None,
    }
}

/// The nearest of the entities that a ray hit, but for the player's own; of equally
/// near ones the first.
pub open spec fn nearest_hit(hits: Seq<EntityHit>, player_id: i32, n: int) -> Option<int>
    decreases n,
{
    if n <= 0 {
        None
    } else if hits[n - 1].id == player_id {
        nearest_hit(hits, player_id, n - 1)
    } else {
        match nearest_hit(hits, player_id, n - 1) {
            None => Some(n - 1),
            Some(i) => if below(hits[n - 1].distance, hits[i].distance) {
                Some(n - 1)
            } else {
                Some(i)
            },
        }
    }
}

/// The entity that a ray hit first.
pub open spec fn entity_hit(hits: Seq<EntityHit>, player_id: i32) -> Option<EntityHit> {
    match nearest_hit(hits, player_id, hits.len() as int) {
        Some(i) => Some(hits[i]),
        None => None,
    }
}

/// The nearest of the entities that a ray hit.
pub fn raycast_entity(hits: &Vec<EntityHit>, player_id: i32) -> (hit: Option<EntityHit>)
    ensures
        hit == entity_hit(hits@, player_id),
{
    let mut best: Option<usize> = None;
    let mut i: usize = 0;
    while i < hits.len()
        invariant
            i <= hits@.len(),
            match nearest_hit(hits@, player_id, i as int) {
                None => best is None,
                Some(k) => best == Some(k as usize) && 0 <= k < i,
            },
        decreases hits@.len() - i,
    {
        if hits[i].id != player_id {
            best = match best {
                None => Some(i),
                Some(k) => if is_nearer(hits[i].distance, hits[k].distance) {
                    Some(i)
                } else {
                    Some(k)
                },
            };
        }
        i += 1;
    }
    match best {
        Some(k) => Some(hits[k]),
        None => None,
    }
}

/// How far blocks can be reached, in tenths of a block.
pub open spec fn spec_block_reach(creative: bool) -> int {
    if creative {
        50
    } else {
        45
    }
}

/// How far entities can be reached, in tenths of a block.
pub open spec fn spec_entity_reach(creative: bool) -> int {
    if creative {
        60
    } else {
        30
    }
}

/// How far blocks can be reached, in tenths of a block.
pub fn block_reach(creative: bool) -> (tenths: i32)
    ensures
        tenths == spec_block_reach(creative),
{
    if creative {
        50
    } else {
        45
    }
}

/// How far entities can be reached, in tenths of a block.
pub fn entity_reach(creative: bool) -> (tenths: i32)
    ensures
        tenths == spec_entity_reach(creative),
{
    if creative {
        60
    } else {
        30
    }
}

} // verus!
