//! What aiming, terrain and its meshes are for: the first thing on the ray, blocks in their
//! columns, and meshes where something changed and the player can see.

use vstd::prelude::*;
use crate::packets::Real64;
use super::aim::{
    block_struck, entered, first_axis, nearest_hit, target_of, Axis, BlockHit, Crossings, EntityHit,
    RayCell,
};
use super::player::InteractionTarget;
use super::residency::{
    bounded_to_view, column_distance, far_unloaded, near, next_generated, Residency,
};
use super::rules::{pickable, BlockState};
use super::sections::{
    budget_taken, chunk_of, column_and_neighbours, dirtied_by, distance_sq, section_of, ChunkPos,
    Columns, SectionPos,
};
use super::terrain::{
    block_changed, block_predicted, column_applied, edits_for, record_edit, unloaded,
    BlockEdit, Terrain,
};

verus! {

// ── Aiming ────────────────────────────────────────────────────────────────

/// The next block along a ray is the one that it comes to first, on whichever axis.
pub proof fn law_rays_cross_the_nearest_border(c: Crossings)
    requires
        c.x.bits <= 0x7ff0_0000_0000_0000,
        c.y.bits <= 0x7ff0_0000_0000_0000,
        c.z.bits <= 0x7ff0_0000_0000_0000,
    ensures
        ({
            let t = match first_axis(c) {
                Axis::X => c.x,
                Axis::Y => c.y,
                Axis::Z => c.z,
            };
            &&& t.bits <= c.x.bits && t.bits <= c.y.bits && t.bits <= c.z.bits
            &&& c.x.bits < c.y.bits && c.x.bits < c.z.bits ==> first_axis(c) == Axis::X
            &&& c.y.bits < c.x.bits && c.y.bits < c.z.bits ==> first_axis(c) == Axis::Y
            &&& c.z.bits < c.x.bits && c.z.bits < c.y.bits ==> first_axis(c) == Axis::Z
        }),
{
}

/// A ray goes on by one block, along one axis, the way it points.
pub proof fn law_rays_go_block_by_block(cell: RayCell, forward: bool)
    requires
        i32::MIN < cell.x < i32::MAX,
        i32::MIN < cell.y < i32::MAX,
        i32::MIN < cell.z < i32::MAX,
    ensures
        ({
            let d: int = if forward {
                1
            } else {
                -1
            };
            let (x, y, z) = (
                entered(cell, Axis::X, forward),
                entered(cell, Axis::Y, forward),
                entered(cell, Axis::Z, forward),
            );
            &&& x.x == cell.x + d && x.y == cell.y && x.z == cell.z
            &&& y.x == cell.x && y.y == cell.y + d && y.z == cell.z
            &&& z.x == cell.x && z.y == cell.y && z.z == cell.z + d
            &&& forward ==> x.face == 4 && y.face == 0 && z.face == 2
            &&& !forward ==> x.face == 5 && y.face == 1 && z.face == 3
        }),
{
}

/// The crosshair strikes the first block on the ray that is neither air nor liquid, and
/// nothing where there is none.
pub proof fn law_the_first_solid_block_is_struck(
    cells: Seq<(RayCell, Real64)>,
    blocks: Seq<BlockState>,
    hit: Option<(RayCell, Real64)>,
    n: int,
)
    requires
        block_struck(cells, blocks, hit),
        cells.len() == blocks.len(),
        0 <= n < blocks.len(),
        forall|m: int| 0 <= m < n ==> (#[trigger] blocks[m]).id == 0 || 8 <= blocks[m].id <= 11,
    ensures
        blocks[n].id != 0 && !(8 <= blocks[n].id <= 11) ==> hit == Some(cells[n]),
{
    if blocks[n].id != 0 && !(8 <= blocks[n].id <= 11) {
        assert(pickable(blocks[n]));
        if let Some(found) = hit {
            let k = choose|k: int|
                0 <= k < cells.len() && found == cells[k] && pickable(#[trigger] blocks[k])
                    && forall|m: int| 0 <= m < k ==> !pickable(#[trigger] blocks[m]);
            if k < n {
                assert(!pickable(blocks[k]));
            }
        }
    }
}

/// What is struck can be pointed at.
pub proof fn law_struck_blocks_are_solid(
    cells: Seq<(RayCell, Real64)>,
    blocks: Seq<BlockState>,
    hit: Option<(RayCell, Real64)>,
)
    requires
        block_struck(cells, blocks, hit),
        cells.len() == blocks.len(),
        forall|m: int|
            0 <= m < blocks.len() ==> (#[trigger] blocks[m]).id == 0 || 8 <= blocks[m].id <= 11,
    ensures
        hit is None,
{
}

/// The crosshair points at the nearer of block and entity, with the place, face and point
/// that were hit; at a block as near as an entity it points at the block.
pub proof fn law_the_nearer_is_pointed_at(block: Option<BlockHit>, entity: Option<EntityHit>)
    ensures
        block is None && entity is None <==> target_of(block, entity) is None,
        entity matches Some(e) ==> ((block is None || (block matches Some(b) && e.distance.bits
            < b.distance.bits <= 0x7ff0_0000_0000_0000)) ==> (target_of(block, entity)
            matches Some(InteractionTarget::Entity { id, hit_x, hit_y, hit_z }) && id == e.id
            && hit_x == e.hit_x && hit_y == e.hit_y && hit_z == e.hit_z)),
        block matches Some(b) ==> ((entity is None || (entity matches Some(e) && b.distance.bits
            <= e.distance.bits)) ==> (target_of(block, entity) matches Some(
            InteractionTarget::Block { x, y, z, face, cursor_x, cursor_y, cursor_z },
        ) && x == b.cell.x && y == b.cell.y && z == b.cell.z && face == b.cell.face && cursor_x
            == b.cursor_x && cursor_y == b.cursor_y && cursor_z == b.cursor_z)),
{
}

/// Of the entities that a ray hit the nearest counts, and never the player's own; without
/// any other there is none.
pub proof fn law_the_nearest_entity_is_hit(hits: Seq<EntityHit>, player_id: i32, n: int, j: int)
    requires
        0 <= j < n <= hits.len(),
        forall|i: int|
            0 <= i < hits.len() ==> (#[trigger] hits[i]).distance.bits <= 0x7ff0_0000_0000_0000,
    ensures
        nearest_hit(hits, player_id, n) matches Some(i) ==> 0 <= i < n && hits[i].id != player_id && (
        hits[j].id != player_id ==> hits[i].distance.bits <= hits[j].distance.bits),
        hits[j].id != player_id ==> nearest_hit(hits, player_id, n) is Some,
    decreases n,
{
    if j < n - 1 {
        law_the_nearest_entity_is_hit(hits, player_id, n - 1, j);
        lemma_nearest_in_range(hits, player_id, n - 1);
    } else {
        lemma_nearest_in_range(hits, player_id, n - 1);
    }
}

proof fn lemma_nearest_in_range(hits: Seq<EntityHit>, player_id: i32, n: int)
    requires
        0 <= n <= hits.len(),
    ensures
        nearest_hit(hits, player_id, n) matches Some(i) ==> 0 <= i < n && hits[i].id != player_id,
    decreases n,
{
    if n > 0 {
        lemma_nearest_in_range(hits, player_id, n - 1);
    }
}

// ── Columns and sections ──────────────────────────────────────────────────

/// A chunk is sixteen blocks: block coordinates from its first to its sixteenth are in it,
/// below nought as above.
pub proof fn law_chunks_are_sixteen_blocks(chunk: int, b: int)
    ensures
        chunk_of(b) == chunk <==> 16 * chunk <= b < 16 * chunk + 16,
{
}

/// A record of a column is a block of it: at its place in the column, with its state.
pub proof fn law_records_are_blocks_of_their_column(
    chunk_x: i32,
    chunk_z: i32,
    r: crate::clientbound::BlockChangeRecord,
)
    requires
        r.x < 16,
        r.z < 16,
        -0x800_0000 <= chunk_x < 0x7ff_ffff,
        -0x800_0000 <= chunk_z < 0x7ff_ffff,
    ensures
        ({
            let e = record_edit(chunk_x as int, chunk_z as int, r);
            &&& e.x == 16 * chunk_x + r.x && e.y == r.y && e.z == 16 * chunk_z + r.z
            &&& e.state.id == r.id && e.state.meta == r.meta
            &&& e.spec_column() == (ChunkPos { x: chunk_x, z: chunk_z })
        }),
{
}

/// A changed block of a loaded column is meshed anew with its section, and sections that it
/// does not touch are not; a change elsewhere waits its turn and touches no mesh.
pub proof fn law_changed_blocks_are_meshed(
    before: Terrain,
    edit: BlockEdit,
    after: Terrain,
    s: SectionPos,
)
    requires
        block_changed(before, edit, after),
        0 <= edit.y < 256,
    ensures
        before.columns.loaded(edit.spec_column()) ==> {
            &&& after.residency.dirty@.contains(edit.spec_section())
            &&& after.columns.has_section(edit.spec_section())
            &&& after.pending == before.pending
            &&& before.residency.dirty@.contains(s) ==> after.residency.dirty@.contains(s)
            &&& after.residency.dirty@.contains(s) && !before.residency.dirty@.contains(s) ==> {
                &&& -1 <= s.x - edit.spec_section().x <= 1
                &&& -1 <= s.y - edit.spec_section().y <= 1
                &&& -1 <= s.z - edit.spec_section().z <= 1
            }
        },
        !before.columns.loaded(edit.spec_column()) ==> {
            &&& after.residency.dirty@ == before.residency.dirty@
            &&& after.columns == before.columns
            &&& after.pending@.len() == before.pending@.len() + 1
            &&& after.pending@.last() == edit
        },
        after.residency.urgent == before.residency.urgent,
{
    let (x, y, z) = (edit.x as int, edit.y as int, edit.z as int);
    let touched = dirtied_by(x, y, z);
    assert(touched[0] == section_of(x, y, z));
    assert(touched.to_set().contains(section_of(x, y, z)));
    if before.columns.loaded(edit.spec_column()) {
        assert(seq![edit][0].inside());
        assert(super::terrain::in_section(seq![edit], edit.spec_section()));
        if after.residency.dirty@.contains(s) && !before.residency.dirty@.contains(s) {
            assert(touched.contains(s));
            lemma_touched_are_near(x, y, z, s);
        }
    }
}

proof fn lemma_touched_are_near(x: int, y: int, z: int, s: SectionPos)
    requires
        dirtied_by(x, y, z).contains(s),
        i32::MIN <= x <= i32::MAX,
        i32::MIN <= z <= i32::MAX,
    ensures
        -1 <= s.x - section_of(x, y, z).x <= 1,
        -1 <= s.y - section_of(x, y, z).y <= 1,
        -1 <= s.z - section_of(x, y, z).z <= 1,
{
    let list = dirtied_by(x, y, z);
    let i = choose|i: int| 0 <= i < list.len() && list[i] == s;
    assert(list.len() <= 4);
    assert(i == 0 || i == 1 || i == 2 || i == 3);
}

/// A block that the player sets ahead of the server is meshed first, with what it touches;
/// one from the server is not. Where there is no column nothing happens.
pub proof fn law_predictions_are_meshed_first(before: Terrain, edit: BlockEdit, after: Terrain)
    requires
        block_predicted(before, edit, after),
        0 <= edit.y < 256,
    ensures
        before.columns.loaded(edit.spec_column()) ==> {
            &&& after.residency.urgent@.contains(edit.spec_section())
            &&& after.residency.dirty@.contains(edit.spec_section())
            &&& after.columns.has_section(edit.spec_section())
            &&& after.pending == before.pending
        },
        !before.columns.loaded(edit.spec_column()) ==> after == before,
{
    let touched = dirtied_by(edit.x as int, edit.y as int, edit.z as int);
    assert(touched[0] == edit.spec_section());
    assert(touched.to_set().contains(edit.spec_section()));
    if before.columns.loaded(edit.spec_column()) {
        assert(seq![edit][0].inside());
        assert(super::terrain::in_section(seq![edit], edit.spec_section()));
    }
}

/// A column that arrives is loaded, has the sections told, gets the changes that waited for
/// it, and is meshed together with its four neighbours.
pub proof fn law_arrived_columns_are_there(
    before: Terrain,
    c: ChunkPos,
    full: bool,
    sections: Seq<i32>,
    edits: Seq<BlockEdit>,
    after: Terrain,
    other: ChunkPos,
    s: SectionPos,
)
    requires
        column_applied(before, c, full, sections, edits, after),
        full || sections.len() > 0,
        i32::MIN < c.x < i32::MAX,
        i32::MIN < c.z < i32::MAX,
    ensures
        after.columns.loaded(c),
        other != c ==> after.columns.loaded(other) == before.columns.loaded(other),
        edits == edits_for(before.pending@, c),
        s.spec_chunk() == c && sections.contains(s.y) ==> after.columns.has_section(s)
            && after.residency.dirty@.contains(s),
        s.spec_chunk() == c && full && !sections.contains(s.y) && edits.len() == 0
            ==> !after.columns.has_section(s),
        s.spec_chunk() == c && !full && before.columns.has_section(s) ==> after.columns.has_section(
            s,
        ),
        before.residency.dirty@.contains(s) ==> after.residency.dirty@.contains(s),
        before.columns.has_section(s) && ((s.x == c.x && (s.z == c.z - 1 || s.z == c.z + 1)) || (s.z
            == c.z && (s.x == c.x - 1 || s.x == c.x + 1))) && before.columns.loaded(
            s.spec_chunk(),
        ) ==> after.residency.dirty@.contains(s),
{
    assert(column_and_neighbours(c).contains(c));
    if (s.x == c.x && (s.z == c.z - 1 || s.z == c.z + 1)) || (s.z == c.z && (s.x == c.x - 1 || s.x
        == c.x + 1)) {
        assert(column_and_neighbours(c).contains(s.spec_chunk()));
    }
    if edits.len() == 0 {
        assert(!super::terrain::in_section(edits, s));
    }
}

/// A column that is unloaded is gone, and no other is; changes that wait stay, and its
/// neighbours are meshed anew.
pub proof fn law_unloaded_columns_are_gone(
    before: Terrain,
    c: ChunkPos,
    after: Terrain,
    other: ChunkPos,
    s: SectionPos,
)
    requires
        unloaded(before, c, after),
        i32::MIN < c.x < i32::MAX,
        i32::MIN < c.z < i32::MAX,
    ensures
        !after.columns.loaded(c),
        other != c ==> after.columns.loaded(other) == before.columns.loaded(other),
        s.spec_chunk() == c ==> !after.columns.has_section(s),
        s.spec_chunk() != c ==> after.columns.has_section(s) == before.columns.has_section(s),
        after.pending == before.pending,
        s.spec_chunk() == c && 0 <= s.y < 16 ==> after.residency.dirty@.contains(s),
        before.columns.loaded(s.spec_chunk()) && before.columns.has_section(s) && ((s.x == c.x && (
        s.z == c.z - 1 || s.z == c.z + 1)) || (s.z == c.z && (s.x == c.x - 1 || s.x == c.x + 1)))
            ==> after.residency.dirty@.contains(s),
{
    assert(column_and_neighbours(c).contains(c));
    if (s.x == c.x && (s.z == c.z - 1 || s.z == c.z + 1)) || (s.z == c.z && (s.x == c.x - 1 || s.x
        == c.x + 1)) {
        assert(column_and_neighbours(c).contains(s.spec_chunk()));
        assert(s.spec_chunk() != c);
    }
}

// ── Meshes ────────────────────────────────────────────────────────────────

/// A frame meshes no section twice and loses none; all that is not loaded any more goes at
/// once, and of the rest none that stays is nearer to the player than one that is taken.
pub proof fn law_near_sections_are_meshed_first(
    before: Set<SectionPos>,
    columns: Columns,
    max: int,
    bx: int,
    by: int,
    bz: int,
    taken: Seq<SectionPos>,
    after: Set<SectionPos>,
    a: SectionPos,
    b: SectionPos,
)
    requires
        budget_taken(before, columns, max, bx, by, bz, taken, after),
        max >= 0,
    ensures
        before.contains(a) <==> taken.contains(a) || after.contains(a),
        !(taken.contains(a) && after.contains(a)),
        before.contains(a) && !columns.loaded(a.spec_chunk()) ==> taken.contains(a),
        taken.contains(a) && columns.loaded(a.spec_chunk()) && after.contains(b) ==> distance_sq(
            a,
            chunk_of(bx),
            chunk_of(by),
            chunk_of(bz),
        ) <= distance_sq(b, chunk_of(bx), chunk_of(by), chunk_of(bz)),
{
    if taken.contains(a) && columns.loaded(a.spec_chunk()) && after.contains(b) {
        let r = super::sections::removals(before, columns).len() as int;
        let i = choose|i: int| 0 <= i < taken.len() && taken[i] == a;
        if i < r {
            assert(taken.take(r)[i] == a);
            assert(taken.take(r).to_set().contains(a));
        } else {
            assert(taken.skip(r)[i - r] == a);
            assert(taken.skip(r).to_set().contains(a));
        }
    }
}

/// Within a distance means within it both ways.
pub proof fn law_near_is_a_square(c: ChunkPos, cx: int, cz: int, keep: int)
    ensures
        near(c, cx, cz, keep) <==> cx - keep <= c.x <= cx + keep && cz - keep <= c.z <= cz + keep,
{
}

/// After a pass from a new column exactly the loaded columns more than the render distance
/// and two away are dropped.
pub proof fn law_far_meshes_are_dropped(
    before: Residency,
    columns: Columns,
    render_distance: int,
    bx: int,
    bz: int,
    after: Residency,
    removals: Seq<SectionPos>,
    c: ChunkPos,
)
    requires
        bounded_to_view(before, columns, render_distance, bx, bz, after, removals),
        before.last is None,
    ensures
        after.evicted@.contains(c) <==> columns.loaded(c) && !(chunk_of(bx) - render_distance - 2
            <= c.x <= chunk_of(bx) + render_distance + 2 && chunk_of(bz) - render_distance - 2
            <= c.z <= chunk_of(bz) + render_distance + 2),
        after.urgent == before.urgent,
{
}

/// Of a generated world the columns more than three past the render distance are unloaded:
/// every section of theirs is freed, and no other, and none of them is meshed any more.
pub proof fn law_far_columns_are_unloaded(
    columns: Columns,
    dirty: Set<SectionPos>,
    render_distance: int,
    bx: int,
    bz: int,
    columns_after: Columns,
    dirty_after: Set<SectionPos>,
    removed: Seq<SectionPos>,
    s: SectionPos,
)
    requires
        far_unloaded(
            columns,
            dirty,
            render_distance,
            bx,
            bz,
            columns_after,
            dirty_after,
            removed,
        ),
        0 <= s.y < 16,
    ensures
        ({
            let reach = render_distance + 3;
            let inside = chunk_of(bx) - reach <= s.x <= chunk_of(bx) + reach && chunk_of(bz) - reach
                <= s.z <= chunk_of(bz) + reach;
            &&& removed.contains(s) <==> columns.loaded(s.spec_chunk()) && !inside
            &&& dirty_after.contains(s) <==> dirty.contains(s) && (inside || !columns.loaded(
                s.spec_chunk(),
            ))
        }),
{
}

/// The columns generated next are missing ones within the render distance, at most a dozen,
/// the nearest first, and none while eighty sections wait.
pub proof fn law_near_columns_are_generated_first(
    columns: Columns,
    backlog: int,
    render_distance: int,
    bx: int,
    bz: int,
    chosen: Seq<ChunkPos>,
    i: int,
    j: int,
)
    requires
        next_generated(columns, backlog, render_distance, bx, bz, chosen),
        0 <= i <= j < chosen.len(),
    ensures
        chosen.len() <= 12,
        backlog < 80,
        !columns.loaded(chosen[i]),
        chunk_of(bx) - render_distance <= chosen[i].x <= chunk_of(bx) + render_distance,
        chunk_of(bz) - render_distance <= chosen[i].z <= chunk_of(bz) + render_distance,
        column_distance(chosen[i], chunk_of(bx), chunk_of(bz)) <= column_distance(
            chosen[j],
            chunk_of(bx),
            chunk_of(bz),
        ),
        i != j ==> chosen[i] != chosen[j],
{
    assert(chosen.contains(chosen[i]));
}

} // verus!
