//! Keeping meshes to what the player can see: evicting far columns, bringing them
//! back, and streaming a generated world in.

use vstd::prelude::*;
use crate::game::sections::{
    block_dirty_sections, chunk_of, dirtied_by, lemma_push_contains, lemma_take_contains,
    mark_column, to_chunk, ChunkPos, Columns, SectionPos, SectionSet, COLUMN_SECTIONS,
    RESIDENCY_MARGIN,
};

verus! {

/// New columns generated per call while a world streams in.
pub const GEN_BUDGET: usize = 12;

/// No columns are generated while this many sections wait for meshing.
pub const BACKLOG_LIMIT: usize = 80;

/// How far beyond the render distance generated columns are kept, in chunks.
pub const STREAM_MARGIN: i32 = 3;

/// What waits for meshing, and what has been dropped from the graphics memory.
#[derive(Debug)]
pub struct Residency {
    /// Sections that wait for (re)meshing or removal.
    pub dirty: SectionSet,
    /// Sections of local predictions, meshed before the others.
    pub urgent: SectionSet,
    /// Loaded columns whose meshes were dropped.
    pub evicted: Vec<ChunkPos>,
    /// The player's column at the last eviction pass.
    pub last: Option<ChunkPos>,
}

/// The sections of local predictions were taken out of both queues.
pub open spec fn urgent_taken(before: Residency, after: Residency, taken: Seq<SectionPos>) -> bool {
    &&& taken.no_duplicates()
    &&& taken.to_set() == before.urgent@
    &&& after.urgent@ == Set::<SectionPos>::empty()
    &&& after.dirty@ == before.dirty@.difference(before.urgent@)
    &&& after.evicted == before.evicted
    &&& after.last == before.last
}

pub open spec fn abs_diff(a: int, b: int) -> int {
    if a < b {
        b - a
    } else {
        a - b
    }
}

/// Within `keep` columns of `(cx, cz)` in both directions.
pub open spec fn near(c: ChunkPos, cx: int, cz: int, keep: int) -> bool {
    abs_diff(c.x as int, cx) <= keep && abs_diff(c.z as int, cz) <= keep
}

fn is_near(c: ChunkPos, cx: i32, cz: i32, keep: i32) -> (yes: bool)
    ensures
        yes == near(c, cx as int, cz as int, keep as int),
{
    let dx: i64 = c.x as i64 - cx as i64;
    let dz: i64 = c.z as i64 - cz as i64;
    let k: i64 = keep as i64;
    -k <= dx && dx <= k && -k <= dz && dz <= k
}

fn holds_column(list: &Vec<ChunkPos>, c: ChunkPos) -> (yes: bool)
    ensures
        yes == list@.contains(c),
{
    let mut i: usize = 0;
    while i < list.len()
        invariant
            i <= list@.len(),
            forall|j: int| 0 <= j < i ==> list@[j] != c,
        decreases list@.len() - i,
    {
        if list[i] == c {
            return true;
        }
        i += 1;
    }
    false
}

/// Resident meshes were bounded to the view of a player at block `(bx, bz)`: where
/// the player entered another column, the dropped columns are those loaded ones out
/// of range, the ones back in range are queued for meshing, and the sections of the
/// newly dropped ones are handed out to be freed.
pub open spec fn bounded_to_view(
    before: Residency,
    columns: Columns,
    render_distance: int,
    bx: int,
    bz: int,
    after: Residency,
    removals: Seq<SectionPos>,
) -> bool {
    let cx = chunk_of(bx);
    let cz = chunk_of(bz);
    let here = ChunkPos { x: cx as i32, z: cz as i32 };
    let keep = render_distance + RESIDENCY_MARGIN;
    if before.last == Some(here) {
        after == before && removals.len() == 0
    } else {
        &&& after.last == Some(here)
        &&& after.urgent == before.urgent
        &&& forall|c: ChunkPos|
            #[trigger] after.evicted@.contains(c) <==> columns.loaded(c) && !near(c, cx, cz, keep)
        &&& forall|s: SectionPos|
            #[trigger] after.dirty@.contains(s) <==> !before.to_evict(
                columns,
                s.spec_chunk(),
                cx,
                cz,
                keep,
            ) && (before.dirty@.contains(s) || (before.evicted@.contains(s.spec_chunk()) && near(
                s.spec_chunk(),
                cx,
                cz,
                keep,
            ) && columns.has_section(s)))
        &&& removals.no_duplicates()
        &&& forall|s: SectionPos|
            #[trigger] removals.contains(s) <==> 0 <= s.y < COLUMN_SECTIONS && before.to_evict(
                columns,
                s.spec_chunk(),
                cx,
                cz,
                keep,
            )
    }
}

impl Residency {
    pub open spec fn wf(&self) -> bool {
        &&& self.dirty.wf()
        &&& self.urgent.wf()
        &&& self.evicted@.no_duplicates()
    }

    pub fn new() -> (r: Residency)
        ensures
            r.wf(),
            r.dirty@ == Set::<SectionPos>::empty(),
            r.urgent@ == Set::<SectionPos>::empty(),
            r.evicted@.len() == 0,
            r.last is None,
    {
        Residency {
            dirty: SectionSet::new(),
            urgent: SectionSet::new(),
            evicted: Vec::new(),
            last: None,
        }
    }

    /// A loaded column that is out of range and was not dropped yet.
    pub open spec fn to_evict(&self, columns: Columns, c: ChunkPos, cx: int, cz: int, keep: int) -> bool {
        columns.loaded(c) && !near(c, cx, cz, keep) && !self.evicted@.contains(c)
    }

    /// Bound resident meshes to the player's view. Only acts when the player, at
    /// block `(bx, bz)`, has entered another column. Dropped columns that are back
    /// in range are queued for meshing again, and loaded columns that drifted out
    /// of range are dropped: returns the sections whose mesh to free.
    pub fn enforce_render_distance(
        &mut self,
        columns: &Columns,
        render_distance: u32,
        bx: i32,
        bz: i32,
    ) -> (removals: Vec<SectionPos>)
        requires
            old(self).wf(),
            columns.wf(),
            render_distance <= i32::MAX - RESIDENCY_MARGIN,
        ensures
            final(self).wf(),
            bounded_to_view(
                *old(self),
                *columns,
                render_distance as int,
                bx as int,
                bz as int,
                *final(self),
                removals@,
            ),
    {
        let cx = to_chunk(bx);
        let cz = to_chunk(bz);
        let here = ChunkPos::new(cx, cz);
        if let Some(last) = self.last {
            if last == here {
                return Vec::new();
            }
        }
        self.last = Some(here);
        let keep: i32 = render_distance as i32 + RESIDENCY_MARGIN;
        let ghost was = self.evicted@;
        let ghost dirty_before = self.dirty@;
        let mut kept: Vec<ChunkPos> = Vec::new();
        let mut i: usize = 0;
        while i < self.evicted.len()
            invariant
                i <= self.evicted@.len(),
                self.evicted@ == was,
                was.no_duplicates(),
                self.urgent == old(self).urgent,
                self.urgent.wf(),
                self.last == Some(here),
                columns.wf(),
                self.dirty.wf(),
                kept@.no_duplicates(),
                forall|c: ChunkPos|
                    #[trigger] kept@.contains(c) <==> was.take(i as int).contains(c)
                        && columns.loaded(c) && !near(c, cx as int, cz as int, keep as int),
                forall|s: SectionPos|
                    #[trigger] self.dirty@.contains(s) <==> dirty_before.contains(s) || (was.take(
                        i as int,
                    ).contains(s.spec_chunk()) && near(
                        s.spec_chunk(),
                        cx as int,
                        cz as int,
                        keep as int,
                    ) && columns.has_section(s)),
            decreases self.evicted@.len() - i,
        {
            let c = self.evicted[i];
            proof {
                lemma_take_contains(was, i as int);
                lemma_push_contains(kept@, c);
                assert(!was.take(i as int).contains(c));
            }
            let close = is_near(c, cx, cz, keep);
            let found = columns.find(c);
            if close || found.is_none() {
                if close && found.is_some() {
                    assert(columns.loaded(c));
                    mark_column(&mut self.dirty, columns, c);
                } else {
                    assert forall|s: SectionPos| s.spec_chunk() == c implies !(near(
                        c,
                        cx as int,
                        cz as int,
                        keep as int,
                    ) && columns.has_section(s)) by {
                        if columns.has_section(s) {
                            assert(columns.loaded(c));
                        }
                    }
                }
            } else {
                assert(columns.loaded(c));
                kept.push(c);
            }
            i += 1;
        }
        assert(was.take(i as int) =~= was);
        self.evicted = kept;
        let ghost evicted_mid = self.evicted@;
        let ghost dirty_mid = self.dirty@;
        let mut removals: Vec<SectionPos> = Vec::new();
        let mut k: usize = 0;
        while k < columns.list.len()
            invariant
                k <= columns.list@.len(),
                columns.wf(),
                self.dirty.wf(),
                self.urgent == old(self).urgent,
                self.urgent.wf(),
                self.last == Some(here),
                self.evicted@.no_duplicates(),
                was == old(self).evicted@,
                forall|c: ChunkPos|
                    #[trigger] evicted_mid.contains(c) <==> was.contains(c) && columns.loaded(c)
                        && !near(c, cx as int, cz as int, keep as int),
                forall|c: ChunkPos|
                    #[trigger] self.evicted@.contains(c) <==> evicted_mid.contains(c)
                        || evicted_from(*columns, k as int, was, c, cx as int, cz as int, keep as int),
                forall|s: SectionPos|
                    #[trigger] self.dirty@.contains(s) <==> dirty_mid.contains(s)
                        && !evicted_from(
                        *columns,
                        k as int,
                        was,
                        s.spec_chunk(),
                        cx as int,
                        cz as int,
                        keep as int,
                    ),
                removals@.no_duplicates(),
                forall|s: SectionPos|
                    #[trigger] removals@.contains(s) <==> 0 <= s.y < COLUMN_SECTIONS
                        && evicted_from(
                        *columns,
                        k as int,
                        was,
                        s.spec_chunk(),
                        cx as int,
                        cz as int,
                        keep as int,
                    ),
            decreases columns.list@.len() - k,
        {
            let c = columns.list[k].pos;
            assert(columns.loaded(c));
            proof {
                lemma_evicted_from_step(*columns, k as int, was, cx as int, cz as int, keep as int);
                lemma_push_contains(self.evicted@, c);
            }
            if !is_near(c, cx, cz, keep) && !holds_column(&self.evicted, c) {
                assert(!was.contains(c));
                self.evicted.push(c);
                push_column(&mut removals, c);
                self.dirty.remove_column(c);
            } else {
                assert(near(c, cx as int, cz as int, keep as int) || was.contains(c)
                    || evicted_from(
                    *columns,
                    k as int,
                    was,
                    c,
                    cx as int,
                    cz as int,
                    keep as int,
                ));
            }
            k += 1;
        }
        assert forall|c: ChunkPos| evicted_from(
            *columns,
            k as int,
            was,
            c,
            cx as int,
            cz as int,
            keep as int,
        ) == old(self).to_evict(*columns, c, cx as int, cz as int, keep as int) by {}
        removals
    }

    /// Mark the sections a local prediction touches, to be meshed first.
    pub fn mark_block_dirty_urgent(&mut self, x: i32, y: i32, z: i32)
        requires
            old(self).wf(),
        ensures
            final(self).wf(),
            final(self).dirty@ == old(self).dirty@.union(
                dirtied_by(x as int, y as int, z as int).to_set(),
            ),
            final(self).urgent@ == old(self).urgent@.union(
                dirtied_by(x as int, y as int, z as int).to_set(),
            ),
            final(self).evicted == old(self).evicted,
            final(self).last == old(self).last,
    {
        let sections = block_dirty_sections(x, y, z);
        self.dirty.extend(&sections);
        self.urgent.extend(&sections);
    }

    /// Mark the sections a block edit touches.
    pub fn mark_block_dirty(&mut self, x: i32, y: i32, z: i32)
        requires
            old(self).wf(),
        ensures
            final(self).wf(),
            final(self).dirty@ == old(self).dirty@.union(
                dirtied_by(x as int, y as int, z as int).to_set(),
            ),
            final(self).urgent == old(self).urgent,
            final(self).evicted == old(self).evicted,
            final(self).last == old(self).last,
    {
        let sections = block_dirty_sections(x, y, z);
        self.dirty.extend(&sections);
    }

    /// Drain the sections of local predictions. They leave the ordinary queue too,
    /// so that no section is submitted twice in a frame.
    pub fn take_urgent_remesh(&mut self) -> (taken: Vec<SectionPos>)
        requires
            old(self).wf(),
        ensures
            final(self).wf(),
            urgent_taken(*old(self), *final(self), taken@),
    {
        let mut taken: Vec<SectionPos> = Vec::new();
        std::mem::swap(&mut taken, &mut self.urgent.items);
        assert(self.urgent@ =~= Set::empty());
        let mut i: usize = 0;
        assert(self.dirty@ =~= old(self).dirty@.difference(taken@.take(0).to_set()));
        while i < taken.len()
            invariant
                i <= taken@.len(),
                self.dirty.wf(),
                self.urgent.wf(),
                self.urgent@ == Set::<SectionPos>::empty(),
                self.evicted == old(self).evicted,
                self.last == old(self).last,
                self.dirty@ == old(self).dirty@.difference(taken@.take(i as int).to_set()),
            decreases taken@.len() - i,
        {
            proof {
                lemma_take_contains(taken@, i as int);
            }
            self.dirty.remove(taken[i]);
            i += 1;
            assert(self.dirty@ =~= old(self).dirty@.difference(taken@.take(i as int).to_set()));
        }
        assert(taken@.take(i as int) =~= taken@);
        taken
    }

    /// Mark every section of every loaded column dirty.
    pub fn mark_all_sections_dirty(&mut self, columns: &Columns)
        requires
            old(self).wf(),
            columns.wf(),
        ensures
            final(self).wf(),
            forall|s: SectionPos|
                #[trigger] final(self).dirty@.contains(s) <==> old(self).dirty@.contains(s)
                    || columns.has_section(s),
            final(self).urgent == old(self).urgent,
            final(self).evicted == old(self).evicted,
            final(self).last == old(self).last,
    {
        let mut k: usize = 0;
        while k < columns.list.len()
            invariant
                k <= columns.list@.len(),
                columns.wf(),
                self.wf(),
                self.urgent == old(self).urgent,
                self.evicted == old(self).evicted,
                self.last == old(self).last,
                forall|s: SectionPos|
                    #[trigger] self.dirty@.contains(s) <==> old(self).dirty@.contains(s) || (
                    columns.has_section(s) && exists|j: int|
                        0 <= j < k && (#[trigger] columns.list@[j]).pos == s.spec_chunk()),
            decreases columns.list@.len() - k,
        {
            let c = columns.list[k].pos;
            assert(columns.loaded(c));
            mark_column(&mut self.dirty, columns, c);
            k += 1;
        }
        assert forall|s: SectionPos| columns.has_section(s) implies exists|j: int|
            0 <= j < k && (#[trigger] columns.list@[j]).pos == s.spec_chunk() by {
            let i = choose|i: int|
                0 <= i < columns.list@.len() && (#[trigger] columns.list@[i]).pos == s.spec_chunk()
                    && columns.list@[i].sections@.contains(s.y);
            assert(columns.list@[i].pos == s.spec_chunk());
        }
    }
}

/// Among the first `k` loaded columns, `c` is out of range and not dropped before.
pub open spec fn evicted_from(
    columns: Columns,
    k: int,
    was: Seq<ChunkPos>,
    c: ChunkPos,
    cx: int,
    cz: int,
    keep: int,
) -> bool {
    &&& exists|j: int| 0 <= j < k && j < columns.list@.len() && (#[trigger] columns.list@[j]).pos == c
    &&& !near(c, cx, cz, keep)
    &&& !was.contains(c)
}

proof fn lemma_evicted_from_step(
    columns: Columns,
    k: int,
    was: Seq<ChunkPos>,
    cx: int,
    cz: int,
    keep: int,
)
    requires
        0 <= k < columns.list@.len(),
        columns.wf(),
    ensures
        forall|c: ChunkPos|
            #[trigger] evicted_from(columns, k + 1, was, c, cx, cz, keep) <==> evicted_from(
                columns,
                k,
                was,
                c,
                cx,
                cz,
                keep,
            ) || (c == columns.list@[k].pos && !near(c, cx, cz, keep) && !was.contains(c)),
        !evicted_from(columns, k, was, columns.list@[k].pos, cx, cz, keep),
{
    assert forall|c: ChunkPos| c == columns.list@[k].pos && !near(c, cx, cz, keep) && !was.contains(
        c,
    ) implies #[trigger] evicted_from(columns, k + 1, was, c, cx, cz, keep) by {
        assert(columns.list@[k].pos == c);
    }
}

/// Append all sections of a column that has none in the list.
fn push_column(list: &mut Vec<SectionPos>, c: ChunkPos)
    requires
        old(list)@.no_duplicates(),
        forall|s: SectionPos| #[trigger] old(list)@.contains(s) ==> s.spec_chunk() != c,
    ensures
        final(list)@.no_duplicates(),
        forall|s: SectionPos|
            #[trigger] final(list)@.contains(s) <==> old(list)@.contains(s) || (s.spec_chunk() == c
                && 0 <= s.y < COLUMN_SECTIONS),
{
    let mut y: i32 = 0;
    while y < COLUMN_SECTIONS
        invariant
            0 <= y <= COLUMN_SECTIONS,
            list@.no_duplicates(),
            forall|s: SectionPos| #[trigger] old(list)@.contains(s) ==> s.spec_chunk() != c,
            forall|s: SectionPos|
                #[trigger] list@.contains(s) <==> old(list)@.contains(s) || (s.spec_chunk() == c
                    && 0 <= s.y < y),
        decreases COLUMN_SECTIONS - y,
    {
        let s = SectionPos::new(c.x, y, c.z);
        proof {
            lemma_push_contains(list@, s);
        }
        list.push(s);
        y += 1;
    }
}

// ── Streaming a generated world ───────────────────────────────────────────

/// The squared distance of a column from the player's.
pub open spec fn column_distance(c: ChunkPos, px: int, pz: int) -> int {
    (c.x - px) * (c.x - px) + (c.z - pz) * (c.z - pz)
}

/// From the same column a second pass does nothing, whatever has been loaded since.
pub proof fn law_a_second_pass_does_nothing(
    before: Residency,
    columns: Columns,
    render_distance: int,
    bx: int,
    bz: int,
    between: Residency,
    removals: Seq<SectionPos>,
    later: Columns,
    later_distance: int,
    later_bx: int,
    later_bz: int,
    after: Residency,
    later_removals: Seq<SectionPos>,
)
    requires
        bounded_to_view(before, columns, render_distance, bx, bz, between, removals),
        bounded_to_view(
            between,
            later,
            later_distance,
            later_bx,
            later_bz,
            after,
            later_removals,
        ),
        chunk_of(bx) == chunk_of(later_bx),
        chunk_of(bz) == chunk_of(later_bz),
    ensures
        later_removals.len() == 0,
        after == between,
{
}

/// A pass from another column frees exactly the sections of the loaded columns out of
/// range that were not dropped yet, and leaves nothing of those to mesh. Dropped are then
/// the loaded columns out of range.
pub proof fn law_a_pass_frees_what_is_out_of_range(
    before: Residency,
    columns: Columns,
    render_distance: int,
    bx: int,
    bz: int,
    after: Residency,
    removals: Seq<SectionPos>,
    s: SectionPos,
)
    requires
        bounded_to_view(before, columns, render_distance, bx, bz, after, removals),
        before.last != Some(ChunkPos { x: chunk_of(bx) as i32, z: chunk_of(bz) as i32 }),
    ensures
        removals.no_duplicates(),
        ({
            let c = s.spec_chunk();
            let keep = render_distance + RESIDENCY_MARGIN;
            let far = columns.loaded(c) && !near(c, chunk_of(bx), chunk_of(bz), keep);
            let dropped = far && !before.evicted@.contains(c);
            &&& removals.contains(s) <==> 0 <= s.y < COLUMN_SECTIONS && dropped
            &&& dropped ==> !after.dirty@.contains(s)
            &&& after.evicted@.contains(c) <==> far
        }),
{
}

/// What a pass freed, the next one does not free again.
pub proof fn law_sections_are_not_freed_twice_in_a_row(
    before: Residency,
    columns: Columns,
    render_distance: int,
    bx: int,
    bz: int,
    between: Residency,
    removals: Seq<SectionPos>,
    later: Columns,
    later_distance: int,
    later_bx: int,
    later_bz: int,
    after: Residency,
    later_removals: Seq<SectionPos>,
    s: SectionPos,
)
    requires
        bounded_to_view(before, columns, render_distance, bx, bz, between, removals),
        bounded_to_view(
            between,
            later,
            later_distance,
            later_bx,
            later_bz,
            after,
            later_removals,
        ),
        removals.contains(s),
    ensures
        !later_removals.contains(s),
{
    assert(between.evicted@.contains(s.spec_chunk()));
}

/// A dropped column that is back in range is meshed again, section by section, and counts
/// as resident.
pub proof fn law_columns_back_in_range_are_meshed(
    before: Residency,
    columns: Columns,
    render_distance: int,
    bx: int,
    bz: int,
    after: Residency,
    removals: Seq<SectionPos>,
    s: SectionPos,
)
    requires
        bounded_to_view(before, columns, render_distance, bx, bz, after, removals),
        before.last != Some(ChunkPos { x: chunk_of(bx) as i32, z: chunk_of(bz) as i32 }),
        before.evicted@.contains(s.spec_chunk()),
        near(
            s.spec_chunk(),
            chunk_of(bx),
            chunk_of(bz),
            render_distance + RESIDENCY_MARGIN,
        ),
        columns.has_section(s),
    ensures
        after.dirty@.contains(s),
        !after.evicted@.contains(s.spec_chunk()),
        !removals.contains(s),
{
}

/// The order in which columns are generated: the nearest to the player's first, equally
/// near ones by row and place in it.
pub open spec fn comes_first(a: ChunkPos, b: ChunkPos, px: int, pz: int) -> bool {
    let da = column_distance(a, px, pz);
    let db = column_distance(b, px, pz);
    da < db || (da == db && (a.z < b.z || (a.z == b.z && a.x <= b.x)))
}

/// A column within the render distance that is not there yet.
pub open spec fn missing(columns: Columns, c: ChunkPos, px: int, pz: int, r: int) -> bool {
    near(c, px, pz, r) && !columns.loaded(c)
}

fn distance_to(c: ChunkPos, px: i32, pz: i32) -> (d: i128)
    ensures
        d == column_distance(c, px as int, pz as int),
{
    let dx: i128 = c.x as i128 - px as i128;
    let dz: i128 = c.z as i128 - pz as i128;
    assert(-0x1_0000_0000 <= dx <= 0x1_0000_0000 ==> 0 <= dx * dx <= 0x1_0000_0000_0000_0000)
        by (nonlinear_arith);
    assert(-0x1_0000_0000 <= dz <= 0x1_0000_0000 ==> 0 <= dz * dz <= 0x1_0000_0000_0000_0000)
        by (nonlinear_arith);
    dx * dx + dz * dz
}

/// The columns to generate next for a player at block `(bx, bz)`: none while the
/// backlog is large, else the first of the missing ones, in their order, up to the
/// budget.
pub open spec fn next_generated(
    columns: Columns,
    backlog: int,
    render_distance: int,
    bx: int,
    bz: int,
    chosen: Seq<ChunkPos>,
) -> bool {
    let px = chunk_of(bx);
    let pz = chunk_of(bz);
    &&& backlog >= BACKLOG_LIMIT ==> chosen.len() == 0
    &&& chosen.no_duplicates()
    &&& chosen.len() <= GEN_BUDGET
    &&& forall|c: ChunkPos|
        #[trigger] chosen.contains(c) ==> missing(columns, c, px, pz, render_distance)
    &&& forall|i: int, j: int|
        0 <= i <= j < chosen.len() ==> comes_first(
            #[trigger] chosen[i],
            #[trigger] chosen[j],
            px,
            pz,
        )
    &&& backlog < BACKLOG_LIMIT ==> forall|c: ChunkPos|
        #[trigger] missing(columns, c, px, pz, render_distance) && !chosen.contains(c)
            ==> chosen.len() == GEN_BUDGET && forall|i: int|
            0 <= i < chosen.len() ==> comes_first(#[trigger] chosen[i], c, px, pz)
}

/// The columns to generate next, the player standing at block `(bx, bz)`. The columns
/// within the render distance have coordinates.
pub fn columns_to_generate(
    columns: &Columns,
    backlog: usize,
    render_distance: u32,
    bx: i32,
    bz: i32,
) -> (chosen: Vec<ChunkPos>)
    requires
        render_distance <= i32::MAX - 0x800_0000,
    ensures
        next_generated(
            *columns,
            backlog as int,
            render_distance as int,
            bx as int,
            bz as int,
            chosen@,
        ),
{
    let px = to_chunk(bx);
    let pz = to_chunk(bz);
    let r: i32 = render_distance as i32;
    let mut chosen: Vec<ChunkPos> = Vec::new();
    if backlog >= BACKLOG_LIMIT {
        return chosen;
    }
    let mut open: Vec<ChunkPos> = Vec::new();
    let mut dz: i32 = -r;
    while dz <= r
        invariant
            0 <= r <= i32::MAX - 0x800_0000,
            -r <= dz <= r + 1,
            -0x800_0000 <= px <= 0x7ff_ffff,
            -0x800_0000 <= pz <= 0x7ff_ffff,
            open@.no_duplicates(),
            forall|c: ChunkPos|
                #[trigger] open@.contains(c) <==> missing(
                    *columns,
                    c,
                    px as int,
                    pz as int,
                    r as int,
                ) && c.z < pz + dz,
        decreases r + 1 - dz,
    {
        let mut dx: i32 = -r;
        while dx <= r
            invariant
                0 <= r <= i32::MAX - 0x800_0000,
                -r <= dz <= r,
                -r <= dx <= r + 1,
                -0x800_0000 <= px <= 0x7ff_ffff,
                -0x800_0000 <= pz <= 0x7ff_ffff,
                open@.no_duplicates(),
                forall|c: ChunkPos|
                    #[trigger] open@.contains(c) <==> missing(
                        *columns,
                        c,
                        px as int,
                        pz as int,
                        r as int,
                    ) && (c.z < pz + dz || (c.z == pz + dz && c.x < px + dx)),
            decreases r + 1 - dx,
        {
            let pos = ChunkPos::new(px + dx, pz + dz);
            proof {
                lemma_push_contains(open@, pos);
            }
            let found = columns.find(pos);
            match found {
                Some(i) => {
                    assert(columns.list@[i as int].pos == pos);
                    assert(columns.loaded(pos));
                },
                None => {
                    open.push(pos);
                },
            }
            dx += 1;
        }
        dz += 1;
    }
    let ghost all = open@;
    while chosen.len() < GEN_BUDGET && open.len() > 0
        invariant
            chosen@.len() <= GEN_BUDGET,
            chosen@.no_duplicates(),
            open@.no_duplicates(),
            forall|c: ChunkPos| #[trigger] all.contains(c) <==> chosen@.contains(c) || open@.contains(c),
            forall|c: ChunkPos| #[trigger] chosen@.contains(c) ==> !open@.contains(c),
            forall|i: int, j: int|
                0 <= i <= j < chosen@.len() ==> comes_first(
                    #[trigger] chosen@[i],
                    #[trigger] chosen@[j],
                    px as int,
                    pz as int,
                ),
            forall|c: ChunkPos, i: int|
                #[trigger] open@.contains(c) && 0 <= i < chosen@.len() ==> comes_first(
                    #[trigger] chosen@[i],
                    c,
                    px as int,
                    pz as int,
                ),
        decreases open@.len(),
    {
        let mut best: usize = 0;
        let mut best_distance = distance_to(open[0], px, pz);
        let mut i: usize = 1;
        while i < open.len()
            invariant
                1 <= i <= open@.len(),
                best < i,
                best_distance == column_distance(open@[best as int], px as int, pz as int),
                forall|j: int|
                    0 <= j < i ==> comes_first(
                        open@[best as int],
                        #[trigger] open@[j],
                        px as int,
                        pz as int,
                    ),
            decreases open@.len() - i,
        {
            let c = open[i];
            let b = open[best];
            let d = distance_to(c, px, pz);
            if d < best_distance || (d == best_distance && (c.z < b.z || (c.z == b.z && c.x
                < b.x))) {
                best = i;
                best_distance = d;
            }
            i += 1;
        }
        let ghost before = open@;
        let ghost had = chosen@;
        let next = open[best];
        assert(before.contains(next));
        open.remove(best);
        chosen.push(next);
        proof {
            crate::game::sections::lemma_remove_contains(before, best as int);
            lemma_push_contains(had, next);
            assert forall|c: ChunkPos, i: int|
                #[trigger] open@.contains(c) && 0 <= i < chosen@.len() implies comes_first(
                #[trigger] chosen@[i],
                c,
                px as int,
                pz as int,
            ) by {
                assert(before.contains(c));
                let k = before.index_of(c);
                assert(before[k] == c);
            }
        }
    }
    proof {
        assert forall|c: ChunkPos|
            #[trigger] missing(*columns, c, px as int, pz as int, r as int) && !chosen@.contains(
                c,
            ) implies chosen@.len() == GEN_BUDGET && forall|i: int|
            0 <= i < chosen@.len() ==> comes_first(
                #[trigger] chosen@[i],
                c,
                px as int,
                pz as int,
            ) by {
            assert(all.contains(c));
            assert(open@.contains(c));
        }
        assert forall|c: ChunkPos| #[trigger] chosen@.contains(c) implies missing(
            *columns,
            c,
            px as int,
            pz as int,
            r as int,
        ) by {
            assert(all.contains(c));
        }
    }
    chosen
}

/// The first `n` columns without those out of range.
pub open spec fn kept_columns(
    list: Seq<crate::game::sections::Column>,
    n: int,
    px: int,
    pz: int,
    keep: int,
) -> Seq<crate::game::sections::Column>
    decreases n,
{
    if n <= 0 {
        Seq::empty()
    } else if near(list[n - 1].pos, px, pz, keep) {
        kept_columns(list, n - 1, px, pz, keep).push(list[n - 1])
    } else {
        kept_columns(list, n - 1, px, pz, keep)
    }
}

/// The columns out of range of a player at block `(bx, bz)` were unloaded: they left
/// the loaded columns and the mesh queue, and their sections are handed out to be
/// freed.
pub open spec fn far_unloaded(
    columns: Columns,
    dirty: Set<SectionPos>,
    render_distance: int,
    bx: int,
    bz: int,
    columns_after: Columns,
    dirty_after: Set<SectionPos>,
    removed: Seq<SectionPos>,
) -> bool {
    let px = chunk_of(bx);
    let pz = chunk_of(bz);
    let keep = render_distance + STREAM_MARGIN;
    let before = columns.list@;
    let gone = |c: ChunkPos| columns.loaded(c) && !near(c, px, pz, keep);
    &&& columns_after.list@ == kept_columns(before, before.len() as int, px, pz, keep)
    &&& forall|s: SectionPos|
        #[trigger] dirty_after.contains(s) <==> dirty.contains(s) && !gone(s.spec_chunk())
    &&& removed.no_duplicates()
    &&& forall|s: SectionPos|
        #[trigger] removed.contains(s) <==> 0 <= s.y < COLUMN_SECTIONS && gone(s.spec_chunk())
}

/// Drop generated columns that drifted out of range: they leave the loaded columns
/// and the mesh queue. Returns the sections whose mesh to free.
pub fn unload_far_columns(
    columns: &mut Columns,
    dirty: &mut SectionSet,
    render_distance: u32,
    bx: i32,
    bz: i32,
) -> (removed: Vec<SectionPos>)
    requires
        old(columns).wf(),
        old(dirty).wf(),
        render_distance <= i32::MAX - STREAM_MARGIN,
    ensures
        final(columns).wf(),
        final(dirty).wf(),
        far_unloaded(
            *old(columns),
            old(dirty)@,
            render_distance as int,
            bx as int,
            bz as int,
            *final(columns),
            final(dirty)@,
            removed@,
        ),
{
    let px = to_chunk(bx);
    let pz = to_chunk(bz);
    let keep: i32 = render_distance as i32 + STREAM_MARGIN;
    let ghost before = columns.list@;
    let ghost none = Seq::<ChunkPos>::empty();
    let mut removed: Vec<SectionPos> = Vec::new();
    let mut i: usize = 0;
    let ghost mut done: int = 0;
    assert(kept_columns(before, 0, px as int, pz as int, keep as int) + before.skip(0) =~= before);
    while i < columns.list.len()
        invariant
            i <= columns.list@.len(),
            0 <= done <= before.len(),
            columns.list@.len() - i == before.len() - done,
            before == old(columns).list@,
            old(columns).wf(),
            columns.wf(),
            dirty.wf(),
            none == Seq::<ChunkPos>::empty(),
            kept_columns(before, done, px as int, pz as int, keep as int).len() == i,
            columns.list@ == kept_columns(before, done, px as int, pz as int, keep as int)
                + before.skip(done),
            removed@.no_duplicates(),
            forall|s: SectionPos|
                #[trigger] dirty@.contains(s) <==> old(dirty)@.contains(s) && !evicted_from(
                    *old(columns),
                    done,
                    none,
                    s.spec_chunk(),
                    px as int,
                    pz as int,
                    keep as int,
                ),
            forall|s: SectionPos|
                #[trigger] removed@.contains(s) <==> 0 <= s.y < COLUMN_SECTIONS && evicted_from(
                    *old(columns),
                    done,
                    none,
                    s.spec_chunk(),
                    px as int,
                    pz as int,
                    keep as int,
                ),
        decreases columns.list@.len() - i,
    {
        let ghost list = columns.list@;
        let c = columns.list[i].pos;
        proof {
            assert(list[i as int] == before[done]);
            lemma_evicted_from_step(*old(columns), done, none, px as int, pz as int, keep as int);
        }
        if is_near(c, px, pz, keep) {
            proof {
                done = done + 1;
                assert(columns.list@ =~= kept_columns(
                    before,
                    done,
                    px as int,
                    pz as int,
                    keep as int,
                ) + before.skip(done));
            }
            i += 1;
        } else {
            columns.list.remove(i);
            dirty.remove_column(c);
            push_column(&mut removed, c);
            proof {
                done = done + 1;
                assert(columns.list@ =~= kept_columns(
                    before,
                    done,
                    px as int,
                    pz as int,
                    keep as int,
                ) + before.skip(done));
            }
        }
    }
    assert(columns.list@ =~= kept_columns(
        before,
        before.len() as int,
        px as int,
        pz as int,
        keep as int,
    ));
    assert forall|c: ChunkPos| #[trigger] evicted_from(
        *old(columns),
        done,
        none,
        c,
        px as int,
        pz as int,
        keep as int,
    ) == (old(columns).loaded(c) && !near(c, px as int, pz as int, keep as int)) by {}
    removed
}

} // verus!
