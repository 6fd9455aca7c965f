//! The loaded terrain as far as the client keeps books on it: which columns are
//! there, which sections need meshing, and block changes that came too early.

use vstd::prelude::*;
use crate::clientbound::BlockChangeRecord;
use super::residency::Residency;
use super::rules::BlockState;
use super::sections::{
    chunk_of, column_and_neighbours, column_sections, dirtied_by, mark_chunk_dirty, section_of,
    to_chunk, ChunkPos, Column, Columns, SectionPos,
};

verus! {

/// A block change.
#[derive(Debug, Clone, Copy, PartialEq, Eq, Structural)]
pub struct BlockEdit {
    pub x: i32,
    pub y: i32,
    pub z: i32,
    pub state: BlockState,
}

impl BlockEdit {
    /// The column it falls into.
    pub open spec fn spec_column(self) -> ChunkPos {
        ChunkPos { x: chunk_of(self.x as int) as i32, z: chunk_of(self.z as int) as i32 }
    }

    /// The section it falls into.
    pub open spec fn spec_section(self) -> SectionPos {
        section_of(self.x as int, self.y as int, self.z as int)
    }

    /// Within the world's height, outside of which no blocks are kept.
    pub open spec fn inside(self) -> bool {
        0 <= self.y < 256
    }

    /// The column it falls into.
    pub fn column(&self) -> (c: ChunkPos)
        ensures
            c == self.spec_column(),
    {
        ChunkPos { x: to_chunk(self.x), z: to_chunk(self.z) }
    }
}

/// One of some changes is made in a section.
pub open spec fn in_section(edits: Seq<BlockEdit>, s: SectionPos) -> bool {
    exists|i: int|
        0 <= i < edits.len() && (#[trigger] edits[i]).inside() && edits[i].spec_section() == s
}

/// One of some changes is made in a column.
pub open spec fn in_column(edits: Seq<BlockEdit>, c: ChunkPos) -> bool {
    exists|i: int|
        0 <= i < edits.len() && (#[trigger] edits[i]).inside() && edits[i].spec_column() == c
}

/// Blocks were set in loaded columns: they have the sections of the blocks too.
pub open spec fn blocks_set(before: Columns, edits: Seq<BlockEdit>, after: Columns) -> bool {
    &&& forall|c: ChunkPos| #[trigger] after.loaded(c) == before.loaded(c)
    &&& forall|s: SectionPos|
        #[trigger] after.has_section(s) == (before.has_section(s) || in_section(edits, s))
}

/// Blocks were set anywhere: their columns are there, with the sections of the blocks.
pub open spec fn blocks_entered(before: Columns, edits: Seq<BlockEdit>, after: Columns) -> bool {
    &&& forall|c: ChunkPos|
        #[trigger] after.loaded(c) == (before.loaded(c) || in_column(edits, c))
    &&& forall|s: SectionPos|
        #[trigger] after.has_section(s) == (before.has_section(s) || in_section(edits, s))
}

proof fn lemma_one_more(edits: Seq<BlockEdit>, e: BlockEdit)
    ensures
        forall|s: SectionPos|
            #[trigger] in_section(edits.push(e), s) == (in_section(edits, s) || (e.inside()
                && e.spec_section() == s)),
        forall|c: ChunkPos|
            #[trigger] in_column(edits.push(e), c) == (in_column(edits, c) || (e.inside()
                && e.spec_column() == c)),
{
    let all = edits.push(e);
    let n = edits.len() as int;
    assert(all[n] == e);
    assert forall|s: SectionPos|
        #[trigger] in_section(all, s) == (in_section(edits, s) || (e.inside() && e.spec_section()
            == s)) by {
        if in_section(edits, s) {
            let i = choose|i: int|
                0 <= i < n && (#[trigger] edits[i]).inside() && edits[i].spec_section() == s;
            assert(all[i] == edits[i]);
        }
        if in_section(all, s) {
            let i = choose|i: int|
                0 <= i < all.len() && (#[trigger] all[i]).inside() && all[i].spec_section() == s;
            if i < n {
                assert(edits[i] == all[i]);
            }
        }
    }
    assert forall|c: ChunkPos|
        #[trigger] in_column(all, c) == (in_column(edits, c) || (e.inside() && e.spec_column()
            == c)) by {
        if in_column(edits, c) {
            let i = choose|i: int|
                0 <= i < n && (#[trigger] edits[i]).inside() && edits[i].spec_column() == c;
            assert(all[i] == edits[i]);
        }
        if in_column(all, c) {
            let i = choose|i: int|
                0 <= i < all.len() && (#[trigger] all[i]).inside() && all[i].spec_column() == c;
            if i < n {
                assert(edits[i] == all[i]);
            }
        }
    }
}

/// The columns are those of some blocks, with their sections.
pub open spec fn holds_blocks(columns: Columns, blocks: Seq<BlockEdit>) -> bool {
    &&& forall|c: ChunkPos| #[trigger] columns.loaded(c) == in_column(blocks, c)
    &&& forall|s: SectionPos| #[trigger] columns.has_section(s) == in_section(blocks, s)
}

pub proof fn lemma_both(a: Seq<BlockEdit>, b: Seq<BlockEdit>)
    ensures
        forall|s: SectionPos|
            #[trigger] in_section(a + b, s) == (in_section(a, s) || in_section(b, s)),
        forall|c: ChunkPos|
            #[trigger] in_column(a + b, c) == (in_column(a, c) || in_column(b, c)),
    decreases b.len(),
{
    if b.len() == 0 {
        assert(a + b =~= a);
    } else {
        lemma_both(a, b.drop_last());
        lemma_one_more(a + b.drop_last(), b.last());
        lemma_one_more(b.drop_last(), b.last());
        assert(a + b =~= (a + b.drop_last()).push(b.last()));
        assert(b =~= b.drop_last().push(b.last()));
    }
}

/// Set blocks: their columns are there from now on, with the sections of the blocks.
pub fn enter_blocks(columns: &mut Columns, blocks: &Vec<BlockEdit>)
    requires
        old(columns).wf(),
    ensures
        final(columns).wf(),
        blocks_entered(*old(columns), blocks@, *final(columns)),
{
    let mut hint: usize = 0;
    let mut i: usize = 0;
    while i < blocks.len()
        invariant
            i <= blocks@.len(),
            columns.wf(),
            blocks_entered(*old(columns), blocks@.take(i as int), *columns),
        decreases blocks@.len() - i,
    {
        let e = blocks[i];
        proof {
            lemma_one_more(blocks@.take(i as int), e);
            assert(blocks@.take(i + 1) =~= blocks@.take(i as int).push(e));
        }
        hint = columns.block_set(e.x, e.y, e.z, hint);
        i += 1;
    }
    assert(blocks@.take(i as int) =~= blocks@);
}

/// The loaded terrain.
#[derive(Debug)]
pub struct Terrain {
    pub columns: Columns,
    pub residency: Residency,
    /// Changes to columns that are not loaded, in the order they came.
    pub pending: Vec<BlockEdit>,
}

/// The changes that fall into a column.
pub open spec fn edits_for(pending: Seq<BlockEdit>, c: ChunkPos) -> Seq<BlockEdit>
    decreases pending.len(),
{
    if pending.len() == 0 {
        Seq::empty()
    } else if pending.last().spec_column() == c {
        edits_for(pending.drop_last(), c).push(pending.last())
    } else {
        edits_for(pending.drop_last(), c)
    }
}

/// The changes that do not fall into a column.
pub open spec fn edits_without(pending: Seq<BlockEdit>, c: ChunkPos) -> Seq<BlockEdit>
    decreases pending.len(),
{
    if pending.len() == 0 {
        Seq::empty()
    } else if pending.last().spec_column() == c {
        edits_without(pending.drop_last(), c)
    } else {
        edits_without(pending.drop_last(), c).push(pending.last())
    }
}

/// The change that one record of a column makes.
pub open spec fn record_edit(chunk_x: int, chunk_z: int, r: BlockChangeRecord) -> BlockEdit {
    BlockEdit {
        x: (chunk_x * 16 + r.x) as i32,
        y: r.y as i32,
        z: (chunk_z * 16 + r.z) as i32,
        state: BlockState { id: r.id, meta: r.meta },
    }
}

/// The changes that the first `n` records of a column make, split into those to
/// loaded columns and those to keep for later.
pub open spec fn sorted_edits(
    columns: Columns,
    chunk_x: int,
    chunk_z: int,
    records: Seq<BlockChangeRecord>,
    loaded: bool,
    n: int,
) -> Seq<BlockEdit>
    decreases n,
{
    if n <= 0 {
        Seq::empty()
    } else {
        let rest = sorted_edits(columns, chunk_x, chunk_z, records, loaded, n - 1);
        let edit = record_edit(chunk_x, chunk_z, records[n - 1]);
        if columns.loaded(edit.spec_column()) == loaded {
            rest.push(edit)
        } else {
            rest
        }
    }
}

/// The position of a change is in the range of coordinates.
pub open spec fn record_fits(chunk_x: int, chunk_z: int, r: BlockChangeRecord) -> bool {
    &&& i32::MIN <= chunk_x * 16
    &&& chunk_x * 16 + r.x <= i32::MAX
    &&& i32::MIN <= chunk_z * 16
    &&& chunk_z * 16 + r.z <= i32::MAX
}

/// The positions of all changes are in the range of coordinates.
pub open spec fn records_fit(chunk_x: int, chunk_z: int, records: Seq<BlockChangeRecord>) -> bool {
    forall|i: int| 0 <= i < records.len() ==> record_fits(chunk_x, chunk_z, #[trigger] records[i])
}

/// Whether the positions of all changes are in the range of coordinates.
pub fn are_in_range(chunk_x: i32, chunk_z: i32, records: &Vec<BlockChangeRecord>) -> (yes: bool)
    ensures
        yes == records_fit(chunk_x as int, chunk_z as int, records@),
{
    let (x, z): (i64, i64) = (chunk_x as i64 * 16, chunk_z as i64 * 16);
    let (least, most): (i64, i64) = (i32::MIN as i64, i32::MAX as i64);
    let mut i: usize = 0;
    while i < records.len()
        invariant
            i <= records@.len(),
            x == chunk_x * 16,
            z == chunk_z * 16,
            least == i32::MIN,
            most == i32::MAX,
            forall|j: int|
                0 <= j < i ==> record_fits(
                    chunk_x as int,
                    chunk_z as int,
                    #[trigger] records@[j],
                ),
        decreases records@.len() - i,
    {
        let r = records[i];
        if x < least || x + r.x as i64 > most || z < least || z + r.z as i64 > most {
            assert(!record_fits(chunk_x as int, chunk_z as int, records@[i as int]));
            return false;
        }
        i += 1;
    }
    true
}

/// The sections that a list of changes dirties.
pub open spec fn dirtied_by_all(edits: Seq<BlockEdit>) -> Set<SectionPos>
    decreases edits.len(),
{
    if edits.len() == 0 {
        Set::empty()
    } else {
        let e = edits.last();
        dirtied_by_all(edits.drop_last()).union(
            dirtied_by(e.x as int, e.y as int, e.z as int).to_set(),
        )
    }
}

/// Whether a column is there once a part of it arrived: an empty part of a column that is
/// not there brings nothing.
pub open spec fn arrives(columns: Columns, c: ChunkPos, full: bool, sections: Seq<i32>) -> bool {
    columns.loaded(c) || full || sections.len() > 0
}

/// The waiting changes that are made when a column arrives.
pub open spec fn replayed(before: Terrain, c: ChunkPos, full: bool, sections: Seq<i32>) -> Seq<
    BlockEdit,
> {
    if arrives(before.columns, c, full, sections) {
        edits_for(before.pending@, c)
    } else {
        Seq::empty()
    }
}

/// A column arrived: it is loaded with these sections (a full one replaces what was
/// there) and those of its waiting changes, which are handed out, and it and its
/// neighbours need meshing.
pub open spec fn column_applied(
    before: Terrain,
    c: ChunkPos,
    full: bool,
    sections: Seq<i32>,
    edits: Seq<BlockEdit>,
    after: Terrain,
) -> bool {
    let there = arrives(before.columns, c, full, sections);
    &&& edits == replayed(before, c, full, sections)
    &&& after.pending@ == if there {
        edits_without(before.pending@, c)
    } else {
        before.pending@
    }
    &&& forall|d: ChunkPos|
        #[trigger] after.columns.loaded(d) == (before.columns.loaded(d) || (d == c && there))
    &&& forall|s: SectionPos|
        #[trigger] after.columns.has_section(s) == if s.spec_chunk() == c {
            sections.contains(s.y) || (!full && before.columns.has_section(s)) || in_section(
                edits,
                s,
            )
        } else {
            before.columns.has_section(s)
        }
    &&& forall|s: SectionPos|
        #[trigger] after.residency.dirty@.contains(s) <==> before.residency.dirty@.contains(s) || (
        column_and_neighbours(c).contains(s.spec_chunk()) && column_sections(
            after.columns,
            s.spec_chunk(),
            s,
        ))
    &&& after.residency.urgent == before.residency.urgent
    &&& after.residency.evicted == before.residency.evicted
    &&& after.residency.last == before.residency.last
}

/// A column was unloaded: it and its neighbours need meshing.
pub open spec fn unloaded(before: Terrain, c: ChunkPos, after: Terrain) -> bool {
    &&& after.pending == before.pending
    &&& forall|d: ChunkPos|
        #[trigger] after.columns.loaded(d) == (d != c && before.columns.loaded(d))
    &&& forall|s: SectionPos|
        #[trigger] after.columns.has_section(s) == (s.spec_chunk() != c
            && before.columns.has_section(s))
    &&& forall|s: SectionPos|
        #[trigger] after.residency.dirty@.contains(s) <==> before.residency.dirty@.contains(s) || (
        column_and_neighbours(c).contains(s.spec_chunk())
            && column_sections(after.columns, s.spec_chunk(), s))
    &&& after.residency.urgent == before.residency.urgent
    &&& after.residency.evicted == before.residency.evicted
    &&& after.residency.last == before.residency.last
}

/// A block change came. In a loaded column it is made: the column has its section, and
/// what it touches needs meshing. Otherwise it waits.
pub open spec fn block_changed(before: Terrain, edit: BlockEdit, after: Terrain) -> bool {
    &&& after.same_view(&before)
    &&& if before.columns.loaded(edit.spec_column()) {
        &&& blocks_set(before.columns, seq![edit], after.columns)
        &&& after.residency.dirty@ == before.residency.dirty@.union(
            dirtied_by(edit.x as int, edit.y as int, edit.z as int).to_set(),
        )
        &&& after.pending == before.pending
    } else {
        &&& after.columns == before.columns
        &&& after.residency.dirty@ == before.residency.dirty@
        &&& after.pending@ == before.pending@.push(edit)
    }
}

/// A block was set ahead of the server. In a loaded column it is made: the column has its
/// section, and what it touches is meshed first. Elsewhere nothing happens.
pub open spec fn block_predicted(before: Terrain, edit: BlockEdit, after: Terrain) -> bool {
    if before.columns.loaded(edit.spec_column()) {
        let touched = dirtied_by(edit.x as int, edit.y as int, edit.z as int).to_set();
        &&& blocks_set(before.columns, seq![edit], after.columns)
        &&& after.residency.dirty@ == before.residency.dirty@.union(touched)
        &&& after.residency.urgent@ == before.residency.urgent@.union(touched)
        &&& after.residency.evicted == before.residency.evicted
        &&& after.residency.last == before.residency.last
        &&& after.pending == before.pending
    } else {
        after == before
    }
}

/// Light changed in these sections: they are meshed at once. Sky light only counts where
/// there is a sky.
pub open spec fn relit(
    before: Terrain,
    block_light: Seq<SectionPos>,
    sky_light: Seq<SectionPos>,
    has_sky_light: bool,
    after: Terrain,
) -> bool {
    let lit = if has_sky_light {
        block_light.to_set().union(sky_light.to_set())
    } else {
        block_light.to_set()
    };
    &&& after.columns == before.columns
    &&& after.pending == before.pending
    &&& after.residency.evicted == before.residency.evicted
    &&& after.residency.last == before.residency.last
    &&& after.residency.dirty@ == before.residency.dirty@.union(lit)
    &&& after.residency.urgent@ == before.residency.urgent@.union(lit)
}

impl Terrain {
    pub open spec fn wf(&self) -> bool {
        self.columns.wf() && self.residency.wf()
    }

    pub fn new() -> (t: Terrain)
        ensures
            t.wf(),
            t.columns.list@.len() == 0,
            t.residency.dirty@ == Set::<SectionPos>::empty(),
            t.residency.urgent@ == Set::<SectionPos>::empty(),
            t.residency.evicted@.len() == 0,
            t.residency.last is None,
            t.pending@ == Seq::<BlockEdit>::empty(),
    {
        Terrain {
            columns: Columns { list: Vec::new() },
            residency: Residency::new(),
            pending: Vec::new(),
        }
    }

    /// What is dropped from the graphics memory and what is meshed first is the same.
    pub open spec fn same_view(&self, other: &Terrain) -> bool {
        &&& self.residency.urgent == other.residency.urgent
        &&& self.residency.evicted == other.residency.evicted
        &&& self.residency.last == other.residency.last
    }

    /// A block change from the server. In a loaded column it is to be made now;
    /// otherwise it waits for the column. Returns whether it is to be made.
    pub fn apply_block_change(&mut self, edit: BlockEdit) -> (now: bool)
        requires
            old(self).wf(),
        ensures
            final(self).wf(),
            now == old(self).columns.loaded(edit.spec_column()),
            block_changed(*old(self), edit, *final(self)),
    {
        if self.columns.find(edit.column()).is_none() {
            self.pending.push(edit);
            return false;
        }
        assert(self.columns.loaded(edit.spec_column()));
        self.columns.block_set(edit.x, edit.y, edit.z, 0);
        proof {
            lemma_one_more(Seq::empty(), edit);
            assert(Seq::<BlockEdit>::empty().push(edit) =~= seq![edit]);
        }
        self.residency.mark_block_dirty(edit.x, edit.y, edit.z);
        true
    }

    /// A block that the player sets or breaks, ahead of the server. In a loaded column it
    /// is to be made now, and what it touches is meshed first; elsewhere nothing happens.
    /// Returns whether it is to be made.
    pub fn predict_block(&mut self, edit: BlockEdit) -> (now: bool)
        requires
            old(self).wf(),
        ensures
            final(self).wf(),
            now == old(self).columns.loaded(edit.spec_column()),
            block_predicted(*old(self), edit, *final(self)),
    {
        if self.columns.find(edit.column()).is_none() {
            return false;
        }
        assert(self.columns.loaded(edit.spec_column()));
        self.columns.block_set(edit.x, edit.y, edit.z, 0);
        proof {
            lemma_one_more(Seq::empty(), edit);
            assert(Seq::<BlockEdit>::empty().push(edit) =~= seq![edit]);
        }
        self.residency.mark_block_dirty_urgent(edit.x, edit.y, edit.z);
        true
    }

    /// Block changes of one column from the server: those to be made now.
    pub fn handle_multi_block_change(
        &mut self,
        chunk_x: i32,
        chunk_z: i32,
        changes: &Vec<BlockChangeRecord>,
    ) -> (edits: Vec<BlockEdit>)
        requires
            old(self).wf(),
            records_fit(chunk_x as int, chunk_z as int, changes@),
        ensures
            final(self).wf(),
            final(self).same_view(old(self)),
            blocks_set(old(self).columns, edits@, final(self).columns),
            edits@ == sorted_edits(
                old(self).columns,
                chunk_x as int,
                chunk_z as int,
                changes@,
                true,
                changes@.len() as int,
            ),
            final(self).pending@ == old(self).pending@ + sorted_edits(
                old(self).columns,
                chunk_x as int,
                chunk_z as int,
                changes@,
                false,
                changes@.len() as int,
            ),
            final(self).residency.dirty@ == old(self).residency.dirty@.union(
                dirtied_by_all(edits@),
            ),
    {
        let mut edits: Vec<BlockEdit> = Vec::new();
        let mut i: usize = 0;
        assert(self.residency.dirty@ =~= old(self).residency.dirty@.union(dirtied_by_all(edits@)));
        assert(self.pending@ =~= old(self).pending@ + Seq::<BlockEdit>::empty());
        while i < changes.len()
            invariant
                i <= changes@.len(),
                self.wf(),
                self.same_view(old(self)),
                blocks_set(old(self).columns, edits@, self.columns),
                records_fit(chunk_x as int, chunk_z as int, changes@),
                edits@ == sorted_edits(
                    old(self).columns,
                    chunk_x as int,
                    chunk_z as int,
                    changes@,
                    true,
                    i as int,
                ),
                self.pending@ == old(self).pending@ + sorted_edits(
                    old(self).columns,
                    chunk_x as int,
                    chunk_z as int,
                    changes@,
                    false,
                    i as int,
                ),
                self.residency.dirty@ == old(self).residency.dirty@.union(dirtied_by_all(edits@)),
            decreases changes@.len() - i,
        {
            let r = changes[i];
            assert(record_fits(chunk_x as int, chunk_z as int, changes@[i as int]));
            let edit = BlockEdit {
                x: chunk_x * 16 + r.x as i32,
                y: r.y as i32,
                z: chunk_z * 16 + r.z as i32,
                state: BlockState { id: r.id, meta: r.meta },
            };
            let ghost before = *self;
            let ghost made = edits@;
            let now = self.apply_block_change(edit);
            proof {
                lemma_one_more(made, edit);
                lemma_one_more(Seq::empty(), edit);
                assert(Seq::<BlockEdit>::empty().push(edit) =~= seq![edit]);
            }
            if now {
                edits.push(edit);
                assert(edits@.drop_last() =~= made);
                assert(self.residency.dirty@ =~= old(self).residency.dirty@.union(
                    dirtied_by_all(edits@),
                ));
            }
            i += 1;
            assert(self.pending@ =~= old(self).pending@ + sorted_edits(
                old(self).columns,
                chunk_x as int,
                chunk_z as int,
                changes@,
                false,
                i as int,
            ));
        }
        edits
    }

    /// Take the waiting changes of a column out.
    fn take_pending(&mut self, c: ChunkPos) -> (edits: Vec<BlockEdit>)
        requires
            old(self).wf(),
        ensures
            *final(self) == (Terrain { pending: final(self).pending, ..*old(self) }),
            edits@ == edits_for(old(self).pending@, c),
            final(self).pending@ == edits_without(old(self).pending@, c),
    {
        let mut edits: Vec<BlockEdit> = Vec::new();
        let mut kept: Vec<BlockEdit> = Vec::new();
        let mut i: usize = 0;
        while i < self.pending.len()
            invariant
                i <= self.pending@.len(),
                *self == *old(self),
                edits@ == edits_for(self.pending@.take(i as int), c),
                kept@ == edits_without(self.pending@.take(i as int), c),
            decreases self.pending@.len() - i,
        {
            let edit = self.pending[i];
            let here = edit.column();
            if here.x == c.x && here.z == c.z {
                edits.push(edit);
            } else {
                kept.push(edit);
            }
            i += 1;
            assert(self.pending@.take(i as int).drop_last() =~= self.pending@.take(i - 1));
        }
        assert(self.pending@.take(i as int) =~= self.pending@);
        self.pending = kept;
        edits
    }

    /// A column arrived with these sections: the waiting changes to make in it.
    /// A full column replaces what was there; a partial one adds to it. The
    /// column and its neighbours need meshing.
    pub fn apply_chunk_column(&mut self, x: i32, z: i32, full: bool, sections: &Vec<i32>) -> (edits:
        Vec<BlockEdit>)
        requires
            old(self).wf(),
            i32::MIN < x < i32::MAX,
            i32::MIN < z < i32::MAX,
        ensures
            final(self).wf(),
            column_applied(*old(self), (ChunkPos { x, z }), full, sections@, edits@, *final(self)),
    {
        let pos = ChunkPos { x, z };
        if !full && sections.len() == 0 && self.columns.find(pos).is_none() {
            assert forall|s: SectionPos| s.spec_chunk() == pos implies !(
            #[trigger] self.columns.has_section(s)) by {
                if self.columns.has_section(s) {
                    assert(self.columns.loaded(s.spec_chunk()));
                }
            }
            mark_chunk_dirty(&mut self.residency.dirty, &self.columns, pos);
            return Vec::new();
        }
        let ghost there = arrives(self.columns, pos, full, sections@);
        assert(there);
        put_column(&mut self.columns, pos, full, sections);
        let edits = self.take_pending(pos);
        let ghost put = self.columns;
        enter_blocks(&mut self.columns, &edits);
        proof {
            lemma_edits_waited(old(self).pending@, pos);
            assert(put.loaded(pos));
            assert forall|c: ChunkPos| in_column(edits@, c) implies c == pos by {}
            assert forall|s: SectionPos| #[trigger] in_section(edits@, s) implies s.spec_chunk()
                == pos by {}
        }
        mark_chunk_dirty(&mut self.residency.dirty, &self.columns, pos);
        edits
    }

    /// The server unloaded a column: its meshes go, its neighbours' change.
    pub fn unload_chunk(&mut self, x: i32, z: i32)
        requires
            old(self).wf(),
            i32::MIN < x < i32::MAX,
            i32::MIN < z < i32::MAX,
        ensures
            final(self).wf(),
            unloaded(*old(self), (ChunkPos { x, z }), *final(self)),
    {
        let pos = ChunkPos { x, z };
        drop_column(&mut self.columns, pos);
        mark_chunk_dirty(&mut self.residency.dirty, &self.columns, pos);
    }

    /// Light changed after an edit: the sections it touched need meshing at once.
    /// Sky light only counts where there is a sky.
    pub fn relight_after_edit(
        &mut self,
        block_light: &Vec<SectionPos>,
        sky_light: &Vec<SectionPos>,
        has_sky_light: bool,
    )
        requires
            old(self).wf(),
        ensures
            final(self).wf(),
            relit(*old(self), block_light@, sky_light@, has_sky_light, *final(self)),
    {
        self.residency.dirty.extend(block_light);
        self.residency.urgent.extend(block_light);
        if has_sky_light {
            self.residency.dirty.extend(sky_light);
            self.residency.urgent.extend(sky_light);
        }
        let ghost lit = if has_sky_light {
            block_light@.to_set().union(sky_light@.to_set())
        } else {
            block_light@.to_set()
        };
        assert(self.residency.dirty@ =~= old(self).residency.dirty@.union(lit));
        assert(self.residency.urgent@ =~= old(self).residency.urgent@.union(lit));
    }
}

/// Take a column out.
fn drop_column(columns: &mut Columns, pos: ChunkPos)
    requires
        old(columns).wf(),
    ensures
        final(columns).wf(),
        forall|c: ChunkPos|
            #[trigger] final(columns).loaded(c) == (c != pos && old(columns).loaded(c)),
        forall|s: SectionPos|
            #[trigger] final(columns).has_section(s) == (s.spec_chunk() != pos && old(
                columns,
            ).has_section(s)),
{
    let ghost before = columns.list@;
    match columns.find(pos) {
        Some(k) => {
            columns.list.remove(k);
            let ghost after = columns.list@;
            assert(after =~= before.remove(k as int));
            assert forall|j: int| 0 <= j < after.len() implies (#[trigger] after[j]) == before[if j
                < k {
                j
            } else {
                j + 1
            }] by {}
            assert forall|j: int| 0 <= j < before.len() && j != k implies (#[trigger] before[j])
                == after[if j < k {
                j
            } else {
                j - 1
            }] by {}
            assert forall|c: ChunkPos| #[trigger] columns.loaded(c) == (c != pos && old(
                columns,
            ).loaded(c)) by {
                if columns.loaded(c) {
                    let j = choose|j: int| 0 <= j < after.len() && (#[trigger] after[j]).pos == c;
                    let b = if j < k {
                        j
                    } else {
                        j + 1
                    };
                    assert(before[b] == after[j]);
                    if b < k {
                        assert(before[b].pos != before[k as int].pos);
                    } else {
                        assert(before[k as int].pos != before[b].pos);
                    }
                }
                if c != pos && old(columns).loaded(c) {
                    let b = choose|b: int| 0 <= b < before.len() && (#[trigger] before[b]).pos == c;
                    let j = if b < k {
                        b
                    } else {
                        b - 1
                    };
                    assert(after[j] == before[b]);
                }
            }
            assert forall|s: SectionPos| #[trigger] columns.has_section(s) == (s.spec_chunk() != pos
                && old(columns).has_section(s)) by {
                if columns.has_section(s) {
                    let j = choose|j: int|
                        0 <= j < after.len() && (#[trigger] after[j]).pos == s.spec_chunk()
                            && after[j].sections@.contains(s.y);
                    let b = if j < k {
                        j
                    } else {
                        j + 1
                    };
                    assert(before[b] == after[j]);
                    if b < k {
                        assert(before[b].pos != before[k as int].pos);
                    } else {
                        assert(before[k as int].pos != before[b].pos);
                    }
                }
                if s.spec_chunk() != pos && old(columns).has_section(s) {
                    let b = choose|b: int|
                        0 <= b < before.len() && (#[trigger] before[b]).pos == s.spec_chunk()
                            && before[b].sections@.contains(s.y);
                    let j = if b < k {
                        b
                    } else {
                        b - 1
                    };
                    assert(after[j] == before[b]);
                }
            }
        },
        None => {},
    }
}

/// The sections a column has, and more.
fn with_sections(columns: &Columns, pos: ChunkPos, keep: bool, sections: &Vec<i32>) -> (all: Vec<
    i32,
>)
    requires
        columns.wf(),
    ensures
        forall|y: i32|
            #[trigger] all@.contains(y) == (sections@.contains(y) || (keep && columns.has_section(
                SectionPos { x: pos.x, y, z: pos.z },
            ))),
{
    let mut all: Vec<i32> = Vec::new();
    let mut i: usize = 0;
    while i < sections.len()
        invariant
            i <= sections@.len(),
            all@ == sections@.take(i as int),
        decreases sections@.len() - i,
    {
        all.push(sections[i]);
        i += 1;
        assert(sections@.take(i as int) =~= sections@.take(i - 1).push(sections@[i - 1]));
    }
    assert(sections@.take(i as int) =~= sections@);
    if keep {
        if let Some(k) = columns.find(pos) {
            let column = &columns.list[k];
            assert forall|y: i32| #[trigger] column.sections@.contains(y) == columns.has_section(
                SectionPos { x: pos.x, y, z: pos.z },
            ) by {
                let s = SectionPos { x: pos.x, y, z: pos.z };
                if columns.has_section(s) {
                    let j = choose|j: int|
                        0 <= j < columns.list@.len() && (#[trigger] columns.list@[j]).pos
                            == s.spec_chunk() && columns.list@[j].sections@.contains(s.y);
                    if j < k {
                        assert(columns.list@[j].pos != columns.list@[k as int].pos);
                    } else if j > k {
                        assert(columns.list@[k as int].pos != columns.list@[j].pos);
                    }
                }
                if column.sections@.contains(y) {
                    assert(columns.list@[k as int].pos == s.spec_chunk());
                }
            }
            let ghost base = all@;
            let mut j: usize = 0;
            assert(base + column.sections@.take(0) =~= base);
            while j < column.sections.len()
                invariant
                    j <= column.sections@.len(),
                    all@ == base + column.sections@.take(j as int),
                decreases column.sections@.len() - j,
            {
                all.push(column.sections[j]);
                j += 1;
                assert(base + column.sections@.take(j as int) =~= (base + column.sections@.take(
                    j - 1,
                )).push(column.sections@[j - 1]));
            }
            assert(column.sections@.take(j as int) =~= column.sections@);
            assert forall|y: i32|
                #[trigger] all@.contains(y) == (sections@.contains(y)
                    || column.sections@.contains(y)) by {
                if sections@.contains(y) {
                    let m = choose|m: int| 0 <= m < sections@.len() && sections@[m] == y;
                    assert(all@[m] == y);
                }
                if column.sections@.contains(y) {
                    let m = choose|m: int|
                        0 <= m < column.sections@.len() && column.sections@[m] == y;
                    assert(all@[base.len() + m] == y);
                }
                if all@.contains(y) {
                    let m = choose|m: int| 0 <= m < all@.len() && all@[m] == y;
                    if m < base.len() {
                        assert(sections@[m] == y);
                    } else {
                        assert(column.sections@[m - base.len()] == y);
                    }
                }
            }
        } else {
            assert forall|y: i32| !columns.has_section(
                SectionPos { x: pos.x, y, z: pos.z },
            ) by {
                let s = SectionPos { x: pos.x, y, z: pos.z };
                if columns.has_section(s) {
                    assert(columns.loaded(s.spec_chunk()));
                }
            }
        }
    }
    all
}

/// Put a column in, over or added to what was there.
fn put_column(columns: &mut Columns, pos: ChunkPos, full: bool, sections: &Vec<i32>)
    requires
        old(columns).wf(),
    ensures
        final(columns).wf(),
        forall|c: ChunkPos|
            #[trigger] final(columns).loaded(c) == (c == pos || old(columns).loaded(c)),
        forall|s: SectionPos|
            #[trigger] final(columns).has_section(s) == if s.spec_chunk() == pos {
                sections@.contains(s.y) || (!full && old(columns).has_section(s))
            } else {
                old(columns).has_section(s)
            },
{
    let all = with_sections(columns, pos, !full, sections);
    drop_column(columns, pos);
    let ghost rest = *columns;
    let ghost ys = all@;
    assert(!rest.loaded(pos));
    assert forall|j: int| 0 <= j < rest.list@.len() implies (#[trigger] rest.list@[j]).pos
        != pos by {
        if rest.list@[j].pos == pos {
            assert(rest.loaded(pos));
        }
    }
    columns.list.push(Column { pos, sections: all });
    let ghost n = rest.list@.len() as int;
    assert(columns.list@[n].pos == pos);
    assert forall|j: int| 0 <= j < n implies (#[trigger] columns.list@[j]) == rest.list@[j] by {}
    assert forall|c: ChunkPos|
        #[trigger] columns.loaded(c) == (c == pos || old(columns).loaded(c)) by {
        if c == pos {
            assert(columns.list@[n].pos == c);
        } else {
            assert(rest.loaded(c) == old(columns).loaded(c));
            if rest.loaded(c) {
                let j = choose|j: int| 0 <= j < n && (#[trigger] rest.list@[j]).pos == c;
                assert(columns.list@[j].pos == c);
            }
            if columns.loaded(c) {
                let j = choose|j: int|
                    0 <= j < columns.list@.len() && (#[trigger] columns.list@[j]).pos == c;
                assert(rest.list@[j].pos == c);
            }
        }
    }
    assert forall|s: SectionPos|
        #[trigger] columns.has_section(s) == if s.spec_chunk() == pos {
            sections@.contains(s.y) || (!full && old(columns).has_section(s))
        } else {
            old(columns).has_section(s)
        } by {
        assert(rest.has_section(s) == (s.spec_chunk() != pos && old(columns).has_section(s)));
        if s.spec_chunk() == pos {
            assert(s == (SectionPos { x: pos.x, y: s.y, z: pos.z }));
            assert(ys.contains(s.y) == (sections@.contains(s.y) || (!full && old(
                columns,
            ).has_section(s))));
            if ys.contains(s.y) {
                assert(columns.list@[n].sections@.contains(s.y));
            }
            if columns.has_section(s) {
                let j = choose|j: int|
                    0 <= j < columns.list@.len() && (#[trigger] columns.list@[j]).pos
                        == s.spec_chunk() && columns.list@[j].sections@.contains(s.y);
                assert(j == n);
            }
        } else {
            if rest.has_section(s) {
                let j = choose|j: int|
                    0 <= j < n && (#[trigger] rest.list@[j]).pos == s.spec_chunk()
                        && rest.list@[j].sections@.contains(s.y);
                assert(columns.list@[j] == rest.list@[j]);
            }
            if columns.has_section(s) {
                let j = choose|j: int|
                    0 <= j < columns.list@.len() && (#[trigger] columns.list@[j]).pos
                        == s.spec_chunk() && columns.list@[j].sections@.contains(s.y);
                assert(rest.list@[j].pos == s.spec_chunk());
            }
        }
    }
}

// ── Laws ──────────────────────────────────────────────────────────────────

/// No waiting change is lost when a column arrives: the changes to make and those
/// still waiting are together the ones that waited.
pub proof fn law_no_waiting_change_is_lost(pending: Seq<BlockEdit>, c: ChunkPos)
    ensures
        edits_for(pending, c).len() + edits_without(pending, c).len() == pending.len(),
        forall|e: BlockEdit|
            #[trigger] pending.contains(e) ==> if e.spec_column() == c {
                edits_for(pending, c).contains(e)
            } else {
                edits_without(pending, c).contains(e)
            },
    decreases pending.len(),
{
    if pending.len() > 0 {
        let rest = pending.drop_last();
        let last = pending.last();
        law_no_waiting_change_is_lost(rest, c);
        assert forall|e: BlockEdit| #[trigger] pending.contains(e) implies if e.spec_column() == c {
            edits_for(pending, c).contains(e)
        } else {
            edits_without(pending, c).contains(e)
        } by {
            let k = choose|k: int| 0 <= k < pending.len() && pending[k] == e;
            if k < rest.len() {
                assert(rest[k] == e);
                assert(rest.contains(e));
            }
            if e.spec_column() == c {
                let now = edits_for(pending, c);
                let was = edits_for(rest, c);
                if k < rest.len() {
                    let m = choose|m: int| 0 <= m < was.len() && was[m] == e;
                    assert(now[m] == e);
                } else {
                    assert(now[was.len() as int] == e);
                }
            } else {
                let now = edits_without(pending, c);
                let was = edits_without(rest, c);
                if k < rest.len() {
                    let m = choose|m: int| 0 <= m < was.len() && was[m] == e;
                    assert(now[m] == e);
                } else {
                    assert(now[was.len() as int] == e);
                }
            }
        }
    }
}

/// After a column arrived, none of its changes wait any more.
pub proof fn law_arrived_columns_have_no_waiting_changes(pending: Seq<BlockEdit>, c: ChunkPos)
    ensures
        edits_for(edits_without(pending, c), c) == Seq::<BlockEdit>::empty(),
    decreases pending.len(),
{
    if pending.len() > 0 {
        law_arrived_columns_have_no_waiting_changes(pending.drop_last(), c);
        if pending.last().spec_column() != c {
            let kept = edits_without(pending, c);
            assert(kept.drop_last() =~= edits_without(pending.drop_last(), c));
        }
    }
}

// ── One thing after the other ─────────────────────────────────────────────

/// What can happen to the terrain: a column is unloaded, a part of it arrives, its data
/// cannot be read, a block changes, or one is set ahead of the server.
pub enum TerrainEvent {
    Unloaded(ChunkPos),
    Arrived { pos: ChunkPos, full: bool, sections: Seq<i32> },
    Broken,
    Changed(BlockEdit),
    Predicted(BlockEdit),
}

impl TerrainEvent {
    /// The column that is unloaded or arrives. An empty part of a column says nothing of
    /// it.
    pub open spec fn column(self) -> Option<ChunkPos> {
        match self {
            TerrainEvent::Unloaded(pos) => Some(pos),
            TerrainEvent::Arrived { pos, full, sections } => if full || sections.len() > 0 {
                Some(pos)
            } else {
                None
            },
            _ => None,
        }
    }

    /// A section goes with its column, or when a full column replaces it.
    pub open spec fn takes(self, s: SectionPos) -> bool {
        match self {
            TerrainEvent::Unloaded(pos) => s.spec_chunk() == pos,
            TerrainEvent::Arrived { pos, full, sections } => s.spec_chunk() == pos && full
                && !sections.contains(s.y),
            _ => false,
        }
    }

    /// What it leaves of the terrain.
    pub open spec fn leads(self, before: Terrain, after: Terrain) -> bool {
        match self {
            TerrainEvent::Unloaded(pos) => unloaded(before, pos, after),
            TerrainEvent::Arrived { pos, full, sections } => column_applied(
                before,
                pos,
                full,
                sections,
                replayed(before, pos, full, sections),
                after,
            ),
            TerrainEvent::Broken => after == before,
            TerrainEvent::Changed(edit) => block_changed(before, edit, after),
            TerrainEvent::Predicted(edit) => block_predicted(before, edit, after),
        }
    }
}

/// The terrain after each of some events, starting with the one before them.
pub open spec fn in_turn(states: Seq<Terrain>, events: Seq<TerrainEvent>) -> bool {
    &&& states.len() == events.len() + 1
    &&& forall|i: int|
        0 <= i < events.len() ==> (#[trigger] events[i]).leads(states[i], states[i + 1])
}

/// The last of the first `n` events about a column.
pub open spec fn last_about(events: Seq<TerrainEvent>, c: ChunkPos, n: int) -> Option<TerrainEvent>
    decreases n,
{
    if n <= 0 {
        None
    } else if events[n - 1].column() == Some(c) {
        Some(events[n - 1])
    } else {
        last_about(events, c, n - 1)
    }
}

/// Where columns arrive and are unloaded one after the other, the last word on a column
/// counts: it is loaded exactly if it arrived last, or was loaded and is not spoken of.
pub proof fn law_the_last_word_on_a_column_counts(
    states: Seq<Terrain>,
    events: Seq<TerrainEvent>,
    c: ChunkPos,
    n: int,
)
    requires
        in_turn(states, events),
        0 <= n <= events.len(),
    ensures
        states[n].columns.loaded(c) == match last_about(events, c, n) {
            Some(event) => event is Arrived,
            None => states[0].columns.loaded(c),
        },
    decreases n,
{
    if n > 0 {
        law_the_last_word_on_a_column_counts(states, events, c, n - 1);
        assert(events[n - 1].leads(states[n - 1], states[n]));
    }
}

/// A column that arrives whole has exactly the sections it came with and those of the
/// changes that waited for it, of which none is lost.
pub proof fn law_whole_columns_have_their_sections(
    before: Terrain,
    c: ChunkPos,
    sections: Seq<i32>,
    edits: Seq<BlockEdit>,
    after: Terrain,
    s: SectionPos,
)
    requires
        column_applied(before, c, true, sections, edits, after),
        s.spec_chunk() == c,
    ensures
        after.columns.has_section(s) == (sections.contains(s.y) || exists|e: BlockEdit|
            #[trigger] before.pending@.contains(e) && e.inside() && e.spec_section() == s),
        after.columns.has_section(s) ==> after.residency.dirty@.contains(s),
{
    law_no_waiting_change_is_lost(before.pending@, c);
    lemma_edits_waited(before.pending@, c);
    if in_section(edits, s) {
        let i = choose|i: int|
            0 <= i < edits.len() && (#[trigger] edits[i]).inside() && edits[i].spec_section() == s;
        assert(before.pending@.contains(edits[i]));
    }
    if exists|e: BlockEdit|
        #[trigger] before.pending@.contains(e) && e.inside() && e.spec_section() == s {
        let e = choose|e: BlockEdit|
            #[trigger] before.pending@.contains(e) && e.inside() && e.spec_section() == s;
        assert(edits.contains(e));
        let i = edits.index_of(e);
        assert(edits[i] == e);
    }
    assert(column_and_neighbours(c).contains(c));
}

proof fn lemma_edits_waited(pending: Seq<BlockEdit>, c: ChunkPos)
    ensures
        forall|i: int|
            0 <= i < edits_for(pending, c).len() ==> pending.contains(
                #[trigger] edits_for(pending, c)[i],
            ) && edits_for(pending, c)[i].spec_column() == c,
    decreases pending.len(),
{
    if pending.len() > 0 {
        let rest = pending.drop_last();
        lemma_edits_waited(rest, c);
        assert forall|i: int| 0 <= i < edits_for(pending, c).len() implies pending.contains(
            #[trigger] edits_for(pending, c)[i],
        ) && edits_for(pending, c)[i].spec_column() == c by {
            if i < edits_for(rest, c).len() {
                let e = edits_for(rest, c)[i];
                assert(rest.contains(e));
                let k = rest.index_of(e);
                assert(pending[k] == e);
            } else {
                assert(pending[pending.len() - 1] == pending.last());
            }
        }
    }
}

/// Where a block changes in a loaded column, by the server or ahead of it, its section is
/// one of the column's and waits for meshing.
pub proof fn law_changed_blocks_are_in_their_sections(
    before: Terrain,
    edit: BlockEdit,
    ahead: bool,
    after: Terrain,
)
    requires
        if ahead {
            block_predicted(before, edit, after)
        } else {
            block_changed(before, edit, after)
        },
        before.columns.loaded(edit.spec_column()),
        edit.inside(),
    ensures
        after.columns.has_section(edit.spec_section()),
        after.residency.dirty@.contains(edit.spec_section()),
{
    assert(seq![edit][0].spec_section() == edit.spec_section());
    let touched = dirtied_by(edit.x as int, edit.y as int, edit.z as int);
    assert(touched[0] == edit.spec_section());
    assert(touched.to_set().contains(edit.spec_section()));
}

/// A section that a column has stays one of its sections until the column is unloaded or
/// replaced by one without it.
pub proof fn law_sections_stay_with_their_column(
    states: Seq<Terrain>,
    events: Seq<TerrainEvent>,
    s: SectionPos,
    n: int,
)
    requires
        in_turn(states, events),
        0 <= n <= events.len(),
        states[0].columns.has_section(s),
        forall|i: int| 0 <= i < n ==> !(#[trigger] events[i]).takes(s),
    ensures
        states[n].columns.has_section(s),
    decreases n,
{
    if n > 0 {
        law_sections_stay_with_their_column(states, events, s, n - 1);
        assert(events[n - 1].leads(states[n - 1], states[n]));
    }
}

} // verus!
