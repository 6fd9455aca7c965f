//! Which chunk sections need meshing, and which columns stay resident.

use vstd::prelude::*;

verus! {

/// How far beyond the render distance column meshes stay resident, in chunks.
pub const RESIDENCY_MARGIN: i32 = 2;

/// Sections in a column.
pub const COLUMN_SECTIONS: i32 = 16;

/// A chunk column.
#[derive(Debug, Clone, Copy, PartialEq, Eq, Structural)]
pub struct ChunkPos {
    pub x: i32,
    pub z: i32,
}

/// A 16-block cube of a chunk column.
#[derive(Debug, Clone, Copy, PartialEq, Eq, Structural)]
pub struct SectionPos {
    pub x: i32,
    pub y: i32,
    pub z: i32,
}

impl SectionPos {
    pub open spec fn spec_chunk(self) -> ChunkPos {
        ChunkPos { x: self.x, z: self.z }
    }

    pub fn new(x: i32, y: i32, z: i32) -> (s: SectionPos)
        ensures
            s == (SectionPos { x, y, z }),
    {
        SectionPos { x, y, z }
    }

    /// The column of the section.
    pub fn chunk(&self) -> (c: ChunkPos)
        ensures
            c == self.spec_chunk(),
    {
        ChunkPos { x: self.x, z: self.z }
    }
}

impl ChunkPos {
    pub fn new(x: i32, z: i32) -> (c: ChunkPos)
        ensures
            c == (ChunkPos { x, z }),
    {
        ChunkPos { x, z }
    }
}

/// The chunk coordinate of a block coordinate.
pub open spec fn chunk_of(b: int) -> int {
    b / 16
}

/// The chunk coordinate of a block coordinate.
pub fn to_chunk(b: i32) -> (c: i32)
    ensures
        c == chunk_of(b as int),
        -0x800_0000 <= c <= 0x7ff_ffff,
{
    let r: i32 = b % 16;
    let q: i32 = b / 16;
    if r < 0 {
        q - 1
    } else {
        q
    }
}

// ── Sets of sections ──────────────────────────────────────────────────────

/// A set of sections, in the order they were added.
#[derive(Debug)]
pub struct SectionSet {
    pub items: Vec<SectionPos>,
}

impl View for SectionSet {
    type V = Set<SectionPos>;

    open spec fn view(&self) -> Set<SectionPos> {
        self.items@.to_set()
    }
}

impl SectionSet {
    pub open spec fn wf(&self) -> bool {
        self.items@.no_duplicates()
    }

    pub fn new() -> (set: SectionSet)
        ensures
            set.wf(),
            set@ == Set::<SectionPos>::empty(),
    {
        let set = SectionSet { items: Vec::new() };
        assert(set@ =~= Set::empty());
        set
    }

    pub fn len(&self) -> (n: usize)
        requires
            self.wf(),
        ensures
            n == self@.len(),
            n == self.items@.len(),
            self@.finite(),
    {
        proof {
            self.items@.unique_seq_to_set();
            vstd::seq_lib::seq_to_set_is_finite(self.items@);
        }
        self.items.len()
    }

    pub fn is_empty(&self) -> (yes: bool)
        ensures
            yes == (self@ == Set::<SectionPos>::empty()),
    {
        if self.items.len() == 0 {
            assert(self@ =~= Set::empty());
            true
        } else {
            assert(self@.contains(self.items@[0]));
            false
        }
    }

    pub fn contains(&self, s: SectionPos) -> (yes: bool)
        ensures
            yes == self@.contains(s),
    {
        let mut i: usize = 0;
        while i < self.items.len()
            invariant
                i <= self.items@.len(),
                forall|j: int| 0 <= j < i ==> self.items@[j] != s,
            decreases self.items@.len() - i,
        {
            if self.items[i] == s {
                assert(self.items@.contains(s));
                return true;
            }
            i += 1;
        }
        false
    }

    pub fn insert(&mut self, s: SectionPos)
        requires
            old(self).wf(),
        ensures
            final(self).wf(),
            final(self)@ == old(self)@.insert(s),
    {
        if !self.contains(s) {
            let ghost before = self.items@;
            assert(!before.contains(s));
            self.items.push(s);
            assert(self.items@.no_duplicates());
            assert forall|t: SectionPos| self@.contains(t) == old(self)@.insert(s).contains(t) by {
                if self@.contains(t) {
                    let k = self.items@.index_of(t);
                    if k < before.len() {
                        assert(before[k] == t);
                    }
                }
                if old(self)@.contains(t) {
                    let k = before.index_of(t);
                    assert(self.items@[k] == t);
                }
                if t == s {
                    assert(self.items@[before.len() as int] == s);
                }
            }
            assert(self@ =~= old(self)@.insert(s));
        } else {
            assert(self@ =~= old(self)@.insert(s));
        }
    }

    /// Add every section of a list.
    pub fn extend(&mut self, list: &Vec<SectionPos>)
        requires
            old(self).wf(),
        ensures
            final(self).wf(),
            final(self)@ == old(self)@.union(list@.to_set()),
    {
        let mut i: usize = 0;
        assert(self@ =~= old(self)@.union(list@.take(0).to_set()));
        while i < list.len()
            invariant
                i <= list@.len(),
                self.wf(),
                self@ == old(self)@.union(list@.take(i as int).to_set()),
            decreases list@.len() - i,
        {
            let ghost before = self@;
            self.insert(list[i]);
            i += 1;
            proof {
                lemma_take_to_set(list@, i as int);
                assert(self@ =~= old(self)@.union(list@.take(i as int).to_set()));
            }
        }
        assert(list@.take(i as int) =~= list@);
    }

    pub fn remove(&mut self, s: SectionPos)
        requires
            old(self).wf(),
        ensures
            final(self).wf(),
            final(self)@ == old(self)@.remove(s),
    {
        let ghost before = self.items@;
        let mut kept: Vec<SectionPos> = Vec::new();
        let mut i: usize = 0;
        while i < self.items.len()
            invariant
                i <= self.items@.len(),
                self.items@ == before,
                before.no_duplicates(),
                kept@.no_duplicates(),
                forall|t: SectionPos|
                    #[trigger] kept@.contains(t) <==> t != s && before.take(i as int).contains(t),
            decreases self.items@.len() - i,
        {
            let t = self.items[i];
            proof {
                lemma_take_contains(before, i as int);
                lemma_push_contains(kept@, t);
                assert(!before.take(i as int).contains(t));
            }
            if t != s {
                kept.push(t);
            }
            i += 1;
        }
        assert(before.take(i as int) =~= before);
        self.items = kept;
        assert(self@ =~= old(self)@.remove(s));
    }

    /// Drop every section of a column.
    pub fn remove_column(&mut self, c: ChunkPos)
        requires
            old(self).wf(),
        ensures
            final(self).wf(),
            final(self)@ == old(self)@.filter(|s: SectionPos| s.spec_chunk() != c),
    {
        let ghost before = self.items@;
        let mut kept: Vec<SectionPos> = Vec::new();
        let mut i: usize = 0;
        while i < self.items.len()
            invariant
                i <= self.items@.len(),
                self.items@ == before,
                before.no_duplicates(),
                kept@.no_duplicates(),
                forall|t: SectionPos|
                    #[trigger] kept@.contains(t) <==> t.spec_chunk() != c && before.take(
                        i as int,
                    ).contains(t),
            decreases self.items@.len() - i,
        {
            let t = self.items[i];
            proof {
                lemma_take_contains(before, i as int);
                lemma_push_contains(kept@, t);
                assert(!before.take(i as int).contains(t));
            }
            if t.x != c.x || t.z != c.z {
                kept.push(t);
            }
            i += 1;
        }
        assert(before.take(i as int) =~= before);
        self.items = kept;
        assert(self@ =~= old(self)@.filter(|s: SectionPos| s.spec_chunk() != c));
    }
}

/// The first `i + 1` items hold what the first `i` hold and the `i`-th.
pub proof fn lemma_take_contains<T>(s: Seq<T>, i: int)
    requires
        0 <= i < s.len(),
    ensures
        forall|t: T|
            #[trigger] s.take(i + 1).contains(t) <==> s.take(i).contains(t) || t == s[i],
        s.no_duplicates() ==> !s.take(i).contains(s[i]),
{
    assert forall|t: T| #[trigger] s.take(i + 1).contains(t) implies s.take(i).contains(t) || t
        == s[i] by {
        let k = s.take(i + 1).index_of(t);
        if k < i {
            assert(s.take(i)[k] == t);
        }
    }
    assert forall|t: T| s.take(i).contains(t) || t == s[i] implies #[trigger] s.take(
        i + 1,
    ).contains(t) by {
        if t == s[i] {
            assert(s.take(i + 1)[i] == t);
        } else {
            let k = s.take(i).index_of(t);
            assert(s.take(i + 1)[k] == t);
        }
    }
    if s.no_duplicates() && s.take(i).contains(s[i]) {
        let k = s.take(i).index_of(s[i]);
        assert(s[k] == s[i]);
    }
}

pub proof fn lemma_push_contains<T>(s: Seq<T>, t: T)
    ensures
        forall|u: T| #[trigger] s.push(t).contains(u) <==> s.contains(u) || u == t,
        s.no_duplicates() && !s.contains(t) ==> s.push(t).no_duplicates(),
{
    assert forall|u: T| #[trigger] s.push(t).contains(u) implies s.contains(u) || u == t by {
        let k = s.push(t).index_of(u);
        if k < s.len() {
            assert(s[k] == u);
        }
    }
    assert forall|u: T| s.contains(u) || u == t implies #[trigger] s.push(t).contains(u) by {
        if s.contains(u) {
            let k = s.index_of(u);
            assert(s.push(t)[k] == u);
        } else {
            assert(s.push(t)[s.len() as int] == t);
        }
    }
}

proof fn lemma_take_to_set<T>(s: Seq<T>, n: int)
    requires
        0 < n <= s.len(),
    ensures
        s.take(n).to_set() == s.take(n - 1).to_set().insert(s[n - 1]),
{
    lemma_take_contains(s, n - 1);
    let a = s.take(n);
    let b = s.take(n - 1);
    assert forall|t: T| a.to_set().contains(t) == b.to_set().insert(s[n - 1]).contains(t) by {
        assert(s.take(n - 1 + 1).contains(t) <==> b.contains(t) || t == s[n - 1]);
    }
    assert(s.take(n).to_set() =~= s.take(n - 1).to_set().insert(s[n - 1]));
}

// ── Block edits ───────────────────────────────────────────────────────────

/// The section a block lies in.
pub open spec fn section_of(x: int, y: int, z: int) -> SectionPos {
    SectionPos { x: chunk_of(x) as i32, y: chunk_of(y) as i32, z: chunk_of(z) as i32 }
}

/// The sections a single block edit dirties: the block's own section, then the
/// neighbour section across any face of the section that the block touches.
/// Edits outside the world's height touch nothing.
pub open spec fn dirtied_by(x: int, y: int, z: int) -> Seq<SectionPos> {
    if !(0 <= y < 256) {
        Seq::empty()
    } else {
        seq![section_of(x, y, z)] + (if x % 16 == 0 {
            seq![section_of(x - 1, y, z)]
        } else if x % 16 == 15 {
            seq![section_of(x + 1, y, z)]
        } else {
            Seq::empty()
        }) + (if z % 16 == 0 {
            seq![section_of(x, y, z - 1)]
        } else if z % 16 == 15 {
            seq![section_of(x, y, z + 1)]
        } else {
            Seq::empty()
        }) + (if y % 16 == 0 && y > 0 {
            seq![section_of(x, y - 1, z)]
        } else if y % 16 == 15 && y < 255 {
            seq![section_of(x, y + 1, z)]
        } else {
            Seq::empty()
        })
    }
}

/// The sections a single block edit dirties.
pub fn block_dirty_sections(x: i32, y: i32, z: i32) -> (sections: Vec<SectionPos>)
    ensures
        sections@ == dirtied_by(x as int, y as int, z as int),
{
    let sy = to_chunk(y);
    let mut sections: Vec<SectionPos> = Vec::new();
    if !(0 <= sy && sy < 16) {
        return sections;
    }
    let cx = to_chunk(x);
    let cz = to_chunk(z);
    let lx: i64 = x as i64 - cx as i64 * 16;
    let ly: i64 = y as i64 - sy as i64 * 16;
    let lz: i64 = z as i64 - cz as i64 * 16;
    sections.push(SectionPos::new(cx, sy, cz));
    if lx == 0 {
        sections.push(SectionPos::new(cx - 1, sy, cz));
    } else if lx == 15 {
        sections.push(SectionPos::new(cx + 1, sy, cz));
    }
    if lz == 0 {
        sections.push(SectionPos::new(cx, sy, cz - 1));
    } else if lz == 15 {
        sections.push(SectionPos::new(cx, sy, cz + 1));
    }
    if ly == 0 && sy > 0 {
        sections.push(SectionPos::new(cx, sy - 1, cz));
    } else if ly == 15 && sy < 15 {
        sections.push(SectionPos::new(cx, sy + 1, cz));
    }
    assert(sections@ =~= dirtied_by(x as int, y as int, z as int));
    sections
}

/// The block beyond one face: 0 and 1 along x, 2 and 3 along y, 4 and 5 along z.
pub open spec fn neighbour(x: int, y: int, z: int, face: int) -> (int, int, int) {
    if face == 0 {
        (x - 1, y, z)
    } else if face == 1 {
        (x + 1, y, z)
    } else if face == 2 {
        (x, y - 1, z)
    } else if face == 3 {
        (x, y + 1, z)
    } else if face == 4 {
        (x, y, z - 1)
    } else {
        (x, y, z + 1)
    }
}

/// An edit dirties the section of each of its neighbour blocks within the world's
/// height, and no section but its own and theirs.
pub proof fn law_edits_dirty_their_neighbours(x: int, y: int, z: int)
    requires
        0 <= y < 256,
    ensures
        dirtied_by(x, y, z).contains(section_of(x, y, z)),
        forall|face: int|
            0 <= face < 6 && 0 <= (#[trigger] neighbour(x, y, z, face)).1 < 256 ==> dirtied_by(
                x,
                y,
                z,
            ).contains(
                section_of(
                    neighbour(x, y, z, face).0,
                    neighbour(x, y, z, face).1,
                    neighbour(x, y, z, face).2,
                ),
            ),
        forall|i: int|
            0 <= i < dirtied_by(x, y, z).len() ==> (#[trigger] dirtied_by(x, y, z)[i])
                == section_of(x, y, z) || exists|face: int|
                0 <= face < 6 && dirtied_by(x, y, z)[i] == section_of(
                    (#[trigger] neighbour(x, y, z, face)).0,
                    neighbour(x, y, z, face).1,
                    neighbour(x, y, z, face).2,
                ),
{
    let d = dirtied_by(x, y, z);
    let own = section_of(x, y, z);
    assert(d[0] == own);
    assert forall|face: int|
        0 <= face < 6 && 0 <= (#[trigger] neighbour(x, y, z, face)).1 < 256 implies d.contains(
        section_of(
            neighbour(x, y, z, face).0,
            neighbour(x, y, z, face).1,
            neighbour(x, y, z, face).2,
        ),
    ) by {
        let n = neighbour(x, y, z, face);
        let s = section_of(n.0, n.1, n.2);
        let xs: int = if x % 16 == 0 || x % 16 == 15 {
            1
        } else {
            0
        };
        let zs: int = if z % 16 == 0 || z % 16 == 15 {
            1
        } else {
            0
        };
        if s != own {
            if face < 2 {
                assert(d[1] == s);
            } else if face >= 4 {
                assert(d[1 + xs] == s);
            } else {
                assert(d[1 + xs + zs] == s);
            }
        }
    }
    assert forall|i: int| 0 <= i < d.len() implies (#[trigger] d[i]) == own || exists|face: int|
        0 <= face < 6 && d[i] == section_of(
            (#[trigger] neighbour(x, y, z, face)).0,
            neighbour(x, y, z, face).1,
            neighbour(x, y, z, face).2,
        ) by {
        let n0 = neighbour(x, y, z, 0);
        let n1 = neighbour(x, y, z, 1);
        let n2 = neighbour(x, y, z, 2);
        let n3 = neighbour(x, y, z, 3);
        let n4 = neighbour(x, y, z, 4);
        let n5 = neighbour(x, y, z, 5);
        assert(d[i] == own || d[i] == section_of(n0.0, n0.1, n0.2) || d[i] == section_of(
            n1.0,
            n1.1,
            n1.2,
        ) || d[i] == section_of(n2.0, n2.1, n2.2) || d[i] == section_of(n3.0, n3.1, n3.2) || d[i]
            == section_of(n4.0, n4.1, n4.2) || d[i] == section_of(n5.0, n5.1, n5.2));
    }
}

// ── Loaded columns ────────────────────────────────────────────────────────

/// A loaded column and the heights of its sections: those it came with, and those in
/// which blocks were set since.
#[derive(Debug)]
pub struct Column {
    pub pos: ChunkPos,
    pub sections: Vec<i32>,
}

/// The loaded columns.
#[derive(Debug)]
pub struct Columns {
    pub list: Vec<Column>,
}

impl Columns {
    /// No column is listed twice.
    pub open spec fn wf(&self) -> bool {
        forall|i: int, j: int|
            0 <= i < j < self.list@.len() ==> (#[trigger] self.list@[i]).pos != (
            #[trigger] self.list@[j]).pos
    }

    pub open spec fn loaded(&self, c: ChunkPos) -> bool {
        exists|i: int| 0 <= i < self.list@.len() && (#[trigger] self.list@[i]).pos == c
    }

    /// The sections of a column, if it is loaded.
    pub open spec fn has_section(&self, s: SectionPos) -> bool {
        exists|i: int|
            0 <= i < self.list@.len() && (#[trigger] self.list@[i]).pos == s.spec_chunk()
                && self.list@[i].sections@.contains(s.y)
    }

    /// Find a loaded column.
    pub fn find(&self, c: ChunkPos) -> (at: Option<usize>)
        ensures
            match at {
                Some(i) => i < self.list@.len() && self.list@[i as int].pos == c,
                None => !self.loaded(c),
            },
    {
        let mut i: usize = 0;
        while i < self.list.len()
            invariant
                i <= self.list@.len(),
                forall|j: int| 0 <= j < i ==> (#[trigger] self.list@[j]).pos != c,
            decreases self.list@.len() - i,
        {
            if self.list[i].pos == c {
                return Some(i);
            }
            i += 1;
        }
        None
    }

    /// A block was set: its column is there from now on, with the section of the block.
    /// Blocks outside the world's height are not kept. `hint` is where the column may be
    /// listed; returns where it may be next time.
    pub fn block_set(&mut self, x: i32, y: i32, z: i32, hint: usize) -> (at: usize)
        requires
            old(self).wf(),
        ensures
            final(self).wf(),
            forall|c: ChunkPos|
                #[trigger] final(self).loaded(c) == (old(self).loaded(c) || (0 <= y < 256 && c
                    == section_of(x as int, y as int, z as int).spec_chunk())),
            forall|s: SectionPos|
                #[trigger] final(self).has_section(s) == (old(self).has_section(s) || (0 <= y < 256
                    && s == section_of(x as int, y as int, z as int))),
    {
        if y < 0 || y >= 256 {
            return hint;
        }
        let c = ChunkPos::new(to_chunk(x), to_chunk(z));
        let sy = to_chunk(y);
        let ghost own = section_of(x as int, y as int, z as int);
        let ghost before = self.list@;
        let found = if hint < self.list.len() && self.list[hint].pos == c {
            Some(hint)
        } else {
            self.find(c)
        };
        match found {
            Some(k) => {
                assert(self.loaded(c));
                let mut have = false;
                let mut i: usize = 0;
                while i < self.list[k as usize].sections.len()
                    invariant
                        *self == *old(self),
                        k < self.list@.len(),
                        i <= self.list@[k as int].sections@.len(),
                        have == self.list@[k as int].sections@.take(i as int).contains(sy),
                    decreases self.list@[k as int].sections@.len() - i,
                {
                    proof {
                        lemma_take_contains(self.list@[k as int].sections@, i as int);
                    }
                    if self.list[k].sections[i] == sy {
                        have = true;
                    }
                    i += 1;
                }
                let ghost was = before[k as int].sections@;
                assert(was.take(i as int) =~= was);
                if !have {
                    let mut column = Column { pos: c, sections: Vec::new() };
                    std::mem::swap(&mut column, &mut self.list[k]);
                    column.sections.push(sy);
                    std::mem::swap(&mut column, &mut self.list[k]);
                    proof {
                        lemma_push_contains(was, sy);
                    }
                }
                proof {
                    let after = self.list@;
                    assert(after.len() == before.len());
                    assert(after[k as int].pos == c);
                    assert forall|y: i32| #[trigger] after[k as int].sections@.contains(y) == (
                    was.contains(y) || y == sy) by {}
                    lemma_section_added(*old(self), *self, k as int, sy);
                }
                k
            },
            None => {
                let mut sections: Vec<i32> = Vec::new();
                sections.push(sy);
                self.list.push(Column { pos: c, sections });
                proof {
                    let after = self.list@;
                    let n = before.len() as int;
                    assert(after[n].sections@ =~= seq![sy]);
                    assert(after[n].sections@[0] == sy);
                    assert forall|j: int| 0 <= j < n implies (#[trigger] after[j]) == before[j]
                        && before[j].pos != c by {
                        if before[j].pos == c {
                            assert(old(self).loaded(c));
                        }
                    }
                    lemma_column_added(*old(self), *self, c, sy);
                }
                self.list.len() - 1
            },
        }
    }
}

proof fn lemma_section_added(before: Columns, after: Columns, k: int, y: i32)
    requires
        before.wf(),
        before.list@.len() == after.list@.len(),
        0 <= k < before.list@.len(),
        after.list@[k].pos == before.list@[k].pos,
        forall|h: i32|
            #[trigger] after.list@[k].sections@.contains(h) == (
            before.list@[k].sections@.contains(h) || h == y),
        forall|j: int|
            0 <= j < before.list@.len() && j != k ==> (#[trigger] after.list@[j])
                == before.list@[j],
    ensures
        after.wf(),
        forall|c: ChunkPos| #[trigger] after.loaded(c) == before.loaded(c),
        forall|s: SectionPos|
            #[trigger] after.has_section(s) == (before.has_section(s) || s == (SectionPos {
                x: before.list@[k].pos.x,
                y,
                z: before.list@[k].pos.z,
            })),
{
    assert forall|j: int| 0 <= j < before.list@.len() implies (#[trigger] after.list@[j]).pos
        == before.list@[j].pos by {}
    assert forall|c: ChunkPos| #[trigger] after.loaded(c) == before.loaded(c) by {
        if after.loaded(c) {
            let j = choose|j: int|
                0 <= j < after.list@.len() && (#[trigger] after.list@[j]).pos == c;
            assert(before.list@[j].pos == c);
        }
        if before.loaded(c) {
            let j = choose|j: int|
                0 <= j < before.list@.len() && (#[trigger] before.list@[j]).pos == c;
            assert(after.list@[j].pos == c);
        }
    }
    let own = SectionPos { x: before.list@[k].pos.x, y, z: before.list@[k].pos.z };
    assert forall|s: SectionPos|
        #[trigger] after.has_section(s) == (before.has_section(s) || s == own) by {
        if after.has_section(s) {
            let j = choose|j: int|
                0 <= j < after.list@.len() && (#[trigger] after.list@[j]).pos == s.spec_chunk()
                    && after.list@[j].sections@.contains(s.y);
            assert(before.list@[j].pos == s.spec_chunk());
        }
        if before.has_section(s) {
            let j = choose|j: int|
                0 <= j < before.list@.len() && (#[trigger] before.list@[j]).pos == s.spec_chunk()
                    && before.list@[j].sections@.contains(s.y);
            assert(after.list@[j].pos == s.spec_chunk() && after.list@[j].sections@.contains(s.y));
        }
        if s == own {
            assert(after.list@[k].pos == s.spec_chunk() && after.list@[k].sections@.contains(s.y));
        }
    }
}

proof fn lemma_column_added(before: Columns, after: Columns, c: ChunkPos, y: i32)
    requires
        before.wf(),
        after.list@.len() == before.list@.len() + 1,
        after.list@.last().pos == c,
        after.list@.last().sections@ == seq![y],
        forall|j: int|
            0 <= j < before.list@.len() ==> (#[trigger] after.list@[j]) == before.list@[j]
                && before.list@[j].pos != c,
    ensures
        after.wf(),
        forall|d: ChunkPos| #[trigger] after.loaded(d) == (before.loaded(d) || d == c),
        forall|s: SectionPos|
            #[trigger] after.has_section(s) == (before.has_section(s) || s == (SectionPos {
                x: c.x,
                y,
                z: c.z,
            })),
{
    let n = before.list@.len() as int;
    assert forall|d: ChunkPos| #[trigger] after.loaded(d) == (before.loaded(d) || d == c) by {
        if after.loaded(d) {
            let j = choose|j: int|
                0 <= j < after.list@.len() && (#[trigger] after.list@[j]).pos == d;
            if j < n {
                assert(before.list@[j].pos == d);
            }
        }
        if before.loaded(d) {
            let j = choose|j: int|
                0 <= j < before.list@.len() && (#[trigger] before.list@[j]).pos == d;
            assert(after.list@[j].pos == d);
        }
        if d == c {
            assert(after.list@[n].pos == d);
        }
    }
    let own = SectionPos { x: c.x, y, z: c.z };
    assert forall|s: SectionPos|
        #[trigger] after.has_section(s) == (before.has_section(s) || s == own) by {
        if after.has_section(s) {
            let j = choose|j: int|
                0 <= j < after.list@.len() && (#[trigger] after.list@[j]).pos == s.spec_chunk()
                    && after.list@[j].sections@.contains(s.y);
            if j < n {
                assert(before.list@[j].pos == s.spec_chunk());
            }
        }
        if before.has_section(s) {
            let j = choose|j: int|
                0 <= j < before.list@.len() && (#[trigger] before.list@[j]).pos == s.spec_chunk()
                    && before.list@[j].sections@.contains(s.y);
            assert(after.list@[j].pos == s.spec_chunk() && after.list@[j].sections@.contains(s.y));
        }
        if s == own {
            assert(after.list@[n].sections@[0] == y);
            assert(after.list@[n].pos == s.spec_chunk() && after.list@[n].sections@.contains(s.y));
        }
    }
}

/// The sections that (re)appear or disappear with a column: those it has blocks in
/// when it is loaded, all of them when it is not.
pub open spec fn column_sections(columns: Columns, c: ChunkPos, s: SectionPos) -> bool {
    &&& s.spec_chunk() == c
    &&& if columns.loaded(c) {
        columns.has_section(s)
    } else {
        0 <= s.y < COLUMN_SECTIONS
    }
}

/// A column and its four horizontal neighbours.
pub open spec fn column_and_neighbours(c: ChunkPos) -> Set<ChunkPos> {
    set![
        c,
        ChunkPos { x: (c.x - 1) as i32, z: c.z },
        ChunkPos { x: (c.x + 1) as i32, z: c.z },
        ChunkPos { x: c.x, z: (c.z - 1) as i32 },
        ChunkPos { x: c.x, z: (c.z + 1) as i32 },
    ]
}

/// Add the sections of one column.
pub fn mark_column(dirty: &mut SectionSet, columns: &Columns, c: ChunkPos)
    requires
        old(dirty).wf(),
        columns.wf(),
    ensures
        final(dirty).wf(),
        forall|s: SectionPos|
            #[trigger] final(dirty)@.contains(s) <==> old(dirty)@.contains(s) || column_sections(
                *columns,
                c,
                s,
            ),
{
    match columns.find(c) {
        Some(k) => {
            assert(columns.loaded(c));
            let column = &columns.list[k];
            let mut i: usize = 0;
            while i < column.sections.len()
                invariant
                    i <= column.sections@.len(),
                    dirty.wf(),
                    forall|s: SectionPos|
                        #[trigger] dirty@.contains(s) <==> old(dirty)@.contains(s) || (
                        s.spec_chunk() == c && column.sections@.take(i as int).contains(s.y)),
                decreases column.sections@.len() - i,
            {
                let y = column.sections[i];
                proof {
                    lemma_take_contains(column.sections@, i as int);
                }
                dirty.insert(SectionPos::new(c.x, y, c.z));
                i += 1;
            }
            assert(column.sections@.take(i as int) =~= column.sections@);
            assert forall|s: SectionPos| s.spec_chunk() == c implies columns.has_section(s)
                == column.sections@.contains(s.y) by {
                if columns.has_section(s) {
                    let j = choose|j: int|
                        0 <= j < columns.list@.len() && (#[trigger] columns.list@[j]).pos
                            == s.spec_chunk() && columns.list@[j].sections@.contains(s.y);
                    assert(j == k);
                }
            }
        },
        None => {
            let mut y: i32 = 0;
            while y < COLUMN_SECTIONS
                invariant
                    0 <= y <= COLUMN_SECTIONS,
                    dirty.wf(),
                    forall|s: SectionPos|
                        #[trigger] dirty@.contains(s) <==> old(dirty)@.contains(s) || (
                        s.spec_chunk() == c && 0 <= s.y < y),
                decreases COLUMN_SECTIONS - y,
            {
                dirty.insert(SectionPos::new(c.x, y, c.z));
                y += 1;
            }
        },
    }
}

/// Mark a whole column and its four horizontal neighbours dirty, as when a column
/// is loaded or unloaded.
pub fn mark_chunk_dirty(dirty: &mut SectionSet, columns: &Columns, pos: ChunkPos)
    requires
        old(dirty).wf(),
        columns.wf(),
        i32::MIN < pos.x < i32::MAX,
        i32::MIN < pos.z < i32::MAX,
    ensures
        final(dirty).wf(),
        forall|s: SectionPos|
            #[trigger] final(dirty)@.contains(s) <==> old(dirty)@.contains(s) || (
            column_and_neighbours(pos).contains(s.spec_chunk()) && column_sections(
                *columns,
                s.spec_chunk(),
                s,
            )),
{
    mark_column(dirty, columns, pos);
    mark_column(dirty, columns, ChunkPos::new(pos.x - 1, pos.z));
    mark_column(dirty, columns, ChunkPos::new(pos.x + 1, pos.z));
    mark_column(dirty, columns, ChunkPos::new(pos.x, pos.z - 1));
    mark_column(dirty, columns, ChunkPos::new(pos.x, pos.z + 1));
}

// ── The per-frame budget ──────────────────────────────────────────────────

/// The squared distance of a section from a section position.
pub open spec fn distance_sq(s: SectionPos, x: int, y: int, z: int) -> int {
    (s.x - x) * (s.x - x) + (s.y - y) * (s.y - y) + (s.z - z) * (s.z - z)
}

fn squared(d: i64) -> (n: i128)
    requires
        -0x1_0000_0000 <= d <= 0x1_0000_0000,
    ensures
        n == d * d,
        0 <= n <= 0x1_0000_0000_0000_0000,
{
    assert(0 <= d * d <= 0x1_0000_0000 * 0x1_0000_0000) by (nonlinear_arith)
        requires
            -0x1_0000_0000 <= d <= 0x1_0000_0000,
    ;
    d as i128 * d as i128
}

fn section_distance(s: SectionPos, x: i32, y: i32, z: i32) -> (d: i128)
    ensures
        d == distance_sq(s, x as int, y as int, z as int),
        0 <= d,
{
    squared(s.x as i64 - x as i64) + squared(s.y as i64 - y as i64) + squared(
        s.z as i64 - z as i64,
    )
}

/// Whether `list` is ordered by distance, nearest first.
pub open spec fn nearest_first(list: Seq<SectionPos>, x: int, y: int, z: int) -> bool {
    forall|i: int, j: int|
        0 <= i <= j < list.len() ==> distance_sq(#[trigger] list[i], x, y, z) <= distance_sq(
            #[trigger] list[j],
            x,
            y,
            z,
        )
}

/// Every section of `near` is at least as near as every section of `far`.
pub open spec fn nearer(near: Set<SectionPos>, far: Set<SectionPos>, x: int, y: int, z: int) -> bool {
    forall|a: SectionPos, b: SectionPos|
        #[trigger] near.contains(a) && #[trigger] far.contains(b) ==> distance_sq(a, x, y, z)
            <= distance_sq(b, x, y, z)
}

/// The `max` nearest sections of a set, nearest first, taken out of it.
fn take_nearest(dirty: &mut SectionSet, max: usize, x: i32, y: i32, z: i32) -> (taken: Vec<
    SectionPos,
>)
    requires
        old(dirty).wf(),
        max <= old(dirty).items@.len(),
    ensures
        final(dirty).wf(),
        taken@.len() == max,
        taken@.no_duplicates(),
        nearest_first(taken@, x as int, y as int, z as int),
        forall|s: SectionPos|
            #[trigger] old(dirty)@.contains(s) <==> taken@.contains(s) || final(dirty)@.contains(
                s,
            ),
        forall|s: SectionPos| #[trigger] taken@.contains(s) ==> !final(dirty)@.contains(s),
        nearer(taken@.to_set(), final(dirty)@, x as int, y as int, z as int),
{
    let mut taken: Vec<SectionPos> = Vec::new();
    while taken.len() < max
        invariant
            dirty.wf(),
            taken@.len() <= max,
            taken@.len() + dirty.items@.len() == old(dirty).items@.len(),
            max <= old(dirty).items@.len(),
            taken@.no_duplicates(),
            nearest_first(taken@, x as int, y as int, z as int),
            forall|s: SectionPos|
                #[trigger] old(dirty)@.contains(s) <==> taken@.contains(s) || dirty@.contains(s),
            forall|s: SectionPos| #[trigger] taken@.contains(s) ==> !dirty@.contains(s),
            nearer(taken@.to_set(), dirty@, x as int, y as int, z as int),
        decreases max - taken@.len(),
    {
        let mut best: usize = 0;
        let mut best_distance = section_distance(dirty.items[0], x, y, z);
        let mut i: usize = 1;
        while i < dirty.items.len()
            invariant
                1 <= i <= dirty.items@.len(),
                best < i,
                best_distance == distance_sq(
                    dirty.items@[best as int],
                    x as int,
                    y as int,
                    z as int,
                ),
                forall|j: int|
                    0 <= j < i ==> best_distance <= distance_sq(
                        #[trigger] dirty.items@[j],
                        x as int,
                        y as int,
                        z as int,
                    ),
            decreases dirty.items@.len() - i,
        {
            let d = section_distance(dirty.items[i], x, y, z);
            if d < best_distance {
                best = i;
                best_distance = d;
            }
            i += 1;
        }
        let ghost before = dirty.items@;
        let ghost had = taken@;
        let next = dirty.items[best];
        assert(dirty@.contains(next));
        dirty.items.remove(best);
        taken.push(next);
        proof {
            lemma_remove_contains(before, best as int);
            lemma_push_contains(had, next);
            assert forall|a: SectionPos, b: SectionPos|
                #[trigger] taken@.to_set().contains(a) && #[trigger] dirty@.contains(b) implies distance_sq(
                a,
                x as int,
                y as int,
                z as int,
            ) <= distance_sq(b, x as int, y as int, z as int) by {
                assert(before.contains(b));
                let k = before.index_of(b);
                assert(before[k] == b);
                if a != next {
                    assert(had.to_set().contains(a));
                    assert(before.to_set().contains(b));
                }
            }
            assert forall|p: int, q: int| 0 <= p <= q < taken@.len() implies distance_sq(
                #[trigger] taken@[p],
                x as int,
                y as int,
                z as int,
            ) <= distance_sq(#[trigger] taken@[q], x as int, y as int, z as int) by {
                if q == had.len() && p < q {
                    assert(had.to_set().contains(had[p]));
                    assert(before.to_set().contains(next));
                }
            }
        }
    }
    taken
}

pub proof fn lemma_remove_contains<T>(s: Seq<T>, i: int)
    requires
        0 <= i < s.len(),
        s.no_duplicates(),
    ensures
        s.remove(i).no_duplicates(),
        forall|t: T| #[trigger] s.remove(i).contains(t) <==> s.contains(t) && t != s[i],
{
    let r = s.remove(i);
    assert forall|t: T| #[trigger] r.contains(t) implies s.contains(t) && t != s[i] by {
        let k = r.index_of(t);
        if k < i {
            assert(s[k] == t);
        } else {
            assert(s[k + 1] == t);
        }
    }
    assert forall|t: T| s.contains(t) && t != s[i] implies #[trigger] r.contains(t) by {
        let k = s.index_of(t);
        if k < i {
            assert(r[k] == t);
        } else {
            assert(r[k - 1] == t);
        }
    }
}

/// The sections of unloaded columns.
pub open spec fn removals(dirty: Set<SectionPos>, columns: Columns) -> Set<SectionPos> {
    dirty.filter(|s: SectionPos| !columns.loaded(s.spec_chunk()))
}

/// A frame's share of the dirty sections was taken: first those of unloaded
/// columns, all of them, then up to `max` others, the nearest to block
/// `(bx, by, bz)` first where there are more; the rest stays.
pub open spec fn budget_taken(
    before: Set<SectionPos>,
    columns: Columns,
    max: int,
    bx: int,
    by: int,
    bz: int,
    taken: Seq<SectionPos>,
    after: Set<SectionPos>,
) -> bool {
    let gone = removals(before, columns);
    let rest = before.difference(gone);
    let r = gone.len() as int;
    &&& taken.no_duplicates()
    &&& forall|s: SectionPos|
        #[trigger] before.contains(s) <==> taken.contains(s) || after.contains(s)
    &&& forall|s: SectionPos| #[trigger] taken.contains(s) ==> !after.contains(s)
    &&& forall|s: SectionPos| #[trigger] after.contains(s) ==> columns.loaded(s.spec_chunk())
    &&& 0 <= r <= taken.len()
    &&& taken.take(r).to_set() == gone
    &&& taken.len() - r == if rest.len() <= max {
        rest.len() as int
    } else {
        max
    }
    &&& rest.len() > max ==> nearest_first(
        taken.skip(r),
        chunk_of(bx),
        chunk_of(by),
        chunk_of(bz),
    )
    &&& nearer(taken.skip(r).to_set(), after, chunk_of(bx), chunk_of(by), chunk_of(bz))
}

/// Drain this frame's dirty sections: every section whose column is no longer
/// loaded, then up to `max` of the others, the nearest to the player first where
/// there are more. The player stands at block `(bx, by, bz)`.
pub fn take_dirty_chunks_budget(
    dirty: &mut SectionSet,
    columns: &Columns,
    max: usize,
    bx: i32,
    by: i32,
    bz: i32,
) -> (taken: Vec<SectionPos>)
    requires
        old(dirty).wf(),
    ensures
        final(dirty).wf(),
        budget_taken(
            old(dirty)@,
            *columns,
            max as int,
            bx as int,
            by as int,
            bz as int,
            taken@,
            final(dirty)@,
        ),
{
    let ghost whole = dirty.items@;
    let mut gone: Vec<SectionPos> = Vec::new();
    let mut kept: Vec<SectionPos> = Vec::new();
    let mut i: usize = 0;
    while i < dirty.items.len()
        invariant
            i <= dirty.items@.len(),
            dirty.items@ == whole,
            whole.no_duplicates(),
            gone@.no_duplicates(),
            kept@.no_duplicates(),
            gone@.len() + kept@.len() == i,
            forall|s: SectionPos|
                #[trigger] gone@.contains(s) <==> whole.take(i as int).contains(s)
                    && !columns.loaded(s.spec_chunk()),
            forall|s: SectionPos|
                #[trigger] kept@.contains(s) <==> whole.take(i as int).contains(s)
                    && columns.loaded(s.spec_chunk()),
        decreases dirty.items@.len() - i,
    {
        let s = dirty.items[i];
        proof {
            lemma_take_contains(whole, i as int);
            lemma_push_contains(gone@, s);
            lemma_push_contains(kept@, s);
            assert(!whole.take(i as int).contains(s));
        }
        if columns.find(s.chunk()).is_none() {
            gone.push(s);
        } else {
            kept.push(s);
        }
        i += 1;
    }
    assert(whole.take(i as int) =~= whole);
    let ghost gone_set = removals(old(dirty)@, *columns);
    let ghost rest = old(dirty)@.difference(gone_set);
    let ghost r = gone@.len() as int;
    proof {
        assert(gone@.to_set() =~= gone_set);
        assert(kept@.to_set() =~= rest);
        gone@.unique_seq_to_set();
        kept@.unique_seq_to_set();
    }
    let ghost gone_list = gone@;
    let ghost kept_list = kept@;
    let n = kept.len();
    dirty.items = kept;
    let ghost mid = *dirty;
    let mut out = gone;
    let mut more: Vec<SectionPos> = Vec::new();
    if n <= max {
        let mut all: Vec<SectionPos> = Vec::new();
        std::mem::swap(&mut all, &mut dirty.items);
        more = all;
    } else {
        more = take_nearest(dirty, max, to_chunk(bx), to_chunk(by), to_chunk(bz));
    }
    let ghost chosen = more@;
    out.append(&mut more);
    proof {
        assert(out@ =~= gone_list + chosen);
        assert(out@.take(r) =~= gone_list);
        assert(out@.skip(r) =~= chosen);
        assert forall|s: SectionPos| #[trigger] out@.contains(s) <==> gone_list.contains(s)
            || chosen.contains(s) by {
            if out@.contains(s) {
                let k = out@.index_of(s);
                if k < r {
                    assert(gone_list[k] == s);
                } else {
                    assert(chosen[k - r] == s);
                }
            }
            if gone_list.contains(s) {
                let k = gone_list.index_of(s);
                assert(out@[k] == s);
            }
            if chosen.contains(s) {
                let k = chosen.index_of(s);
                assert(out@[r + k] == s);
            }
        }
        assert forall|s: SectionPos| #[trigger] chosen.contains(s) implies kept_list.contains(s) by {
            assert(mid@.contains(s));
        }
        assert forall|a: int, b: int| 0 <= a < b < out@.len() implies out@[a] != out@[b] by {
            if a < r && b >= r {
                assert(gone_list.contains(gone_list[a]));
                assert(chosen.contains(chosen[b - r]));
                assert(kept_list.contains(chosen[b - r]));
            }
        }
        assert forall|s: SectionPos| #[trigger] dirty@.contains(s) implies kept_list.contains(s) by {
            if n > max {
                assert(mid@.contains(s));
            }
        }
        assert forall|s: SectionPos| #[trigger] old(dirty)@.contains(s) <==> out@.contains(s)
            || dirty@.contains(s) by {
            assert(whole.contains(s) <==> gone_list.contains(s) || kept_list.contains(s));
            assert(kept_list.contains(s) <==> mid@.contains(s));
            assert(mid@.contains(s) <==> chosen.contains(s) || dirty@.contains(s));
        }
        assert forall|s: SectionPos| #[trigger] out@.contains(s) implies !dirty@.contains(s) by {
            if gone_list.contains(s) {
                assert(!kept_list.contains(s));
            }
        }
    }
    out
}

} // verus!
