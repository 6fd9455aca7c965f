//! The binary tag format that item stacks carry: how far a tag extends, and
//! finding named entries in it. Tags are kept as the bytes they travel as.

use vstd::prelude::*;

verus! {

pub const TAG_END: u8 = 0;

pub const TAG_SHORT: u8 = 2;

pub const TAG_LIST: u8 = 9;

pub const TAG_COMPOUND: u8 = 10;

/// How deep lists and compounds may nest.
pub const MAX_DEPTH: usize = 512;

/// The unsigned big-endian 16-bit number at `at`.
pub open spec fn be_u16(b: Seq<u8>, at: int) -> int {
    b[at] * 256 + b[at + 1]
}

/// The signed big-endian 16-bit number at `at`.
pub open spec fn be_i16(b: Seq<u8>, at: int) -> int {
    let n = be_u16(b, at);
    if n < 0x8000 {
        n
    } else {
        n - 0x1_0000
    }
}

/// The signed big-endian 32-bit number at `at`.
pub open spec fn be_i32(b: Seq<u8>, at: int) -> int {
    let n = be_u16(b, at) * 0x1_0000 + be_u16(b, at + 2);
    if n < 0x8000_0000 {
        n
    } else {
        n - 0x1_0000_0000
    }
}

/// There are `n` bytes at `at`.
pub open spec fn in_bytes(b: Seq<u8>, at: int, n: int) -> bool {
    0 <= at && 0 <= n && at + n <= b.len()
}

/// A run of `n` bytes at `at`: where it ends, if it is there.
pub open spec fn run_end(b: Seq<u8>, at: int, n: int) -> Option<int> {
    if in_bytes(b, at, n) {
        Some(at + n)
    } else {
        None
    }
}

/// Where the payload of a tag of type `tag` at `at` ends, with `left` more levels
/// of nesting allowed; nothing if it is malformed or cut short.
pub open spec fn payload_end(tag: u8, left: nat, b: Seq<u8>, at: int) -> Option<int>
    decreases left, 0int, 0int,
{
    if tag == 1 {
        run_end(b, at, 1)
    } else if tag == 2 {
        run_end(b, at, 2)
    } else if tag == 3 || tag == 5 {
        run_end(b, at, 4)
    } else if tag == 4 || tag == 6 {
        run_end(b, at, 8)
    } else if tag == 7 {
        if in_bytes(b, at, 4) && be_i32(b, at) >= 0 {
            run_end(b, at + 4, be_i32(b, at))
        } else {
            None
        }
    } else if tag == 8 {
        if in_bytes(b, at, 2) {
            run_end(b, at + 2, be_u16(b, at))
        } else {
            None
        }
    } else if tag == 9 {
        if !in_bytes(b, at, 5) || left == 0 {
            None
        } else if be_i32(b, at + 1) <= 0 {
            Some(at + 5)
        } else {
            list_end(b[at], (left - 1) as nat, be_i32(b, at + 1), b, at + 5)
        }
    } else if tag == 10 {
        if left == 0 {
            None
        } else {
            compound_end((left - 1) as nat, b, at)
        }
    } else if tag == 11 {
        if in_bytes(b, at, 4) && be_i32(b, at) >= 0 {
            run_end(b, at + 4, be_i32(b, at) * 4)
        } else {
            None
        }
    } else {
        None
    }
}

/// Where `n` payloads of type `tag` in a row end.
pub open spec fn list_end(tag: u8, left: nat, n: int, b: Seq<u8>, at: int) -> Option<int>
    decreases left, 1int, n,
{
    if n <= 0 {
        Some(at)
    } else {
        match payload_end(tag, left, b, at) {
            Some(next) => list_end(tag, left, n - 1, b, next),
            None => None,
        }
    }
}

/// Where the entries of a compound end, past their end marker.
pub open spec fn compound_end(left: nat, b: Seq<u8>, at: int) -> Option<int>
    decreases left, 1int, b.len() - at,
{
    if !in_bytes(b, at, 1) {
        None
    } else if b[at] == TAG_END {
        Some(at + 1)
    } else {
        match entry_end(left, b, at) {
            Some(next) => if at < next <= b.len() {
                compound_end(left, b, next)
            } else {
                None
            },
            None => None,
        }
    }
}

/// Where the payload of the named entry at `at` starts.
pub open spec fn entry_payload(b: Seq<u8>, at: int) -> int {
    at + 3 + be_u16(b, at + 1)
}

/// Where the named entry at `at` ends.
pub open spec fn entry_end(left: nat, b: Seq<u8>, at: int) -> Option<int>
    decreases left, 0int, 1int,
{
    if in_bytes(b, at, 3) && in_bytes(b, at + 3, be_u16(b, at + 1)) {
        payload_end(b[at], left, b, entry_payload(b, at))
    } else {
        None
    }
}

/// The type and payload position of the last entry called `name` in the compound
/// whose entries start at `at`; `found` is the last one before.
pub open spec fn entry_named(
    left: nat,
    b: Seq<u8>,
    at: int,
    name: Seq<u8>,
    found: Option<(u8, int)>,
) -> Option<(u8, int)>
    decreases b.len() - at,
{
    if !in_bytes(b, at, 1) {
        None
    } else if b[at] == TAG_END {
        found
    } else {
        match entry_end(left, b, at) {
            Some(next) => if at < next <= b.len() {
                let here = b.subrange(at + 3, entry_payload(b, at));
                entry_named(
                    left,
                    b,
                    next,
                    name,
                    if here == name {
                        Some((b[at], entry_payload(b, at)))
                    } else {
                        found
                    },
                )
            } else {
                None
            },
            None => None,
        }
    }
}

/// A payload ends past where it starts, within the bytes.
pub proof fn lemma_payload_end(tag: u8, left: nat, b: Seq<u8>, at: int)
    requires
        0 <= at <= b.len(),
    ensures
        payload_end(tag, left, b, at) matches Some(next) ==> at < next <= b.len() || (at <= next
            <= b.len() && (tag == 9 || tag == 10)),
    decreases left, 0int, 0int,
{
    if tag == 9 && in_bytes(b, at, 5) && left > 0 && be_i32(b, at + 1) > 0 {
        lemma_list_end(b[at], (left - 1) as nat, be_i32(b, at + 1), b, at + 5);
    } else if tag == 10 && left > 0 {
        lemma_compound_end((left - 1) as nat, b, at);
    }
}

pub proof fn lemma_list_end(tag: u8, left: nat, n: int, b: Seq<u8>, at: int)
    requires
        0 <= at <= b.len(),
    ensures
        list_end(tag, left, n, b, at) matches Some(next) ==> at <= next <= b.len(),
    decreases left, 1int, n,
{
    if n > 0 {
        lemma_payload_end(tag, left, b, at);
        match payload_end(tag, left, b, at) {
            Some(next) => {
                lemma_list_end(tag, left, n - 1, b, next);
            },
            None => {},
        }
    }
}

pub proof fn lemma_compound_end(left: nat, b: Seq<u8>, at: int)
    requires
        0 <= at <= b.len(),
    ensures
        compound_end(left, b, at) matches Some(next) ==> at < next <= b.len(),
    decreases left, 1int, b.len() - at,
{
    if in_bytes(b, at, 1) && b[at] != TAG_END {
        match entry_end(left, b, at) {
            Some(next) => {
                if at < next <= b.len() {
                    lemma_compound_end(left, b, next);
                }
            },
            None => {},
        }
    }
}

// ── Reading ───────────────────────────────────────────────────────────────

/// The unsigned big-endian 16-bit number at `at`.
pub fn read_u16(b: &[u8], at: usize) -> (n: u16)
    requires
        in_bytes(b@, at as int, 2),
    ensures
        n == be_u16(b@, at as int),
{
    b[at] as u16 * 256 + b[at + 1] as u16
}

/// The signed big-endian 16-bit number at `at`.
pub fn read_i16(b: &[u8], at: usize) -> (n: i16)
    requires
        in_bytes(b@, at as int, 2),
    ensures
        n == be_i16(b@, at as int),
{
    let n: i32 = read_u16(b, at) as i32;
    if n < 0x8000 {
        n as i16
    } else {
        (n - 0x1_0000) as i16
    }
}

/// The signed big-endian 32-bit number at `at`.
pub fn read_i32(b: &[u8], at: usize) -> (n: i32)
    requires
        in_bytes(b@, at as int, 4),
    ensures
        n == be_i32(b@, at as int),
{
    assert(at + 4 <= b.len());
    let n: i64 = read_u16(b, at) as i64 * 0x1_0000 + read_u16(b, at + 2) as i64;
    if n < 0x8000_0000 {
        n as i32
    } else {
        (n - 0x1_0000_0000) as i32
    }
}

fn skip_run(b: &[u8], at: usize, n: u64) -> (end: Option<usize>)
    requires
        at <= b@.len(),
    ensures
        end matches Some(e) ==> run_end(b@, at as int, n as int) == Some(e as int),
        end is None ==> run_end(b@, at as int, n as int) is None,
{
    let left: usize = b.len() - at;
    if n <= left as u64 {
        Some(at + n as usize)
    } else {
        None
    }
}

/// An exec position agrees with a spec position.
pub open spec fn agrees(got: Option<usize>, want: Option<int>) -> bool {
    match (got, want) {
        (Some(g), Some(w)) => g == w,
        (None, None) => true,
        _ => false,
    }
}

/// Skip the payload of a tag of type `tag`.
pub fn skip_payload(tag: u8, left: usize, b: &[u8], at: usize) -> (end: Option<usize>)
    requires
        at <= b@.len(),
    ensures
        agrees(end, payload_end(tag, left as nat, b@, at as int)),
        end matches Some(e) ==> at <= e <= b@.len(),
    decreases left, 0int, 0int,
{
    proof {
        lemma_payload_end(tag, left as nat, b@, at as int);
    }
    if tag == 1 {
        skip_run(b, at, 1)
    } else if tag == 2 {
        skip_run(b, at, 2)
    } else if tag == 3 || tag == 5 {
        skip_run(b, at, 4)
    } else if tag == 4 || tag == 6 {
        skip_run(b, at, 8)
    } else if tag == 7 || tag == 11 {
        if b.len() - at < 4 {
            return None;
        }
        let n: i32 = read_i32(b, at);
        if n < 0 {
            return None;
        }
        skip_run(b, at + 4, if tag == 7 {
            n as u64
        } else {
            n as u64 * 4
        })
    } else if tag == 8 {
        if b.len() - at < 2 {
            return None;
        }
        skip_run(b, at + 2, read_u16(b, at) as u64)
    } else if tag == TAG_LIST {
        if b.len() - at < 5 || left == 0 {
            return None;
        }
        let n: i32 = read_i32(b, at + 1);
        if n <= 0 {
            Some(at + 5)
        } else {
            skip_list(b[at], left - 1, n, b, at + 5)
        }
    } else if tag == TAG_COMPOUND {
        if left == 0 {
            return None;
        }
        skip_compound(left - 1, b, at)
    } else {
        None
    }
}

/// Skip `n` payloads of type `tag`.
pub fn skip_list(tag: u8, left: usize, n: i32, b: &[u8], at: usize) -> (end: Option<usize>)
    requires
        at <= b@.len(),
        n >= 0,
    ensures
        agrees(end, list_end(tag, left as nat, n as int, b@, at as int)),
        end matches Some(e) ==> at <= e <= b@.len(),
    decreases left, 1int, 0int,
{
    let mut here: usize = at;
    let mut k: i32 = n;
    while k > 0
        invariant
            0 <= k <= n,
            at <= here <= b@.len(),
            list_end(tag, left as nat, n as int, b@, at as int) == list_end(
                tag,
                left as nat,
                k as int,
                b@,
                here as int,
            ),
        decreases k,
    {
        match skip_payload(tag, left, b, here) {
            Some(next) => {
                here = next;
                k -= 1;
            },
            None => {
                return None;
            },
        }
    }
    Some(here)
}

/// Skip the named entry at `at`.
pub fn skip_entry(left: usize, b: &[u8], at: usize) -> (end: Option<usize>)
    requires
        at <= b@.len(),
    ensures
        agrees(end, entry_end(left as nat, b@, at as int)),
        end matches Some(e) ==> at < e <= b@.len(),
    decreases left, 0int, 1int,
{
    if b.len() - at < 3 {
        return None;
    }
    let name_len: usize = read_u16(b, at + 1) as usize;
    if b.len() - at - 3 < name_len {
        return None;
    }
    skip_payload(b[at], left, b, at + 3 + name_len)
}

/// Skip the entries of a compound and its end marker.
pub fn skip_compound(left: usize, b: &[u8], at: usize) -> (end: Option<usize>)
    requires
        at <= b@.len(),
    ensures
        agrees(end, compound_end(left as nat, b@, at as int)),
        end matches Some(e) ==> at < e <= b@.len(),
    decreases left, 1int, 0int,
{
    let mut here: usize = at;
    while here < b.len()
        invariant
            at <= here <= b@.len(),
            compound_end(left as nat, b@, at as int) == compound_end(
                left as nat,
                b@,
                here as int,
            ),
        decreases b@.len() - here,
    {
        if b[here] == TAG_END {
            return Some(here + 1);
        }
        match skip_entry(left, b, here) {
            Some(next) => {
                here = next;
            },
            None => {
                return None;
            },
        }
    }
    None
}

/// Whether the bytes `[from, to)` are `name`.
fn bytes_are(b: &[u8], from: usize, to: usize, name: &[u8]) -> (same: bool)
    requires
        from <= to <= b@.len(),
    ensures
        same == (b@.subrange(from as int, to as int) == name@),
{
    if to - from != name.len() {
        return false;
    }
    let mut i: usize = 0;
    while i < name.len()
        invariant
            i <= name@.len(),
            from + name@.len() == to <= b@.len(),
            forall|j: int| 0 <= j < i ==> b@[from + j] == name@[j],
        decreases name@.len() - i,
    {
        if b[from + i] != name[i] {
            assert(b@.subrange(from as int, to as int)[i as int] != name@[i as int]);
            return false;
        }
        i += 1;
    }
    assert(b@.subrange(from as int, to as int) =~= name@);
    true
}

/// Find the last entry called `name` in the compound whose entries start at `at`.
pub fn find_entry(left: usize, b: &[u8], at: usize, name: &[u8]) -> (found: Option<(u8, usize)>)
    requires
        at <= b@.len(),
    ensures
        match (found, entry_named(left as nat, b@, at as int, name@, None)) {
            (Some(f), Some(w)) => f.0 == w.0 && f.1 == w.1 && f.1 <= b@.len(),
            (None, None) => true,
            _ => false,
        },
{
    let mut here: usize = at;
    let mut found: Option<(u8, usize)> = None;
    while here < b.len()
        invariant
            at <= here <= b@.len(),
            found matches Some(f) ==> f.1 <= b@.len(),
            entry_named(left as nat, b@, at as int, name@, None) == entry_named(
                left as nat,
                b@,
                here as int,
                name@,
                match found {
                    Some(f) => Some((f.0, f.1 as int)),
                    None => None,
                },
            ),
        decreases b@.len() - here,
    {
        if b[here] == TAG_END {
            return found;
        }
        match skip_entry(left, b, here) {
            Some(next) => {
                let name_len: usize = read_u16(b, here + 1) as usize;
                if bytes_are(b, here + 3, here + 3 + name_len, name) {
                    found = Some((b[here], here + 3 + name_len));
                }
                here = next;
            },
            None => {
                return None;
            },
        }
    }
    None
}

// ── A whole item tag ──────────────────────────────────────────────────────

/// Where the item tag at `at` ends: a named compound.
pub open spec fn root_end(b: Seq<u8>, at: int) -> Option<int> {
    if in_bytes(b, at, 1) && b[at] == TAG_COMPOUND {
        entry_end(MAX_DEPTH as nat, b, at)
    } else {
        None
    }
}

/// Skip the item tag at `at`.
pub fn skip_root(b: &[u8], at: usize) -> (end: Option<usize>)
    requires
        at <= b@.len(),
    ensures
        agrees(end, root_end(b@, at as int)),
        end matches Some(e) ==> at < e <= b@.len(),
{
    if at < b.len() && b[at] == TAG_COMPOUND {
        skip_entry(MAX_DEPTH, b, at)
    } else {
        None
    }
}

} // verus!
