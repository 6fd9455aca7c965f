//! Signs and chests: what stands at block positions besides the block.

use vstd::prelude::*;
use crate::chat::component::{flat_message, flatten_chat_json};
use crate::chat::lang::{texts_view, Language};

verus! {

/// A block position.
#[derive(Debug, Clone, Copy, PartialEq, Eq, Structural)]
pub struct BlockPos {
    pub x: i32,
    pub y: i32,
    pub z: i32,
}

/// The text of a sign.
#[derive(Debug)]
pub struct Sign {
    pub pos: BlockPos,
    pub lines: Vec<String>,
}

/// What a sign says; nothing where none is known.
pub open spec fn sign_text(signs: Seq<Sign>, pos: BlockPos) -> Option<Seq<Seq<char>>>
    decreases signs.len(),
{
    if signs.len() == 0 {
        None
    } else if signs.last().pos == pos {
        Some(texts_view(signs.last().lines@))
    } else {
        sign_text(signs.drop_last(), pos)
    }
}

/// Chat components, each flattened to text.
pub open spec fn flattened(lines: Seq<String>, lang: Language) -> Seq<Seq<char>> {
    Seq::new(lines.len(), |i: int| flat_message(lines[i]@, lang))
}

/// The signs and the open chests of the loaded world.
#[derive(Debug)]
pub struct Fixtures {
    pub signs: Vec<Sign>,
    /// Chests whose lid someone holds open.
    pub open_chests: Vec<BlockPos>,
}

impl Fixtures {
    pub fn new() -> (f: Fixtures)
        ensures
            f.signs@ == Seq::<Sign>::empty(),
            f.open_chests@ == Seq::<BlockPos>::empty(),
    {
        Fixtures { signs: Vec::new(), open_chests: Vec::new() }
    }

    /// The server sent the lines of a sign; they replace what it said.
    pub fn handle_update_sign(&mut self, pos: BlockPos, lines: &Vec<String>, lang: &Language)
        ensures
            *final(self) == (Fixtures { signs: final(self).signs, ..*old(self) }),
            forall|p: BlockPos|
                #[trigger] sign_text(final(self).signs@, p) == if p == pos {
                    Some(flattened(lines@, *lang))
                } else {
                    sign_text(old(self).signs@, p)
                },
    {
        let mut text: Vec<String> = Vec::new();
        let mut i: usize = 0;
        while i < lines.len()
            invariant
                i <= lines@.len(),
                text@.len() == i,
                forall|j: int|
                    0 <= j < i ==> (#[trigger] text@[j])@ == flat_message(lines@[j]@, *lang),
            decreases lines@.len() - i,
        {
            text.push(flatten_chat_json(lines[i].as_str(), lang));
            i += 1;
        }
        assert(texts_view(text@) =~= flattened(lines@, *lang));
        let ghost before = self.signs@;
        let mut kept: Vec<Sign> = Vec::new();
        let mut old_signs: Vec<Sign> = Vec::new();
        std::mem::swap(&mut old_signs, &mut self.signs);
        let ghost mut done: int = 0;
        assert(before.take(0) =~= Seq::empty());
        while old_signs.len() > 0
            invariant
                0 <= done <= before.len(),
                old_signs@ == before.skip(done),
                forall|p: BlockPos|
                    #[trigger] sign_text(kept@, p) == if p == pos {
                        None
                    } else {
                        sign_text(before.take(done), p)
                    },
            decreases old_signs@.len(),
        {
            let sign = old_signs.remove(0);
            let ghost then = kept@;
            proof {
                assert(before.take(done + 1).drop_last() =~= before.take(done));
                assert(before.take(done + 1).last() == before[done]);
                assert(old_signs@ =~= before.skip(done + 1));
                assert(sign == before[done]);
            }
            if sign.pos.x != pos.x || sign.pos.y != pos.y || sign.pos.z != pos.z {
                kept.push(sign);
                assert(kept@.drop_last() =~= then);
            }
            proof {
                done = done + 1;
                assert forall|p: BlockPos|
                    #[trigger] sign_text(kept@, p) == if p == pos {
                        None
                    } else {
                        sign_text(before.take(done), p)
                    } by {
                    assert(sign_text(then, p) == if p == pos {
                        None
                    } else {
                        sign_text(before.take(done - 1), p)
                    });
                }
            }
        }
        assert(before.take(done) =~= before);
        let ghost others = kept@;
        kept.push(Sign { pos, lines: text });
        assert(kept@.drop_last() =~= others);
        self.signs = kept;
        assert forall|p: BlockPos|
            #[trigger] sign_text(self.signs@, p) == if p == pos {
                Some(flattened(lines@, *lang))
            } else {
                sign_text(before, p)
            } by {
            assert(sign_text(others, p) == if p == pos {
                None
            } else {
                sign_text(before, p)
            });
        }
    }

    /// Where an open chest is listed.
    fn find_chest(&self, pos: BlockPos) -> (at: Option<usize>)
        ensures
            match at {
                Some(i) => i < self.open_chests@.len() && self.open_chests@[i as int] == pos,
                None => !self.open_chests@.contains(pos),
            },
    {
        let mut i: usize = 0;
        while i < self.open_chests.len()
            invariant
                i <= self.open_chests@.len(),
                forall|j: int| 0 <= j < i ==> self.open_chests@[j] != pos,
            decreases self.open_chests@.len() - i,
        {
            let c = self.open_chests[i];
            if c.x == pos.x && c.y == pos.y && c.z == pos.z {
                return Some(i);
            }
            i += 1;
        }
        None
    }

    /// Whether a lid is held open.
    pub fn is_open(&self, pos: BlockPos) -> (yes: bool)
        ensures
            yes == self.open_chests@.contains(pos),
    {
        self.find_chest(pos).is_some()
    }

    /// The server says whether anyone looks into a chest. Returns whether the lid
    /// starts to move, which is heard.
    pub fn set_chest_open(&mut self, pos: BlockPos, open: bool) -> (moves: bool)
        requires
            old(self).open_chests@.no_duplicates(),
        ensures
            final(self).signs == old(self).signs,
            final(self).open_chests@.no_duplicates(),
            moves == (old(self).open_chests@.contains(pos) != open),
            forall|p: BlockPos|
                #[trigger] final(self).open_chests@.contains(p) == if p == pos {
                    open
                } else {
                    old(self).open_chests@.contains(p)
                },
    {
        let ghost before = self.open_chests@;
        match self.find_chest(pos) {
            Some(i) => {
                if open {
                    return false;
                }
                self.open_chests.remove(i);
                let ghost after = self.open_chests@;
                assert(after =~= before.remove(i as int));
                assert forall|p: BlockPos|
                    #[trigger] after.contains(p) == if p == pos {
                        false
                    } else {
                        before.contains(p)
                    } by {
                    if after.contains(p) {
                        let k = choose|k: int| 0 <= k < after.len() && after[k] == p;
                        let b = if k < i {
                            k
                        } else {
                            k + 1
                        };
                        assert(before[b] == p);
                    }
                    if p != pos && before.contains(p) {
                        let b = choose|b: int| 0 <= b < before.len() && before[b] == p;
                        if b < i {
                            assert(after[b] == p);
                        } else {
                            assert(after[b - 1] == p);
                        }
                    }
                }
                true
            },
            None => {
                if !open {
                    return false;
                }
                self.open_chests.push(pos);
                let ghost after = self.open_chests@;
                assert forall|p: BlockPos|
                    #[trigger] after.contains(p) == if p == pos {
                        true
                    } else {
                        before.contains(p)
                    } by {
                    assert(after[before.len() as int] == pos);
                    if before.contains(p) {
                        let b = choose|b: int| 0 <= b < before.len() && before[b] == p;
                        assert(after[b] == p);
                    }
                    if after.contains(p) && p != pos {
                        let k = choose|k: int| 0 <= k < after.len() && after[k] == p;
                        assert(before[k] == p);
                    }
                }
                true
            },
        }
    }
}

} // verus!
