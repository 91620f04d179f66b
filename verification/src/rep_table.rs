use vstd::prelude::*;
use vstd::std_specs::vec::vec_index_mut;

verus! {

/// How many of the hashes in `s` fall in residue class `res` modulo 4096.
pub open spec fn count_res(s: Seq<u64>, res: int) -> int
    decreases s.len(),
{
    if s.len() == 0 {
        0
    } else {
        count_res(s.drop_last(), res) + if (s.last() as int) % 4096 == res {
            1int
        } else {
            0int
        }
    }
}

proof fn lemma_count_nonneg(s: Seq<u64>, res: int)
    ensures
        count_res(s, res) >= 0,
    decreases s.len(),
{
    if s.len() > 0 {
        lemma_count_nonneg(s.drop_last(), res);
    }
}

proof fn lemma_count_push(s: Seq<u64>, h: u64, res: int)
    ensures
        count_res(s.push(h), res) == count_res(s, res) + if (h as int) % 4096 == res {
            1int
        } else {
            0int
        },
{
    assert(s.push(h).drop_last() =~= s);
    assert(s.push(h).last() == h);
}

proof fn lemma_count_zero(s: Seq<u64>, res: int)
    requires
        count_res(s, res) == 0,
    ensures
        forall|i: int| 0 <= i < s.len() ==> (s[i] as int) % 4096 != res,
    decreases s.len(),
{
    if s.len() > 0 {
        lemma_count_nonneg(s.drop_last(), res);
        lemma_count_zero(s.drop_last(), res);
        assert forall|i: int| 0 <= i < s.len() implies (s[i] as int) % 4096 != res by {
            if i < s.len() - 1 {
                assert(s.drop_last()[i] == s[i]);
            } else {
                assert(s[i] == s.last());
            }
        }
    }
}

/// Position hashes on the path from the game start, with a 4096-slot
/// occurrence filter that lets `is_rep` skip the scan almost always.
pub struct RepetitionTable {
    list: Vec<u64>,
    table: Vec<u16>,
}

impl RepetitionTable {
    /// The recorded hash sequence, oldest first.
    pub closed spec fn hashes(&self) -> Seq<u64> {
        self.list@
    }

    /// The filter counts occurrences per residue class and the list stays
    /// short enough that no count can overflow its counter.
    pub closed spec fn wf(&self) -> bool {
        &&& self.table@.len() == 4096
        &&& self.list@.len() <= 1024
        &&& forall|res: int|
            0 <= res < 4096 ==> (self.table@[res] as int) == count_res(self.list@, res)
    }

    /// An empty table.
    pub fn new() -> (r: RepetitionTable)
        ensures
            r.wf(),
            r.hashes() =~= Seq::<u64>::empty(),
    {
        let r = RepetitionTable { list: Vec::new(), table: vec![0u16; 4096] };
        proof {
            assert forall|res: int| 0 <= res < 4096 implies (r.table@[res] as int) == count_res(
                r.list@,
                res,
            ) by {
                assert(count_res(r.list@, res) == 0);
            }
        }
        r
    }

    /// Record one more position hash.
    pub fn push(&mut self, hash: u64)
        requires
            old(self).wf(),
            old(self).hashes().len() < 1024,
        ensures
            final(self).wf(),
            final(self).hashes() =~= old(self).hashes().push(hash),
    {
        let res: usize = (hash % 4096) as usize;
        proof {
            lemma_count_nonneg(self.list@, res as int);
            assert(count_res(self.list@, res as int) <= self.list@.len()) by {
                lemma_count_le_len(self.list@, res as int);
            }
        }
        self.list.push(hash);
        let slot = vec_index_mut(&mut self.table, res);
        *slot = *slot + 1;
        proof {
            assert forall|r: int| 0 <= r < 4096 implies (self.table@[r] as int) == count_res(
                self.list@,
                r,
            ) by {
                lemma_count_push(old(self).list@, hash, r);
            }
        }
    }

    /// Forget the most recent hash.
    pub fn pop(&mut self)
        requires
            old(self).wf(),
            old(self).hashes().len() > 0,
        ensures
            final(self).wf(),
            final(self).hashes() =~= old(self).hashes().drop_last(),
    {
        let hash = match self.list.pop() {
            Some(h) => h,
            None => 0,  // unreachable: the list is nonempty
        };
        let res: usize = (hash % 4096) as usize;
        proof {
            lemma_count_push(self.list@, hash, res as int);
            assert(self.list@.push(hash) =~= old(self).list@);
            lemma_count_nonneg(self.list@, res as int);
            assert forall|r: int| 0 <= r < 4096 && r != res as int implies (self.table@[r] as int)
                == count_res(self.list@, r) + 0 by {
                lemma_count_push(self.list@, hash, r);
            }
        }
        let slot = vec_index_mut(&mut self.table, res);
        *slot = *slot - 1;
    }

    /// Whether `hash` already occurred within the last `window` recorded
    /// positions (the reversible-move window of the fifty-move counter).
    pub fn is_rep(&self, hash: u64, window: usize) -> (r: bool)
        requires
            self.wf(),
        ensures
            r == exists|i: int|
                self.hashes().len() - (if window < self.hashes().len() {
                    window as int
                } else {
                    self.hashes().len() as int
                }) <= i < self.hashes().len() && self.hashes()[i] == hash,
    {
        let res: usize = (hash % 4096) as usize;
        let len = self.list.len();
        let to_check: usize = if window < len {
            window
        } else {
            len
        };
        if self.table[res] == 0 {
            proof {
                lemma_count_zero(self.list@, res as int);
            }
            return false;
        }
        let mut j: usize = 0;
        while j < to_check
            invariant
                to_check <= len,
                to_check == if window < len {
                    window as int
                } else {
                    len as int
                },
                len == self.list@.len(),
                j <= to_check,
                self.wf(),
                forall|i: int| len - j <= i < len ==> self.list@[i] != hash,
            decreases to_check - j,
        {
            if self.list[len - 1 - j] == hash {
                proof {
                    let wit: int = len - 1 - j;
                    assert(self.hashes()[wit] == hash);
                    assert(self.hashes().len() - (if window < self.hashes().len() {
                        window as int
                    } else {
                        self.hashes().len() as int
                    }) <= wit < self.hashes().len());
                }
                return true;
            }
            j = j + 1;
        }
        false
    }

    /// Forget everything.
    pub fn clear(&mut self)
        requires
            old(self).wf(),
        ensures
            final(self).wf(),
            final(self).hashes() =~= Seq::<u64>::empty(),
    {
        self.list.clear();
        let mut i: usize = 0;
        while i < 4096
            invariant
                self.table@.len() == 4096,
                self.list@.len() == 0,
                i <= 4096,
                forall|r: int| 0 <= r < i ==> self.table@[r] == 0,
            decreases 4096 - i,
        {
            let slot = vec_index_mut(&mut self.table, i);
            *slot = 0;
            i = i + 1;
        }
    }
}

proof fn lemma_count_le_len(s: Seq<u64>, res: int)
    ensures
        count_res(s, res) <= s.len(),
    decreases s.len(),
{
    if s.len() > 0 {
        lemma_count_le_len(s.drop_last(), res);
    }
}

} // verus!
