use vstd::prelude::*;

use crate::chess::{Move, Occupancy};
use crate::history::PieceHistory;
use crate::see::{spec_see, see};

verus! {

/// A legal move with its ordering score, cached static-exchange value, and
/// cached quiet-history score.
#[derive(Copy, Clone, Debug)]
pub struct ScoredMove {
    pub mv: Move,
    pub score: i32,
    pub see: i32,
    pub history: i32,
}

/// Whether `mv` lands on a square the opponent occupies.
pub open spec fn is_capture_on(opp: u64, mv: Move) -> bool {
    (opp >> (mv.to as u64)) & 1u64 == 1u64
}

/// The legal moves a picker keeps, in input order: the excluded move goes,
/// and with `skip_quiets` every non-capture goes too.
pub open spec fn kept_moves(
    legal: Seq<Move>,
    excluded: Option<Move>,
    skip_quiets: bool,
    opp: u64,
) -> Seq<Move>
    decreases legal.len(),
{
    if legal.len() == 0 {
        Seq::empty()
    } else {
        let rest = kept_moves(legal.drop_last(), excluded, skip_quiets, opp);
        let mv = legal.last();
        if (match excluded {
            Some(e) => mv == e,
            None => false,
        }) {
            rest
        } else if skip_quiets && !is_capture_on(opp, mv) {
            rest
        } else {
            rest.push(mv)
        }
    }
}

proof fn lemma_take_step(legal: Seq<Move>, k: int)
    requires
        1 <= k <= legal.len(),
    ensures
        legal.take(k).drop_last() =~= legal.take(k - 1),
        legal.take(k).last() == legal[k - 1],
{
}

/// Scores all legal moves of a node once, then hands them out best-first by
/// repeated selection. Earlier-handed moves stay in the prefix, so the
/// history-penalty pass can revisit every tried-and-failed move.
pub struct MovePicker {
    has_moves: bool,
    moves: Vec<ScoredMove>,
    next_idx: usize,
}

impl MovePicker {
    pub closed spec fn spec_moves(&self) -> Seq<ScoredMove> {
        self.moves@
    }

    pub closed spec fn spec_next_idx(&self) -> int {
        self.next_idx as int
    }

    pub closed spec fn spec_has_moves(&self) -> bool {
        self.has_moves
    }

    pub open spec fn wf(&self) -> bool {
        &&& self.spec_next_idx() <= self.spec_moves().len()
        &&& forall|i: int|
            0 <= i < self.spec_moves().len() ==> (#[trigger] self.spec_moves()[i]).mv.wf()
    }

    /// Score every legal move. The transposition-table move ranks first;
    /// captures rank by static exchange and victim; quiets carry their
    /// summed history scores; under-promotions sink; the excluded move and,
    /// when `skip_quiets` is set, all non-captures are left out entirely.
    /// A kept table move scores at least 400,000,000 (a billion minus the
    /// largest under-promotion offset) and every other move scores below
    /// that, so the table move is always handed out first.
    pub fn new(
        o: &Occupancy,
        stm: u8,
        legal: &Vec<Move>,
        tt_mv: Option<Move>,
        excluded: Option<Move>,
        skip_quiets: bool,
        butterfly: &PieceHistory,
        counter_hist: Option<&PieceHistory>,
        followup_hist: Option<&PieceHistory>,
    ) -> (r: MovePicker)
        requires
            stm < 2,
            forall|i: int| 0 <= i < legal@.len() ==> (#[trigger] legal@[i]).wf(),
            butterfly.wf(),
            match counter_hist {
                Some(h) => h.wf(),
                None => true,
            },
            match followup_hist {
                Some(h) => h.wf(),
                None => true,
            },
        ensures
            r.wf(),
            r.spec_next_idx() == 0,
            r.spec_has_moves() == (legal@.len() > 0),
            forall|i: int|
                0 <= i < r.spec_moves().len() ==> (match excluded {
                    Some(e) => (#[trigger] r.spec_moves()[i]).mv != e,
                    None => true,
                }),
            forall|i: int|
                0 <= i < r.spec_moves().len() ==> (#[trigger] r.spec_moves()[i]).see
                    == spec_see(*o, r.spec_moves()[i].mv, stm as int),
            r.spec_moves().map_values(|sm: ScoredMove| sm.mv) =~= kept_moves(
                legal@,
                excluded,
                skip_quiets,
                o.spec_color(1 - stm as int),
            ),
            forall|i: int|
                0 <= i < r.spec_moves().len() ==> (match tt_mv {
                    Some(t) => if r.spec_moves()[i].mv == t {
                        (#[trigger] r.spec_moves()[i]).score >= 400_000_000
                    } else {
                        r.spec_moves()[i].score < 400_000_000
                    },
                    None => (#[trigger] r.spec_moves()[i]).score < 400_000_000,
                }),
    {
        let opp: u64 = o.color(1 - stm);
        proof {
            assert(legal@.take(0) =~= Seq::<Move>::empty());
        }
        let mut moves: Vec<ScoredMove> = Vec::new();
        let mut k: usize = 0;
        while k < legal.len()
            invariant
                stm < 2,
                k <= legal@.len(),
                opp == o.spec_color(1 - stm as int),
                moves@.map_values(|sm: ScoredMove| sm.mv) =~= kept_moves(
                    legal@.take(k as int),
                    excluded,
                    skip_quiets,
                    opp,
                ),
                forall|i: int| 0 <= i < legal@.len() ==> (#[trigger] legal@[i]).wf(),
                butterfly.wf(),
                match counter_hist {
                    Some(h) => h.wf(),
                    None => true,
                },
                match followup_hist {
                    Some(h) => h.wf(),
                    None => true,
                },
                forall|i: int| 0 <= i < moves@.len() ==> (#[trigger] moves@[i]).mv.wf(),
                forall|i: int|
                    0 <= i < moves@.len() ==> (match excluded {
                        Some(e) => (#[trigger] moves@[i]).mv != e,
                        None => true,
                    }),
                forall|i: int|
                    0 <= i < moves@.len() ==> (#[trigger] moves@[i]).see == spec_see(
                        *o,
                        moves@[i].mv,
                        stm as int,
                    ),
                forall|i: int|
                    0 <= i < moves@.len() ==> (match tt_mv {
                        Some(t) => if moves@[i].mv == t {
                            (#[trigger] moves@[i]).score >= 400_000_000
                        } else {
                            moves@[i].score < 400_000_000
                        },
                        None => (#[trigger] moves@[i]).score < 400_000_000,
                    }),
            decreases legal@.len() - k,
        {
            let mv: Move = legal[k];
            k = k + 1;
            proof {
                lemma_take_step(legal@, k as int);
            }
            if match excluded {
                Some(e) => mv.same(e),
                None => false,
            } {
                continue ;
            }
            let is_capture: bool = (opp >> (mv.to as u64)) & 1 == 1;
            if skip_quiets && !is_capture {
                continue ;
            }
            let see_score: i32 = see(o, mv, stm);
            let mut history: i32 = 0;
            let is_tt: bool = match tt_mv {
                Some(t) => mv.same(t),
                None => false,
            };
            let mut score: i32 = 0;
            if is_tt {
                score = 1_000_000_000;
            } else if is_capture {
                let victim: u8 = o.piece_on_or_pawn(mv.to);
                let base: i32 = see_score * 1_000_000 + victim as i32 * 50_000;
                score = if see_score < 0 {
                    -100_000_000 + base
                } else {
                    100_000_000 + base
                };
            } else {
                let piece: u8 = o.piece_on_or_pawn(mv.from);
                history = butterfly.get(stm, piece, mv.to) as i32 + (match counter_hist {
                    Some(h) => h.get(stm, piece, mv.to) as i32,
                    None => 0,
                }) + (match followup_hist {
                    Some(h) => h.get(stm, piece, mv.to) as i32,
                    None => 0,
                });
                score = history;
            }
            match mv.promotion {
                Some(p) => {
                    if p == 1 {
                        score = score - 400_000_000;
                    } else if p == 3 {
                        score = score - 500_000_000;
                    } else if p == 2 {
                        score = score - 600_000_000;
                    }
                },
                None => {},
            }
            let ghost pre_map = moves@.map_values(|sm2: ScoredMove| sm2.mv);
            moves.push(ScoredMove { mv, score, see: see_score, history });
            proof {
                assert(moves@.map_values(|sm2: ScoredMove| sm2.mv) =~= pre_map.push(mv));
            }
        }
        proof {
            assert(legal@.take(legal@.len() as int) =~= legal@);
        }
        MovePicker { has_moves: legal.len() > 0, moves, next_idx: 0 }
    }

    /// Hand out the next move: the highest-scored one not yet tried, swapped
    /// into the tried prefix at position `i`.
    pub fn next(&mut self) -> (r: Option<(usize, ScoredMove)>)
        requires
            old(self).wf(),
        ensures
            final(self).wf(),
            final(self).spec_has_moves() == old(self).spec_has_moves(),
            final(self).spec_moves().len() == old(self).spec_moves().len(),
            match r {
                None => *final(self) == *old(self) && old(self).spec_next_idx() == old(
                    self,
                ).spec_moves().len(),
                Some((i, sm)) => {
                    &&& i as int == old(self).spec_next_idx()
                    &&& (i as int) < old(self).spec_moves().len()
                    &&& final(self).spec_next_idx() == i + 1
                    &&& sm == final(self).spec_moves()[i as int]
                    &&& sm.mv.wf()
                    &&& forall|j: int|
                        old(self).spec_next_idx() <= j < old(self).spec_moves().len() ==> (
                        #[trigger] old(self).spec_moves()[j]).score <= sm.score
                    &&& exists|b: int|
                        old(self).spec_next_idx() <= b < old(self).spec_moves().len() && sm == old(
                            self,
                        ).spec_moves()[b] && final(self).spec_moves() =~= old(
                            self,
                        ).spec_moves().update(b, old(self).spec_moves()[i as int]).update(
                            i as int,
                            old(self).spec_moves()[b],
                        )
                },
            },
    {
        let len = self.moves.len();
        let start = self.next_idx;
        if start >= len {
            return None;
        }
        let mut best: usize = start;
        let mut j: usize = start + 1;
        while j < len
            invariant
                start <= best < j <= len,
                len == self.spec_moves().len(),
                forall|t: int|
                    start <= t < j ==> (#[trigger] self.spec_moves()[t]).score
                        <= self.spec_moves()[best as int].score,
            decreases len - j,
        {
            if self.moves[j].score > self.moves[best].score {
                best = j;
            }
            j = j + 1;
        }
        let picked: ScoredMove = self.moves[best];
        let there: ScoredMove = self.moves[start];
        let ghost pre = self.moves@;
        let cell_b = vstd::std_specs::vec::vec_index_mut(&mut self.moves, best);
        *cell_b = there;
        let cell_s = vstd::std_specs::vec::vec_index_mut(&mut self.moves, start);
        *cell_s = picked;
        self.next_idx = start + 1;
        proof {
            assert(self.moves@ =~= pre.update(best as int, pre[start as int]).update(
                start as int,
                pre[best as int],
            ));
        }
        Some((start, picked))
    }

    /// How many handed-out moves came before the most recent one.
    pub fn failed_count(&self) -> (r: usize)
        requires
            self.wf(),
            self.spec_next_idx() > 0,
        ensures
            r as int == self.spec_next_idx() - 1,
            r as int <= self.spec_moves().len(),
    {
        self.next_idx - 1
    }

    /// The `k`-th already-tried move, for the history-penalty pass.
    pub fn failed(&self, k: usize) -> (r: ScoredMove)
        requires
            self.wf(),
            k + 1 < self.spec_next_idx(),
        ensures
            r == self.spec_moves()[k as int],
            r.mv.wf(),
    {
        self.moves[k]
    }

    /// Whether the position had any legal move at all, before filtering.
    pub fn has_moves(&self) -> (r: bool)
        ensures
            r == self.spec_has_moves(),
    {
        self.has_moves
    }
}

} // verus!
