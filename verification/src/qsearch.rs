use vstd::prelude::*;

use crate::chess;
use crate::chess::Move;
use crate::eval::Eval;
use crate::move_picker::MovePicker;
use crate::tt::{Bound, PackedMove, TtSearchEntry};
use crate::{InfoSink, LocalData, Search, TimeSource, MAX_PLY};

verus! {

impl<'a, C: TimeSource, S: InfoSink> Search<'a, C, S> {
    /// Quiescence search: the stand-pat evaluation bounds the score from
    /// below, and only captures (plus a stored move) are searched past the
    /// horizon. Returns a score inside the legal band at `ply` — a mate
    /// distance can never be shorter than the distance from the root, so
    /// scores drawn from the shared table are clamped into the band — or
    /// `None` when the shared abort asks the search to unwind, which never
    /// happens on the first iteration.
    pub fn qsearch(
        &mut self,
        data: &mut LocalData,
        pos: &cozy_chess::Board,
        alpha: Eval,
        beta: Eval,
        ply: usize,
    ) -> (r: Option<Eval>)
        requires
            old(self).shared.wf(),
            old(data).wf(old(self).shared.net),
            old(self).limits.quantize_eval >= 1,
            alpha.in_range(),
            beta.in_range(),
            ply <= 256,
        ensures
            final(self).shared == old(self).shared,
            final(self).limits == old(self).limits,
            final(self).history == old(self).history,
            final(self).root == old(self).root,
            final(data).wf(old(self).shared.net),
            final(data).on_first_depth == old(data).on_first_depth,
            match r {
                Some(e) => e.in_range() && e.in_ply_band(ply as int),
                None => !old(data).on_first_depth,
            },
        decreases 256 - ply, 0int,
    {
        match self.count_node_and_check_abort(data, false) {
            Some(u) => u,
            None => {
                return None;
            },
        };

        let hash = chess::board_hash(pos);
        let (tt, tt_eval) = self.shared.tt.load(hash, ply);
        let tt_mv: Option<Move> = match tt {
            Some(e) => Some(e.mv.unpack()),
            None => None,
        };

        if let Some(e) = tt {
            if e.bound.exact() {
                return Some(e.score.clamp_ply(ply));
            }
            if e.bound.lower() && e.score.ge(beta) {
                return Some(e.score.clamp_ply(ply));
            }
            if e.bound.upper() && e.score.le(alpha) {
                return Some(e.score.clamp_ply(ply));
            }
        }

        let stand_pat: Eval = (match tt_eval {
            Some(ev) => ev,
            None => {
                let ev = self.eval(data, pos);
                self.shared.tt.store_eval(hash, ev);
                ev
            },
        }).clamp_ply(ply);

        let orig_alpha = alpha;
        let mut alpha = alpha;
        let mut best_mv: Option<Move> = None;
        let mut best_score: Eval = stand_pat;

        if stand_pat.gt(beta) || ply >= MAX_PLY {
            return Some(stand_pat);
        }

        if stand_pat.gt(alpha) {
            alpha = stand_pat;
        }

        let o = chess::snapshot(pos);
        let stm = chess::board_side_to_move(pos);
        let legal = chess::legal_moves(pos);
        let mut picker = MovePicker::new(
            &o,
            stm,
            &legal,
            tt_mv,
            None,
            true,
            &data.history,
            None,
            None,
        );

        if !picker.has_moves() {
            if chess::board_checkers(pos) == 0 {
                return Some(Eval::cp(0));
            } else {
                return Some(Eval::mated(ply));
            }
        }

        let mut aborted = false;
        loop
            invariant_except_break
                self.shared.wf(),
                self.shared == old(self).shared,
                self.limits == old(self).limits,
                self.history == old(self).history,
                self.root == old(self).root,
                data.wf(old(self).shared.net),
                data.on_first_depth == old(data).on_first_depth,
                self.limits.quantize_eval >= 1,
                picker.wf(),
                alpha.in_range(),
                beta.in_range(),
                best_score.in_range(),
                best_score.in_ply_band(ply as int),
                ply < 256,
                !aborted,
                match best_mv {
                    Some(m) => m.wf(),
                    None => true,
                },
            ensures
                self.shared == old(self).shared,
                self.limits == old(self).limits,
                self.history == old(self).history,
                self.root == old(self).root,
                data.wf(old(self).shared.net),
                data.on_first_depth == old(data).on_first_depth,
                best_score.in_range(),
                best_score.in_ply_band(ply as int),
                aborted ==> !old(data).on_first_depth,
                match best_mv {
                    Some(m) => m.wf(),
                    None => true,
                },
            decreases picker.spec_moves().len() - picker.spec_next_idx(),
        {
            let nx = picker.next();
            let (_, sm) = match nx {
                Some(p) => p,
                None => {
                    break ;
                },
            };

            if sm.see < 0 {
                continue ;
            }

            let mut new_pos = chess::board_clone(pos);
            if !chess::board_try_play(&mut new_pos, sm.mv) {
                continue ;
            }

            let child = self.qsearch(data, &new_pos, beta.neg(), alpha.neg(), ply + 1);
            let score: Eval = match child {
                Some(e) => e.neg(),
                None => {
                    aborted = true;
                    break ;
                },
            };

            if score.gt(best_score) {
                best_mv = Some(sm.mv);
                best_score = score;
            }

            if score.gt(alpha) {
                alpha = score;
            }

            if score.gt(beta) {
                break ;
            }
        }
        if aborted {
            return None;
        }

        if let Some(m) = best_mv {
            self.shared.tt.store_search(
                hash,
                ply,
                TtSearchEntry {
                    lower_hash_bits: 0,
                    mv: PackedMove::pack(m),
                    score: best_score,
                    depth: 0,
                    bound: Bound::compute(orig_alpha, beta, best_score),
                },
            );
        }

        Some(best_score)
    }
}

} // verus!
