use vstd::prelude::*;
use vstd::std_specs::vec::vec_index_mut;

use crate::chess;
use crate::chess::Move;
use crate::eval::Eval;
use crate::move_picker::MovePicker;
use crate::params;
use crate::rep_table::RepetitionTable;
use crate::tt::{Bound, PackedMove, TtSearchEntry};
use crate::{InfoSink, LocalData, Search, TimeSource, MAX_PLY};

use core::sync::atomic::Ordering;

verus! {

/// The part of the decreases measure that depth contributes: non-positive
/// depths all redirect to quiescence.
pub open spec fn depth_measure(d: i16) -> int {
    if d <= 0 {
        0int
    } else {
        d as int
    }
}

/// Capacity left in the repetition stack for the plies still to come: each
/// ply can push at most twice (its node and one singular re-search).
pub open spec fn rep_capacity_ok(len: int, ply: int, excluded_none: bool) -> bool {
    len + 2 * (257 - ply) + (if excluded_none {
        1int
    } else {
        0int
    }) <= 1024
}

impl<'a, C: TimeSource, S: InfoSink> Search<'a, C, S> {
    /// Principal-variation negamax with transposition-table cutoffs, static
    /// pruning, null-move pruning, singular extensions, and late-move
    /// reductions. Returns a score inside the legal band at `ply` (a mate
    /// distance can never be shorter than the distance from the root, so
    /// scores drawn from the shared table are clamped into the band), or
    /// `None` when the shared abort asks the search to unwind, which never
    /// happens on the first iteration; when a score is returned the
    /// repetition stack is exactly as the caller left it.
    #[verifier::rlimit(100)]
    pub fn negamax(
        &mut self,
        data: &mut LocalData,
        rep: &mut RepetitionTable,
        pos: &cozy_chess::Board,
        alpha: Eval,
        beta: Eval,
        depth: i16,
        ply: usize,
        excluded: Option<Move>,
        is_pv: bool,
    ) -> (r: Option<Eval>)
        requires
            old(self).shared.wf(),
            old(data).wf(old(self).shared.net),
            old(self).limits.quantize_eval >= 1,
            old(rep).wf(),
            rep_capacity_ok(old(rep).hashes().len() as int, ply as int, excluded.is_none()),
            alpha.in_range(),
            beta.in_range(),
            depth <= 126,
            ply <= 256,
            match excluded {
                Some(e) => e.wf(),
                None => true,
            },
        ensures
            final(self).shared == old(self).shared,
            final(self).limits == old(self).limits,
            final(self).history == old(self).history,
            final(self).root == old(self).root,
            final(data).wf(old(self).shared.net),
            final(data).on_first_depth == old(data).on_first_depth,
            final(rep).wf(),
            match r {
                Some(e) => e.in_range() && e.in_ply_band(ply as int) && final(rep).hashes()
                    =~= old(rep).hashes(),
                None => !old(data).on_first_depth,
            },
        decreases depth_measure(depth) + 256 - ply, 1int,
    {
        if depth <= 0 || ply >= MAX_PLY {
            return self.qsearch(data, pos, alpha, beta, ply);
        }

        match self.count_node_and_check_abort(data, false) {
            Some(u) => u,
            None => {
                return None;
            },
        };

        if ply as i16 > data.local_seldepth {
            data.local_seldepth = ply as i16;
            self.shared.selective_depth.fetch_max(ply as i16 + 1, Ordering::Relaxed);
        }

        let hash = chess::board_hash(pos);
        let halfmove = chess::board_halfmove_clock(pos);
        let in_check = chess::board_checkers(pos) != 0;

        let (tt, tt_eval) = match excluded {
            Some(_) => (None, None),
            None => self.shared.tt.load(hash, ply),
        };
        let tt_mv: Option<Move> = match tt {
            Some(e) => Some(e.mv.unpack()),
            None => None,
        };

        if !is_pv && halfmove < 75 {
            if let Some(e) = tt {
                if depth <= e.depth as i16 {
                    if e.bound.exact() {
                        return Some(e.score.clamp_ply(ply));
                    }
                    if e.bound.lower() && e.score.ge(beta) {
                        return Some(e.score.clamp_ply(ply));
                    }
                    if e.bound.upper() && e.score.le(alpha) {
                        return Some(e.score.clamp_ply(ply));
                    }
                }
            }
        }

        // Internal iterative reduction: shallow the search when the table
        // offers no guidance.
        let d: i16 = if tt.is_none() && depth > 3 {
            depth - 1
        } else {
            depth
        };

        let static_eval: Eval = match excluded {
            None => {
                match tt_eval {
                    Some(ev) => ev,
                    None => {
                        let ev = self.eval(data, pos);
                        self.shared.tt.store_eval(hash, ev);
                        ev
                    },
                }
            },
            Some(_) => data.prev_evals[ply],
        };
        let pe = vec_index_mut(&mut data.prev_evals, ply);
        *pe = static_eval;
        let improving: bool = !in_check && ply > 1 && static_eval.gt(data.prev_evals[ply - 2]);

        let eval_v: Eval = match tt {
            Some(e) => e.score,
            None => static_eval,
        };

        if !is_pv && excluded.is_none() && !in_check {
            // Reverse futility: a static score far above beta stands.
            // RFP_MARGIN is 42.
            if d <= params::RFP_MAX_DEPTH && eval_v.ge(
                beta.add(
                    42 * (d as i32 - (if improving {
                        1
                    } else {
                        0
                    })),
                ),
            ) {
                return Some(eval_v.clamp_ply(ply));
            }

            // Razoring: verify a hopeless static score with quiescence.
            // RAZOR_MARGIN is 56 and RAZOR_BASE is 240.
            if d <= params::RAZOR_MAX_DEPTH && eval_v.le(alpha.sub(56 * d as i32 + 240)) {
                let v = match self.qsearch(data, pos, alpha, beta, ply) {
                    Some(v) => v,
                    None => {
                        return None;
                    },
                };
                if v.le(alpha) {
                    return Some(v);
                }
            }

            // Null-move pruning: if passing still beats beta, cut.
            if eval_v.ge(beta) && d >= params::NMP_MIN_DEPTH {
                if let Some(new_pos) = chess::board_null_move(pos) {
                    // NMP_DEPTH is 34, NMP_CONSTANT 540, NMP_DIVISOR 137.
                    let rd: i32 = (eval_v.diff(beta) + d as i32 * 34 + 540) / 137;
                    proof {
                        assert(4 <= (eval_v.sval() - beta.sval() + d * 34 + 540) / 137
                            <= 1000) by (nonlinear_arith)
                            requires
                                0 <= eval_v.sval() - beta.sval() <= 60000 && 4 <= d <= 126,
                        ;
                    }
                    let r: i16 = rd as i16;
                    let pm = vec_index_mut(&mut data.prev_moves, ply);
                    *pm = None;
                    let child = self.search_opp(
                        data,
                        rep,
                        &new_pos,
                        beta.sub(1),
                        beta,
                        d - r,
                        ply + 1,
                        false,
                    );
                    let score: Eval = match child {
                        Some(e) => e,
                        None => {
                            return None;
                        },
                    };
                    if score.ge(beta) {
                        if score.is_mate() {
                            return Some(beta.clamp_ply(ply));
                        }
                        return Some(score);
                    }
                }
            }
        }

        let counter_prior: Option<(Move, u8)> = if ply > 0 {
            data.prev_moves[ply - 1]
        } else {
            None
        };
        let followup_prior: Option<(Move, u8)> = if ply > 1 {
            data.prev_moves[ply - 2]
        } else {
            None
        };

        let o = chess::snapshot(pos);
        let stm = chess::board_side_to_move(pos);
        let opp: u64 = o.color(1 - stm);
        let legal = chess::legal_moves(pos);

        let orig_alpha = alpha;
        let mut alpha = alpha;
        let mut best_mv: Option<Move> = None;
        let mut best_score: Eval = Eval::mated(0);
        let mut picker = {
            let counter_ref = match counter_prior {
                Some(pm2) => Some(data.counter_hist.get(pm2.1, pm2.0.to)),
                None => None,
            };
            let followup_ref = match followup_prior {
                Some(pm2) => Some(data.followup_hist.get(pm2.1, pm2.0.to)),
                None => None,
            };
            MovePicker::new(
                &o,
                stm,
                &legal,
                tt_mv,
                excluded,
                false,
                &data.history,
                counter_ref,
                followup_ref,
            )
        };

        // Fifty-move rule: with a legal move available the game is drawn.
        if halfmove >= 100 && picker.has_moves() {
            return Some(Eval::cp(0));
        }

        rep.push(hash);
        let ghost rep_pushed = rep.hashes();

        proof {
            assert(1 <= (d as int) * (d as int) <= 15876) by (nonlinear_arith)
                requires
                    1 <= d as int <= 126,
            ;
        }
        let depth_sq: i32 = d as i32 * d as i32;
        let see_limit: i32 = -10 * depth_sq;
        // LMP_A is 5, LMP_B 0, LMP_C 52.
        let lmp_base: i32 = depth_sq * 5 + d as i32 * 0 + 52;
        let mut lmp_quiets_to_try: i32 = if improving {
            lmp_base / 8
        } else {
            lmp_base / 16
        };

        let mut aborted = false;
        let mut singular_ret: Option<Eval> = None;

        loop
            invariant_except_break
                self.shared.wf(),
                self.shared == old(self).shared,
                self.limits == old(self).limits,
                self.history == old(self).history,
                self.root == old(self).root,
                data.wf(old(self).shared.net),
                data.on_first_depth == old(data).on_first_depth,
                self.limits.quantize_eval >= 1,
                picker.wf(),
                rep.wf(),
                rep.hashes() =~= rep_pushed,
                rep_pushed =~= old(rep).hashes().push(hash),
                rep_capacity_ok(old(rep).hashes().len() as int, ply as int, excluded.is_none()),
                alpha.in_range(),
                beta.in_range(),
                best_score.in_range(),
                orig_alpha.in_range(),
                1 <= d <= depth,
                depth <= 126,
                ply < 256,
                stm < 2,
                tt.is_some() ==> excluded.is_none(),
                !aborted,
                singular_ret.is_none(),
                match best_mv {
                    Some(m) => m.wf() && best_score.in_ply_band(ply as int),
                    None => true,
                },
                match excluded {
                    Some(e) => e.wf(),
                    None => true,
                },
                match tt_mv {
                    Some(m) => m.wf(),
                    None => true,
                },
                -2_000_000_000 <= lmp_quiets_to_try <= 2_000_000_000,
                1 <= depth_sq <= 15876,
                match counter_prior {
                    Some(pm2) => pm2.0.wf() && pm2.1 < 6,
                    None => true,
                },
                match followup_prior {
                    Some(pm2) => pm2.0.wf() && pm2.1 < 6,
                    None => true,
                },
            ensures
                self.shared == old(self).shared,
                self.limits == old(self).limits,
                self.history == old(self).history,
                self.root == old(self).root,
                data.wf(old(self).shared.net),
                data.on_first_depth == old(data).on_first_depth,
                rep.wf(),
                best_score.in_range(),
                orig_alpha.in_range(),
                beta.in_range(),
                1 <= d <= depth,
                depth <= 126,
                ply < 256,
                aborted ==> !old(data).on_first_depth,
                !aborted && singular_ret.is_none() ==> rep.hashes() =~= old(
                    rep,
                ).hashes().push(hash),
                match singular_ret {
                    Some(e) => e.in_range() && e.in_ply_band(ply as int) && rep.hashes() =~= old(
                        rep,
                    ).hashes(),
                    None => true,
                },
                match best_mv {
                    Some(m) => m.wf() && best_score.in_ply_band(ply as int),
                    None => true,
                },
                match tt_mv {
                    Some(m) => m.wf(),
                    None => true,
                },
            decreases picker.spec_moves().len() - picker.spec_next_idx(),
        {
            let nx = picker.next();
            let (i, sm) = match nx {
                Some(p) => p,
                None => {
                    break ;
                },
            };

            let piece: u8 = o.piece_on_or_pawn(sm.mv.from);
            let quiet: bool = (opp >> sm.mv.to) & 1 == 0;

            // Late-move pruning: skip late quiets at low d.
            if !is_pv && quiet && !best_score.losing() && lmp_quiets_to_try <= 0 {
                continue ;
            }

            // Static-exchange pruning: skip clearly losing captures.
            if !is_pv && !quiet && !best_score.losing() && d < 4 && sm.see < see_limit {
                continue ;
            }

            let mut new_pos = chess::board_clone(pos);
            if !chess::board_try_play(&mut new_pos, sm.mv) {
                continue ;
            }

            let pv_child = vec_index_mut(&mut data.pv_table, ply + 1);
            pv_child.clear();
            let pm = vec_index_mut(&mut data.prev_moves, ply);
            *pm = Some((sm.mv, piece));
            if quiet && lmp_quiets_to_try > -2_000_000_000 {
                lmp_quiets_to_try = lmp_quiets_to_try - 1;
            }

            let child_hash = chess::board_hash(&new_pos);

            let score: Eval;
            if ply != 0 && rep.is_rep(child_hash, 1024) {
                score = Eval::cp(0);
            } else if i == 0 {
                let mut extend = false;
                let mut singular_cut = false;
                if let Some(e) = tt {
                    let is_tt_mv = match tt_mv {
                        Some(t) => sm.mv.same(t),
                        None => false,
                    };
                    if d >= params::SINGULAR_MIN_DEPTH && ply > 0 && e.depth as i16 >= d
                        - params::SINGULAR_TT_DEPTH && e.bound.lower_or_exact()
                        && !e.score.is_mate() && is_tt_mv {
                        proof {
                            assert(0 <= (d as int) * 100 / 100 <= 126) by (nonlinear_arith)
                                requires
                                    1 <= (d as int) <= 126,
                            ;
                        }
                        // SINGULAR_MARGIN is 100.
                        let singular_beta: Eval = e.score.sub(d as i32 * 100 / 100);
                        let sres = self.negamax(
                            data,
                            rep,
                            pos,
                            singular_beta.sub(1),
                            singular_beta,
                            (d - 1) / 2,
                            ply,
                            Some(sm.mv),
                            false,
                        );
                        match sres {
                            None => {
                                aborted = true;
                                break ;
                            },
                            Some(singular_score) => {
                                if singular_score.lt(singular_beta) {
                                    extend = true;
                                } else if singular_beta.ge(beta) {
                                    rep.pop();
                                    singular_ret = Some(singular_score);
                                    singular_cut = true;
                                }
                            },
                        }
                    }
                }
                if singular_cut {
                    break ;
                }

                let ext_depth: i16 = if extend {
                    d + 1
                } else {
                    d
                };
                let child = self.search_opp(
                    data,
                    rep,
                    &new_pos,
                    alpha,
                    beta,
                    ext_depth - 1,
                    ply + 1,
                    is_pv,
                );
                score = match child {
                    Some(e) => e,
                    None => {
                        aborted = true;
                        break ;
                    },
                };
            } else {
                // Late-move reductions with principal-variation re-search.
                let l1: u16 = params::log_fp(i);
                let l2: u16 = params::log_fp(d as usize);
                let la: i32 = l1 as i32;
                let lb: i32 = l2 as i32;
                proof {
                    assert(0 <= la * lb < 1024 * 1024) by (nonlinear_arith)
                        requires
                            0 <= la < 1024 && 0 <= lb < 1024,
                    ;
                }
                let lp: i32 = la * lb;
                proof {
                    assert(0 <= lp < 1048576);
                    assert(lp * 107 < 200_000_000);
                }
                // LMR_FACTOR is 107 and LMR_BASE 25, in hundredths.
                let base_r: i32 = (lp * 107 / 100 + 25 * 65536 / 100) / 65536;
                let mut red: i16 = base_r as i16;

                let h: i64 = sm.history as i64;
                // LMR_HISTORY is 6695.
                let hist_div: i64 = if h >= 0 {
                    h / 6695
                } else {
                    -((-h) / 6695)
                };
                let hist_adj: i16 = if hist_div < -3 {
                    -3
                } else if hist_div > 3 {
                    3
                } else {
                    hist_div as i16
                };
                red = red - hist_adj;
                if is_pv {
                    red = red - 1;
                }
                if improving {
                    red = red - 1;
                }
                if chess::board_checkers(&new_pos) != 0 {
                    red = red - 1;
                }
                if red < 0 || !quiet {
                    red = 0;
                }

                let first = self.search_opp(
                    data,
                    rep,
                    &new_pos,
                    alpha,
                    alpha.add(1),
                    d - red - 1,
                    ply + 1,
                    false,
                );
                let mut s: Eval = match first {
                    Some(e) => e,
                    None => {
                        aborted = true;
                        break ;
                    },
                };

                if red > 0 && s.gt(alpha) {
                    let second = self.search_opp(
                        data,
                        rep,
                        &new_pos,
                        alpha,
                        alpha.add(1),
                        d - 1,
                        ply + 1,
                        false,
                    );
                    s = match second {
                        Some(e) => e,
                        None => {
                            aborted = true;
                            break ;
                        },
                    };
                }

                if is_pv && s.gt(alpha) {
                    let third = self.search_opp(
                        data,
                        rep,
                        &new_pos,
                        alpha,
                        beta,
                        d - 1,
                        ply + 1,
                        true,
                    );
                    s = match third {
                        Some(e) => e,
                        None => {
                            aborted = true;
                            break ;
                        },
                    };
                }
                score = s;
            }

            if score.gt(best_score) {
                best_mv = Some(sm.mv);
                best_score = score;

                if is_pv {
                    let mut newpv: Vec<Move> = Vec::new();
                    newpv.push(sm.mv);
                    let child_len = data.pv_table[ply + 1].len();
                    let mut ci: usize = 0;
                    while ci < child_len
                        invariant
                            data.wf(old(self).shared.net),
                            ply + 1 < 257,
                            child_len == data.pv_table@[ply + 1 as int]@.len(),
                            ci <= child_len,
                            newpv@.len() == ci + 1,
                            forall|t: int| 0 <= t < newpv@.len() ==> (#[trigger] newpv@[t]).wf(),
                        decreases child_len - ci,
                    {
                        newpv.push(data.pv_table[ply + 1][ci]);
                        ci = ci + 1;
                    }
                    let slot = vec_index_mut(&mut data.pv_table, ply);
                    *slot = newpv;
                }
            }

            if score.gt(alpha) {
                alpha = score;
            }

            if score.gt(beta) {
                // Beta cutoff: reward the quiet that cut, punish the tried
                // quiets that did not.
                if quiet {
                    let bonus: i16 = 64 * d;
                    data.history.update(stm, piece, sm.mv.to, bonus);
                    if let Some(pm2) = counter_prior {
                        data.counter_hist.update(pm2.1, pm2.0.to, stm, piece, sm.mv.to, bonus);
                    }
                    if let Some(pm2) = followup_prior {
                        data.followup_hist.update(pm2.1, pm2.0.to, stm, piece, sm.mv.to, bonus);
                    }

                    let fc = picker.failed_count();
                    let mut k: usize = 0;
                    while k < fc
                        invariant
                            self.shared == old(self).shared,
                            self.limits == old(self).limits,
                            self.history == old(self).history,
                            self.root == old(self).root,
                            data.wf(old(self).shared.net),
                            data.on_first_depth == old(data).on_first_depth,
                            picker.wf(),
                            stm < 2,
                            fc + 1 <= picker.spec_next_idx(),
                            1 <= d <= 126,
                            bonus == 64 * d,
                            k <= fc,
                            match counter_prior {
                                Some(pm2) => pm2.0.wf() && pm2.1 < 6,
                                None => true,
                            },
                            match followup_prior {
                                Some(pm2) => pm2.0.wf() && pm2.1 < 6,
                                None => true,
                            },
                        decreases fc - k,
                    {
                        let f = picker.failed(k);
                        if (opp >> f.mv.to) & 1 == 0 {
                            let fpiece: u8 = o.piece_on_or_pawn(f.mv.from);
                            data.history.update(stm, fpiece, f.mv.to, -bonus);
                            if let Some(pm2) = counter_prior {
                                data.counter_hist.update(
                                    pm2.1,
                                    pm2.0.to,
                                    stm,
                                    fpiece,
                                    f.mv.to,
                                    -bonus,
                                );
                            }
                            if let Some(pm2) = followup_prior {
                                data.followup_hist.update(
                                    pm2.1,
                                    pm2.0.to,
                                    stm,
                                    fpiece,
                                    f.mv.to,
                                    -bonus,
                                );
                            }
                        }
                        k = k + 1;
                    }
                }
                break ;
            }
        }

        if aborted {
            return None;
        }
        if let Some(srv) = singular_ret {
            return Some(srv);
        }

        rep.pop();

        let best = match best_mv {
            Some(m) => m,
            None => {
                // No legal move searched: checkmate, stalemate, or an
                // excluded-move search with nothing else to try.
                if !in_check && excluded.is_none() {
                    return Some(Eval::cp(0));
                } else {
                    return Some(Eval::mated(ply));
                }
            },
        };

        let bound = Bound::compute(orig_alpha, beta, best_score);
        if excluded.is_none() {
            let stored_mv: Move = if bound.upper() {
                match tt_mv {
                    Some(t) => t,
                    None => Move::none(),
                }
            } else {
                best
            };
            self.shared.tt.store_search(
                hash,
                ply,
                TtSearchEntry {
                    lower_hash_bits: 0,
                    mv: PackedMove::pack(stored_mv),
                    score: best_score,
                    depth: d as u8,
                    bound,
                },
            );
        }

        Some(best_score)
    }

    /// Search the child position from the opponent's point of view: the
    /// negated score of a search with the negated, swapped window, inside
    /// the same legal band.
    fn search_opp(
        &mut self,
        data: &mut LocalData,
        rep: &mut RepetitionTable,
        pos: &cozy_chess::Board,
        alpha: Eval,
        beta: Eval,
        depth: i16,
        ply: usize,
        is_pv: bool,
    ) -> (r: Option<Eval>)
        requires
            old(self).shared.wf(),
            old(data).wf(old(self).shared.net),
            old(self).limits.quantize_eval >= 1,
            old(rep).wf(),
            rep_capacity_ok(old(rep).hashes().len() as int, ply as int, true),
            alpha.in_range(),
            beta.in_range(),
            depth <= 126,
            ply <= 256,
        ensures
            final(self).shared == old(self).shared,
            final(self).limits == old(self).limits,
            final(self).history == old(self).history,
            final(self).root == old(self).root,
            final(data).wf(old(self).shared.net),
            final(data).on_first_depth == old(data).on_first_depth,
            final(rep).wf(),
            match r {
                Some(e) => e.in_range() && e.in_ply_band(ply as int) && final(rep).hashes()
                    =~= old(rep).hashes(),
                None => !old(data).on_first_depth,
            },
        decreases depth_measure(depth) + 256 - ply, 2int,
    {
        let child = self.negamax(data, rep, pos, beta.neg(), alpha.neg(), depth, ply, None, is_pv);
        match child {
            Some(e) => Some(e.neg()),
            None => None,
        }
    }
}

} // verus!
