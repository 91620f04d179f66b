use vstd::prelude::*;
use vstd::std_specs::vec::vec_index_mut;

use crate::chess;
use crate::chess::Move;
use crate::eval::Eval;
use crate::rep_table::RepetitionTable;
use crate::{InfoSink, LocalData, Search, SearchInfo, TimeSource, MAX_DEPTH};

use core::sync::atomic::Ordering;

verus! {

/// Swapping two cells of a sequence keeps its contents, as a multiset.
proof fn lemma_swap_multiset(s: Seq<u64>, i: int, m: int)
    requires
        0 <= i <= m < s.len(),
    ensures
        s.update(i, s[m]).update(m, s[i]).to_multiset() =~= s.to_multiset(),
{
    broadcast use vstd::seq_lib::lemma_multiset_commutative;

    if i == m {
        assert(s.update(i, s[m]).update(m, s[i]) =~= s);
    } else {
        let s2 = s.update(i, s[m]).update(m, s[i]);
        let a = s.subrange(0, i);
        let b = s.subrange(i + 1, m);
        let c = s.subrange(m + 1, s.len() as int);
        assert(s =~= a + seq![s[i]] + b + seq![s[m]] + c);
        assert(s2 =~= a + seq![s[m]] + b + seq![s[i]] + c);
        assert((a + seq![s[i]] + b + seq![s[m]] + c).to_multiset() =~= (a + seq![s[m]] + b + seq![
            s[i],
        ] + c).to_multiset());
    }
}

/// Sort a hash window in place, ascending, preserving its contents.
fn sort_hashes(v: &mut Vec<u64>)
    ensures
        final(v)@.len() == old(v)@.len(),
        final(v)@.to_multiset() =~= old(v)@.to_multiset(),
        forall|a: int, b: int| 0 <= a < b < final(v)@.len() ==> final(v)@[a] <= final(v)@[b],
{
    let len = v.len();
    let mut i: usize = 0;
    while i < len
        invariant
            len == v@.len(),
            i <= len,
            v@.to_multiset() =~= old(v)@.to_multiset(),
            forall|a: int, b: int| 0 <= a < b < i ==> v@[a] <= v@[b],
            forall|a: int, b: int| 0 <= a < i && i <= b < len ==> v@[a] <= v@[b],
        decreases len - i,
    {
        let mut m: usize = i;
        let mut j: usize = i + 1;
        while j < len
            invariant
                len == v@.len(),
                i <= m < j <= len,
                forall|t: int| i <= t < j ==> v@[m as int] <= v@[t],
            decreases len - j,
        {
            if v[j] < v[m] {
                m = j;
            }
            j = j + 1;
        }
        let ghost pre = v@;
        let vi = v[i];
        let vm = v[m];
        let ci = vec_index_mut(v, i);
        *ci = vm;
        let cm = vec_index_mut(v, m);
        *cm = if m == i {
            vm
        } else {
            vi
        };
        proof {
            lemma_swap_multiset(pre, i as int, m as int);
            assert(v@ =~= pre.update(i as int, pre[m as int]).update(m as int, pre[i as int]));
        }
        i = i + 1;
    }
}

/// Copy a move list.
fn copy_moves(v: &Vec<Move>) -> (r: Vec<Move>)
    ensures
        r@ =~= v@,
{
    let mut r: Vec<Move> = Vec::new();
    let mut i: usize = 0;
    while i < v.len()
        invariant
            i <= v@.len(),
            r@.len() == i,
            forall|t: int| 0 <= t < i ==> r@[t] == v@[t],
        decreases v@.len() - i,
    {
        r.push(v[i]);
        i = i + 1;
    }
    r
}

impl<'a, C: TimeSource, S: InfoSink> Search<'a, C, S> {
    /// The iterative-deepening driver: search depth 1, 2, … inside an
    /// aspiration window around the previous score, report progress after
    /// every completed iteration, and stop on the configured limits or on
    /// abort. The first iteration always completes, so a report is always
    /// produced.
    pub fn search(&mut self, data: &mut LocalData)
        requires
            old(self).shared.wf(),
            old(data).wf(old(self).shared.net),
            old(self).limits.quantize_eval >= 1,
        ensures
            final(self).shared == old(self).shared,
            final(self).root == old(self).root,
            final(data).wf(old(self).shared.net),
            !final(data).on_first_depth,
    {
        let mut score: Eval = Eval::cp(0);
        let mut pv: Vec<Move> = Vec::new();
        let mut depth: i16 = 0;
        data.on_first_depth = true;

        // Reduce the game history to the hashes that already occurred twice
        // inside the reversible-move window: a third occurrence during the
        // search is then a draw by repetition.
        let hm: usize = chess::board_halfmove_clock(self.root) as usize;
        let hlen: usize = self.history.len();
        let take: usize = if hm < hlen {
            hm
        } else {
            hlen
        };
        let mut window: Vec<u64> = Vec::new();
        let mut k: usize = hlen - take;
        while k < hlen
            invariant
                hlen == self.history@.len(),
                hlen - take <= k <= hlen,
                take <= 100,
                window@.len() == k - (hlen - take),
            decreases hlen - k,
        {
            window.push(self.history[k]);
            k = k + 1;
        }
        sort_hashes(&mut window);
        let mut rep = RepetitionTable::new();
        let wlen = window.len();
        let mut k2: usize = 0;
        while k2 + 1 < wlen
            invariant
                wlen == window@.len(),
                wlen <= 100,
                k2 <= wlen,
                rep.wf(),
                rep.hashes().len() <= k2,
            decreases wlen - k2,
        {
            if window[k2] == window[k2 + 1] {
                rep.push(window[k2]);
            }
            k2 = k2 + 1;
        }

        data.history.decay();
        data.counter_hist.decay();
        data.followup_hist.decay();

        // The hard limit on a clocked game is half the remaining clock; the
        // soft limit (checked between iterations) is a small fraction of it
        // plus half the increment.
        if let Some(clock) = self.limits.clock {
            self.limits.move_time = Some(clock / 2);
        }
        let soft_time_limit: Option<u64> = match self.limits.clock {
            Some(c) => {
                // TM_SOFT_LIMIT is 26.
                let base: u64 = c / 26;
                let inc: u64 = self.limits.increment / 2;
                Some(
                    if base > u64::MAX - inc {
                        u64::MAX
                    } else {
                        base + inc
                    },
                )
            },
            None => None,
        };

        let mut new_depth: i16 = 1;
        let mut finished = false;
        while !finished && new_depth <= MAX_DEPTH
            invariant
                self.shared.wf(),
                self.shared == old(self).shared,
                self.root == old(self).root,
                data.wf(old(self).shared.net),
                self.limits.quantize_eval >= 1,
                rep.wf(),
                finished || rep.hashes().len() <= 100,
                score.in_range(),
                1 <= new_depth <= 121,
                new_depth > 1 ==> !data.on_first_depth,
                finished ==> new_depth > 1,
            decreases 121 - new_depth,
        {
            // ASP_INITIAL is 18.
            let mut delta: i32 = 18;

            let mut lower: Eval;
            let mut upper: Eval;
            if new_depth == 1 {
                lower = Eval::mated(0);
                upper = Eval::mating(0);
            } else {
                lower = score.sub(delta);
                upper = score.add(delta);
            }

            let mut result: Option<Eval> = None;
            loop
                invariant_except_break
                    self.shared.wf(),
                    self.shared == old(self).shared,
                    self.root == old(self).root,
                    data.wf(old(self).shared.net),
                    self.limits.quantize_eval >= 1,
                    rep.wf(),
                    rep.hashes().len() <= 100,
                    lower.in_range(),
                    upper.in_range(),
                    1 <= delta <= 130_000,
                    1 <= new_depth <= 121,
                ensures
                    self.shared == old(self).shared,
                    self.root == old(self).root,
                    data.wf(old(self).shared.net),
                    self.limits.quantize_eval >= 1,
                    rep.wf(),
                    match result {
                        Some(e) => e.in_range() && rep.hashes().len() <= 100,
                        None => true,
                    },
                decreases (lower.sval() + 30_000) + (30_000 - upper.sval()),
            {
                let root = self.root;
                result = self.negamax(data, &mut rep, root, lower, upper, new_depth, 0, None, true);

                let res = match result {
                    Some(r) => r,
                    None => {
                        break ;
                    },
                };

                if res.le(lower) && lower.value() > -30_000 {
                    lower = res.sub(delta);
                } else if res.ge(upper) && upper.value() < 30_000 {
                    upper = res.add(delta);
                } else {
                    break ;
                }

                // ASP_WIDENING is 101, in hundredths.
                if delta <= 60_000 {
                    delta = delta + delta * 101 / 100;
                }
            }

            data.on_first_depth = false;
            if let Some(new_score) = result {
                score = new_score;
                pv = copy_moves(&data.pv_table[0]);
                depth = new_depth;
            }

            let mut finished_now: bool = result.is_none() || (match self.count_node_and_check_abort(
                data,
                true,
            ) {
                Some(_) => false,
                None => true,
            });
            let nodes = self.shared.nodes.load(Ordering::SeqCst);
            let time = self.clock.elapsed_ms();

            let depth_done = match self.limits.depth {
                Some(dl) => dl == depth,
                None => false,
            };
            let min_nodes_done = match self.limits.min_nodes {
                Some(n) => nodes >= n,
                None => false,
            };
            let soft_done = match soft_time_limit {
                Some(c) => time >= c,
                None => false,
            };
            if depth == MAX_DEPTH || depth_done || min_nodes_done || soft_done {
                self.shared.abort.store(true, Ordering::SeqCst);
                finished_now = true;
            }

            let seldepth = self.shared.selective_depth.load(Ordering::Relaxed);
            let info = SearchInfo {
                depth,
                selective_depth: seldepth,
                score,
                nodes,
                time_ms: time,
                pv: copy_moves(&pv),
                finished: finished_now,
            };
            self.info.report(&info);

            finished = finished_now;
            new_depth = new_depth + 1;
        }
    }
}

} // verus!
