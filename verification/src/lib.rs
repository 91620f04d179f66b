pub mod chess;
pub mod draw_oracle;
pub mod eval;
pub mod history;
pub mod move_picker;
pub mod nnue;
pub mod negamax;
pub mod params;
pub mod qsearch;
pub mod rep_table;
pub mod search;
pub mod see;
pub mod tt;

pub use chess::Move;
pub use eval::Eval;

use vstd::prelude::*;

use core::sync::atomic::{AtomicBool, AtomicI16, AtomicU64, Ordering};

use crate::history::{ContinuationHistory, PieceHistory};
use crate::nnue::{Network, Nnue, NnueBackend};
use crate::tt::TranspositionTable;

verus! {

/// Deepest ply the search will visit.
pub const MAX_PLY: usize = 256;

/// Deepest iteration the driver will start.
pub const MAX_DEPTH: i16 = 120;

/// A wall clock supplied by the caller; the search treats every reading as
/// arbitrary, so nothing proved here depends on time.
pub trait TimeSource {
    fn elapsed_ms(&mut self) -> u64;
}

/// Where progress reports go; worker 0 prints them, others discard them.
pub trait InfoSink {
    fn report(&mut self, info: &SearchInfo);
}

/// One progress report of the iterative-deepening driver.
pub struct SearchInfo {
    pub depth: i16,
    pub selective_depth: i16,
    pub score: Eval,
    pub nodes: u64,
    pub time_ms: u64,
    pub pv: Vec<Move>,
    pub finished: bool,
}

/// The search limits of one `go` command, times in milliseconds.
#[derive(Copy, Clone, Debug)]
pub struct Limits {
    pub move_time: Option<u64>,
    pub clock: Option<u64>,
    pub increment: u64,
    pub depth: Option<i16>,
    pub nodes: Option<u64>,
    pub min_nodes: Option<u64>,
    pub quantize_eval: i16,
}

impl Limits {
    /// Drop every limit, keeping only the eval quantization.
    pub fn unbounded(&mut self)
        ensures
            final(self).move_time.is_none(),
            final(self).clock.is_none(),
            final(self).depth.is_none(),
            final(self).nodes.is_none(),
            final(self).min_nodes.is_none(),
            final(self).increment == 0,
            final(self).quantize_eval == old(self).quantize_eval,
    {
        self.move_time = None;
        self.clock = None;
        self.depth = None;
        self.nodes = None;
        self.min_nodes = None;
        self.increment = 0;
    }
}

impl Default for Limits {
    /// No limits, no eval weakening.
    fn default() -> (r: Limits)
        ensures
            r.move_time.is_none(),
            r.clock.is_none(),
            r.depth.is_none(),
            r.nodes.is_none(),
            r.min_nodes.is_none(),
            r.increment == 0,
            r.quantize_eval == 1,
    {
        Limits {
            move_time: None,
            clock: None,
            increment: 0,
            depth: None,
            nodes: None,
            min_nodes: None,
            quantize_eval: 1,
        }
    }
}

/// State owned by one worker: principal-variation stacks, history tables,
/// the incremental evaluator, and the per-node bookkeeping stacks.
pub struct LocalData {
    pub pv_table: Vec<Vec<Move>>,
    pub on_first_depth: bool,
    pub local_nodes: u64,
    pub local_seldepth: i16,
    pub accumulator: Nnue,
    pub history: PieceHistory,
    pub counter_hist: ContinuationHistory,
    pub followup_hist: ContinuationHistory,
    pub prev_moves: Vec<Option<(Move, u8)>>,
    pub prev_evals: Vec<Eval>,
}

impl LocalData {
    pub open spec fn wf(&self, net: Network) -> bool {
        &&& self.pv_table@.len() == 257
        &&& forall|p: int, i: int|
            0 <= p < 257 && 0 <= i < self.pv_table@[p]@.len() ==> (
            #[trigger] self.pv_table@[p]@[i]).wf()
        &&& self.local_nodes < 1024
        &&& self.accumulator.synced(net)
        &&& self.history.wf()
        &&& self.counter_hist.wf()
        &&& self.followup_hist.wf()
        &&& self.prev_moves@.len() == 256
        &&& forall|p: int|
            0 <= p < 256 ==> (match #[trigger] self.prev_moves@[p] {
                Some(pm) => pm.0.wf() && pm.1 < 6,
                None => true,
            })
        &&& self.prev_evals@.len() == 256
    }

    /// Fresh worker state for the given weights.
    pub fn new(net: &Network) -> (r: LocalData)
        requires
            net.wf(),
        ensures
            r.wf(*net),
            !r.on_first_depth,
    {
        let mut pv_table: Vec<Vec<Move>> = Vec::new();
        let mut i: usize = 0;
        while i < 257
            invariant
                pv_table@.len() == i,
                i <= 257,
                forall|p: int| 0 <= p < i ==> (#[trigger] pv_table@[p])@.len() == 0,
            decreases 257 - i,
        {
            pv_table.push(Vec::new());
            i = i + 1;
        }
        LocalData {
            pv_table,
            on_first_depth: false,
            local_nodes: 0,
            local_seldepth: 0,
            accumulator: Nnue::new(net),
            history: PieceHistory::new(),
            counter_hist: ContinuationHistory::new(),
            followup_hist: ContinuationHistory::new(),
            prev_moves: vec![None; 256],
            prev_evals: vec![Eval::cp(0); 256],
        }
    }
}

/// State shared by all workers: the abort flag, global node and selective
/// depth counters, the transposition table, and the network weights.
pub struct SharedData {
    pub abort: AtomicBool,
    pub nodes: AtomicU64,
    pub selective_depth: AtomicI16,
    pub tt: TranspositionTable,
    pub net: Network,
    pub seed: u64,
}

/// One worker's share of the cooperative transposition-table clear: the
/// slots in `[start, end)`.
pub struct ClearTtBlock {
    pub start: usize,
    pub end: usize,
}

impl SharedData {
    pub open spec fn wf(&self) -> bool {
        self.tt.wf() && self.net.wf()
    }

    /// Allocate the shared state with a `mb`-mebibyte transposition table.
    pub fn new(tt_mb: usize, net: Network) -> (r: SharedData)
        requires
            net.wf(),
            1 <= tt_mb,
            tt_mb * 131072 < usize::MAX,
        ensures
            r.wf(),
    {
        SharedData {
            abort: AtomicBool::new(false),
            nodes: AtomicU64::new(0),
            selective_depth: AtomicI16::new(0),
            tt: TranspositionTable::new(tt_mb),
            net,
            seed: 0x6CA648710DB5F3AE,
        }
    }

    /// Reset the abort flag and the global counters before a search.
    pub fn prepare_for_search(&self)
        requires
            self.wf(),
    {
        self.abort.store(false, Ordering::SeqCst);
        self.nodes.store(0, Ordering::Relaxed);
        self.selective_depth.store(0, Ordering::Relaxed);
    }

    /// Raise the abort flag; every worker unwinds at its next node check.
    pub fn abort(&self)
        requires
            self.wf(),
    {
        self.abort.store(true, Ordering::SeqCst);
    }

    /// Split the transposition table's slots into `count` contiguous blocks
    /// that partition the whole array: block 0 starts at slot 0, each block
    /// starts where the previous one ends, and the last ends at the array's
    /// length, so the blocks are pairwise disjoint and jointly cover every
    /// slot.
    pub fn get_clear_tt_blocks(&self, count: usize) -> (r: Vec<ClearTtBlock>)
        requires
            self.wf(),
            1 <= count,
        ensures
            r@.len() == count,
            r@[0].start == 0,
            r@[count - 1].end == self.tt.spec_entries() * 2,
            forall|i: int| 0 <= i < count ==> (#[trigger] r@[i]).start <= r@[i].end,
            forall|i: int| 0 <= i < count ==> (#[trigger] r@[i]).end <= self.tt.spec_entries() * 2,
            forall|i: int| 1 <= i < count ==> (#[trigger] r@[i]).start == r@[i - 1].end,
            forall|i: int|
                0 <= i < count ==> ((#[trigger] r@[i]).end - r@[i].start == (self.tt.spec_entries()
                    * 2) as int / count as int || r@[i].end - r@[i].start == (
                self.tt.spec_entries() * 2) as int / count as int + 1),
    {
        let size: usize = self.tt.raw().len();
        let block_size: usize = size / count;
        proof {
            vstd::arithmetic::div_mod::lemma_fundamental_div_mod(size as int, count as int);
            assert(0 <= size - block_size * count < count) by (nonlinear_arith)
                requires
                    count >= 1 && size >= 0 && block_size == size as int / count as int && size
                        as int == (size as int / count as int) * (count as int) + size as int % (
                    count as int),
            ;
        }
        let big_init: usize = size - block_size * count;
        let mut big: usize = big_init;
        let ghost big0: int = big as int;
        let mut i: usize = 0;
        let mut blocks: Vec<ClearTtBlock> = Vec::new();
        let mut b: usize = 0;
        while b < count
            invariant
                blocks@.len() == b,
                b <= count,
                size == self.tt.spec_entries() * 2,
                size as int == block_size * count + big0,
                0 <= big0 < count,
                big as int == if big0 > b {
                    big0 - b
                } else {
                    0
                },
                i as int == block_size * b + (if b < big0 {
                    b as int
                } else {
                    big0
                }),
                b > 0 ==> blocks@[b - 1].end == i,
                blocks@.len() > 0 ==> blocks@[0].start == 0,
                forall|k: int| 0 <= k < b ==> (#[trigger] blocks@[k]).start <= blocks@[k].end,
                forall|k: int| 0 <= k < b ==> (#[trigger] blocks@[k]).end <= size,
                forall|k: int| 1 <= k < b ==> (#[trigger] blocks@[k]).start == blocks@[k - 1].end,
                forall|k: int|
                    0 <= k < b ==> ((#[trigger] blocks@[k]).end - blocks@[k].start == block_size
                        as int || blocks@[k].end - blocks@[k].start == block_size as int + 1),
                block_size == size as int / count as int,
            decreases count - b,
        {
            proof {
                assert(block_size * (b + 1) + big0 <= block_size * count + big0) by (
                nonlinear_arith)
                    requires
                        b + 1 <= count && block_size >= 0,
                ;
                assert(block_size * (b + 1) == block_size * b + block_size) by (nonlinear_arith);
            }
            let mut upper: usize = i + block_size;
            if big > 0 {
                big = big - 1;
                upper = upper + 1;
            }
            blocks.push(ClearTtBlock { start: i, end: upper });
            i = upper;
            b = b + 1;
        }
        blocks
    }

    /// Store zero into every slot of one block.
    pub fn clear_tt_block(&self, block: &ClearTtBlock)
        requires
            self.wf(),
            block.end <= self.tt.spec_entries() * 2,
    {
        let slots = self.tt.raw();
        let mut i: usize = block.start;
        if i > block.end {
            return ;
        }
        while i < block.end
            invariant
                self.wf(),
                i <= block.end,
                block.end <= slots@.len(),
                slots@.len() == self.tt.spec_entries() * 2,
            decreases block.end - i,
        {
            slots[i].store(0, Ordering::Relaxed);
            i = i + 1;
        }
    }
}

/// One invocation of the search: the root position, the game's hash
/// history, the caller's clock and report sink, the shared state, and the
/// limits in force.
pub struct Search<'a, C: TimeSource, S: InfoSink> {
    pub root: &'a cozy_chess::Board,
    pub history: Vec<u64>,
    pub clock: C,
    pub info: S,
    pub shared: &'a SharedData,
    pub limits: Limits,
}

impl<'a, C: TimeSource, S: InfoSink> Search<'a, C, S> {
    /// Count one node, periodically flushing the local counter into the
    /// shared one and checking the node, time, and abort limits. Returns
    /// `None` exactly when the search must unwind, which never happens
    /// while the first iteration is running.
    pub fn count_node_and_check_abort(&mut self, data: &mut LocalData, force_node_accumulate: bool)
        -> (r: Option<()>)
        requires
            old(self).shared.wf(),
            old(data).local_nodes < 1024,
        ensures
            final(self).shared == old(self).shared,
            final(self).limits == old(self).limits,
            final(self).history == old(self).history,
            final(self).root == old(self).root,
            final(data).local_nodes < 1024,
            final(data).on_first_depth == old(data).on_first_depth,
            final(data).pv_table == old(data).pv_table,
            final(data).local_seldepth == old(data).local_seldepth,
            final(data).accumulator == old(data).accumulator,
            final(data).history == old(data).history,
            final(data).counter_hist == old(data).counter_hist,
            final(data).followup_hist == old(data).followup_hist,
            final(data).prev_moves == old(data).prev_moves,
            final(data).prev_evals == old(data).prev_evals,
            final(data).local_nodes == old(data).local_nodes + 1 || final(data).local_nodes == 0,
            r.is_none() ==> !old(data).on_first_depth,
    {
        data.local_nodes = data.local_nodes + 1;

        if force_node_accumulate || self.limits.nodes.is_some() || self.shared.abort.load(
            Ordering::Relaxed,
        ) || data.local_nodes == 1024 {
            let prior = self.shared.nodes.fetch_add(data.local_nodes, Ordering::Relaxed);
            let nodes = prior.wrapping_add(data.local_nodes);
            data.local_nodes = 0;

            let over_nodes = match self.limits.nodes {
                Some(n) => nodes >= n,
                None => false,
            };
            if over_nodes || self.check_time() {
                self.shared.abort.store(true, Ordering::Relaxed);
            }
        }

        if !data.on_first_depth && self.shared.abort.load(Ordering::Relaxed) {
            return None;
        }

        Some(())
    }

    /// The quantized static evaluation of a position: the network's score,
    /// coarsened by the Weaken_Eval step. The quantization itself is the
    /// verified `crate::eval::weaken`, whose contract gives the exact
    /// rounded value; only the inference input is opaque here.
    pub fn eval(&mut self, data: &mut LocalData, pos: &cozy_chess::Board) -> (r: Eval)
        requires
            old(self).shared.wf(),
            old(data).wf(old(self).shared.net),
            old(self).limits.quantize_eval >= 1,
        ensures
            final(self).shared == old(self).shared,
            final(self).limits == old(self).limits,
            final(self).history == old(self).history,
            final(self).root == old(self).root,
            final(data).wf(old(self).shared.net),
            final(data).on_first_depth == old(data).on_first_depth,
            final(data).local_nodes == old(data).local_nodes,
            final(data).local_seldepth == old(data).local_seldepth,
            final(data).pv_table == old(data).pv_table,
            final(data).history == old(data).history,
            final(data).counter_hist == old(data).counter_hist,
            final(data).followup_hist == old(data).followup_hist,
            final(data).prev_moves == old(data).prev_moves,
            final(data).prev_evals == old(data).prev_evals,
            r.in_range(),
            !r.spec_is_mate(),
    {
        let o = chess::snapshot(pos);
        let stm = chess::board_side_to_move(pos);
        let wk = chess::board_king(pos, 0);
        let bk = chess::board_king(pos, 1);
        let raw: Eval = data.accumulator.infer(
            &self.shared.net,
            &o,
            stm,
            wk % 8,
            bk % 8,
            NnueBackend::Scalar,
        );
        crate::eval::weaken(raw, self.limits.quantize_eval)
    }

    /// Whether the hard move-time limit has passed.
    pub fn check_time(&mut self) -> (r: bool)
        ensures
            final(self).shared == old(self).shared,
            final(self).limits == old(self).limits,
            final(self).history == old(self).history,
            final(self).root == old(self).root,
    {
        let time = self.clock.elapsed_ms();
        match self.limits.move_time {
            Some(target) => time > target,
            None => false,
        }
    }
}

} // verus!
