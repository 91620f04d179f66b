use vstd::prelude::*;

use core::sync::atomic::{AtomicU64, Ordering};

use crate::chess::Move;
use crate::eval::Eval;

verus! {

/// A move packed into 16 bits: from-square in the low 6 bits, to-square in
/// the next 6, promotion piece in the next 3 (6 when there is none).
#[derive(Copy, Clone, Debug, PartialEq, Eq, Structural)]
pub struct PackedMove(u16);

impl PackedMove {
    /// The raw 16 bits.
    pub closed spec fn bits(self) -> u16 {
        self.0
    }

    /// What packing a well-formed move yields.
    pub open spec fn spec_pack(mv: Move) -> u16 {
        (mv.from + mv.to * 64 + (match mv.promotion {
            Some(p) => p as int,
            None => 6,
        }) * 4096) as u16
    }

    /// What a 16-bit word decodes to: always a well-formed move.
    pub open spec fn spec_unpack(bits: u16) -> Move {
        Move {
            from: (bits % 64) as u8,
            to: ((bits / 64) % 64) as u8,
            promotion: if (bits / 4096) % 8 < 6 {
                Some(((bits / 4096) % 8) as u8)
            } else {
                None
            },
        }
    }

    /// Pack a move into 16 bits.
    pub fn pack(mv: Move) -> (r: PackedMove)
        requires
            mv.wf(),
        ensures
            r.bits() == Self::spec_pack(mv),
    {
        let promo: u16 = match mv.promotion {
            Some(p) => p as u16,
            None => 6,
        };
        let bits: u16 = mv.from as u16 | (mv.to as u16) << 6u16 | promo << 12u16;
        proof {
            let f = mv.from as u16;
            let t = mv.to as u16;
            let p = promo;
            assert(f | t << 6u16 | p << 12u16 == (f + t * 64 + p * 4096) as u16) by (bit_vector)
                requires
                    f < 64 && t < 64 && p < 8,
            ;
        }
        PackedMove(bits)
    }

    /// Decode the 16 bits into a move; junk promotion codes decode to `None`.
    pub fn unpack(self) -> (r: Move)
        ensures
            r == Self::spec_unpack(self.bits()),
            r.wf(),
    {
        let bits = self.0;
        let from: u16 = bits & 0x3F;
        let to: u16 = (bits >> 6u16) & 0x3F;
        let promo: u16 = (bits >> 12u16) & 0x7;
        proof {
            assert(bits & 0x3F == bits % 64 && (bits >> 6u16) & 0x3F == (bits / 64) % 64
                && (bits >> 12u16) & 0x7 == (bits / 4096) % 8) by (bit_vector);
        }
        Move {
            from: from as u8,
            to: to as u8,
            promotion: if promo < 6 {
                Some(promo as u8)
            } else {
                None
            },
        }
    }
}

/// Every 16-bit word, even one read from a torn slot, decodes to a
/// well-formed move triple.
pub proof fn lemma_unpack_always_wf(bits: u16)
    ensures
        PackedMove::spec_unpack(bits).wf(),
{
}

/// Packing then unpacking reproduces every well-formed move exactly.
pub proof fn lemma_packed_move_roundtrip(mv: Move)
    requires
        mv.wf(),
    ensures
        PackedMove::spec_unpack(PackedMove::spec_pack(mv)) == mv,
{
    let p: int = match mv.promotion {
        Some(p) => p as int,
        None => 6,
    };
    let bits = PackedMove::spec_pack(mv);
    assert(bits == mv.from + mv.to * 64 + p * 4096);
    assert(bits % 64 == mv.from && (bits / 64) % 64 == mv.to && (bits / 4096) % 8 == p)
        by (nonlinear_arith)
        requires
            mv.from < 64 && mv.to < 64 && 0 <= p <= 6 && bits == mv.from + mv.to * 64 + p * 4096,
    ;
}

/// Qualifier on a stored score: upper bound (fail-low), lower bound
/// (fail-high), or exact. The all-zero slot decodes to "no bound".
#[derive(Copy, Clone, Debug, PartialEq, Eq, Structural)]
pub struct Bound(u8);

impl Bound {
    pub closed spec fn bval(self) -> u8 {
        self.0
    }

    /// An upper-bound qualifier.
    pub fn upper_bound() -> (r: Bound)
        ensures
            r.bval() == 1,
    {
        Bound(1)
    }

    /// A lower-bound qualifier.
    pub fn lower_bound() -> (r: Bound)
        ensures
            r.bval() == 2,
    {
        Bound(2)
    }

    /// An exact qualifier.
    pub fn exact_bound() -> (r: Bound)
        ensures
            r.bval() == 3,
    {
        Bound(3)
    }

    pub fn exact(self) -> (r: bool)
        ensures
            r == (self.bval() == 3),
    {
        self.0 == 3
    }

    pub fn lower(self) -> (r: bool)
        ensures
            r == (self.bval() == 2),
    {
        self.0 == 2
    }

    pub fn upper(self) -> (r: bool)
        ensures
            r == (self.bval() == 1),
    {
        self.0 == 1
    }

    pub fn lower_or_exact(self) -> (r: bool)
        ensures
            r == (self.bval() == 2 || self.bval() == 3),
    {
        self.0 == 2 || self.0 == 3
    }

    /// The qualifier a finished node stores, from its original window and
    /// best score.
    pub fn compute(orig_alpha: Eval, beta: Eval, best_score: Eval) -> (r: Bound)
        ensures
            best_score.sval() <= orig_alpha.sval() ==> r.bval() == 1,
            best_score.sval() >= beta.sval() && orig_alpha.sval() < best_score.sval() ==> r.bval()
                == 2,
            orig_alpha.sval() < best_score.sval() < beta.sval() ==> r.bval() == 3,
    {
        if best_score.le(orig_alpha) {
            Bound(1)
        } else if best_score.ge(beta) {
            Bound(2)
        } else {
            Bound(3)
        }
    }
}

/// The bit pattern of a signed 16-bit score inside a packed word.
pub open spec fn score_bits(s: int) -> int {
    if s >= 0 {
        s
    } else {
        s + 65536
    }
}

/// The signed 16-bit score a bit pattern stands for.
pub open spec fn bits_score(b: int) -> int {
    if b < 32768 {
        b
    } else {
        b - 65536
    }
}

/// A search entry packed into one 64-bit word: 16 hash bits, 16-bit packed
/// move, 16-bit score, 8-bit depth, 2-bit bound qualifier.
#[derive(Copy, Clone, Debug)]
pub struct TtSearchEntry {
    pub lower_hash_bits: u16,
    pub mv: PackedMove,
    pub score: Eval,
    pub depth: u8,
    pub bound: Bound,
}

impl TtSearchEntry {
    /// The packed word an entry maps to.
    pub open spec fn spec_word(self) -> int {
        self.lower_hash_bits + self.mv.bits() * 0x10000 + score_bits(self.score.sval())
            * 0x1_0000_0000 + self.depth * 0x1_0000_0000_0000 + self.bound.bval()
            * 0x100_0000_0000_0000
    }

    /// A packable entry: score a genuine 16-bit value, bound two bits.
    pub open spec fn packable(self) -> bool {
        -32768 <= self.score.sval() < 32768 && self.bound.bval() < 4
    }

    /// Pack the entry into its 64-bit word.
    pub fn pack(self) -> (w: u64)
        requires
            self.packable(),
        ensures
            w == self.spec_word(),
    {
        let sb: u16 = if self.score.value() >= 0 {
            self.score.value() as u16
        } else {
            (self.score.value() as i32 + 65536) as u16
        };
        let h: u64 = self.lower_hash_bits as u64;
        let m: u64 = self.mv.0 as u64;
        let s: u64 = sb as u64;
        let d: u64 = self.depth as u64;
        let b: u64 = self.bound.0 as u64;
        let w: u64 = h | m << 16u64 | s << 32u64 | d << 48u64 | b << 56u64;
        proof {
            assert(h | m << 16u64 | s << 32u64 | d << 48u64 | b << 56u64 == (h + m * 0x10000 + s
                * 0x1_0000_0000 + d * 0x1_0000_0000_0000 + b * 0x100_0000_0000_0000) as u64)
                by (bit_vector)
                requires
                    h < 0x10000 && m < 0x10000 && s < 0x10000 && d < 0x100 && b < 4,
            ;
        }
        w
    }

    /// Unpack a 64-bit word; any word yields a structurally valid entry.
    pub fn unpack(w: u64) -> (r: TtSearchEntry)
        ensures
            r.lower_hash_bits == (w as int) % 0x10000,
            r.mv.bits() == ((w as int) / 0x10000) % 0x10000,
            r.score.sval() == bits_score(((w as int) / 0x1_0000_0000) % 0x10000),
            r.depth == ((w as int) / 0x1_0000_0000_0000) % 0x100,
            r.bound.bval() == ((w as int) / 0x100_0000_0000_0000) % 4,
            r.packable(),
    {
        let h: u64 = w & 0xFFFF;
        let m: u64 = (w >> 16u64) & 0xFFFF;
        let s: u64 = (w >> 32u64) & 0xFFFF;
        let d: u64 = (w >> 48u64) & 0xFF;
        let b: u64 = (w >> 56u64) & 0x3;
        proof {
            assert(w & 0xFFFF == w % 0x10000 && (w >> 16u64) & 0xFFFF == (w / 0x10000) % 0x10000 && (
            w >> 32u64) & 0xFFFF == (w / 0x1_0000_0000) % 0x10000 && (w >> 48u64) & 0xFF == (w
                / 0x1_0000_0000_0000) % 0x100 && (w >> 56u64) & 0x3 == (w / 0x100_0000_0000_0000)
                % 4) by (bit_vector);
        }
        let score: Eval = if s < 32768 {
            Eval::cp(s as i16)
        } else {
            Eval::cp((s as i64 - 65536) as i16)
        };
        TtSearchEntry {
            lower_hash_bits: h as u16,
            mv: PackedMove(m as u16),
            score,
            depth: d as u8,
            bound: Bound(b as u8),
        }
    }
}

/// Packing then unpacking a packable entry reproduces every field.
pub proof fn lemma_entry_roundtrip_fields(e: TtSearchEntry)
    requires
        e.packable(),
    ensures
        (e.spec_word() % 0x10000) == e.lower_hash_bits,
        ((e.spec_word() / 0x10000) % 0x10000) == e.mv.bits(),
        bits_score((e.spec_word() / 0x1_0000_0000) % 0x10000) == e.score.sval(),
        ((e.spec_word() / 0x1_0000_0000_0000) % 0x100) == e.depth,
        ((e.spec_word() / 0x100_0000_0000_0000) % 4) == e.bound.bval(),
{
    let h = e.lower_hash_bits as int;
    let m = e.mv.bits() as int;
    let s = score_bits(e.score.sval());
    let d = e.depth as int;
    let b = e.bound.bval() as int;
    let w = e.spec_word();
    assert(0 <= s < 0x10000);
    assert(w % 0x10000 == h && (w / 0x10000) % 0x10000 == m && (w / 0x1_0000_0000) % 0x10000 == s
        && (w / 0x1_0000_0000_0000) % 0x100 == d && (w / 0x100_0000_0000_0000) % 4 == b)
        by (nonlinear_arith)
        requires
            0 <= h < 0x10000 && 0 <= m < 0x10000 && 0 <= s < 0x10000 && 0 <= d < 0x100 && 0 <= b
                < 4 && w == h + m * 0x10000 + s * 0x1_0000_0000 + d * 0x1_0000_0000_0000 + b
                * 0x100_0000_0000_0000,
    ;
}

/// The shared transposition table: a flat array of relaxed atomic 64-bit
/// words, two per bucket (search data, then static-eval data). All slots are
/// racy: a load may observe a word written for a different key, so every
/// word read back is verified against the key's low hash bits and its score
/// validated before use.
pub struct TranspositionTable {
    table: Vec<AtomicU64>,
    entries: usize,
}

impl TranspositionTable {
    /// Structurally sound: one pair of words per bucket.
    pub closed spec fn wf(&self) -> bool {
        self.table@.len() == self.entries * 2 && self.entries > 0
    }

    /// Number of buckets.
    pub closed spec fn spec_entries(&self) -> usize {
        self.entries
    }

    /// Allocate a zeroed table of `mb` mebibytes (16 bytes per bucket).
    pub fn new(mb: usize) -> (r: TranspositionTable)
        requires
            1 <= mb,
            mb * 131072 < usize::MAX,
        ensures
            r.wf(),
            r.spec_entries() == mb * 65536,
    {
        let entries: usize = mb * 65536;
        let mut table: Vec<AtomicU64> = Vec::new();
        let mut i: usize = 0;
        while i < entries * 2
            invariant
                table@.len() == i,
                i <= entries * 2,
                entries == mb * 65536,
                mb * 131072 < usize::MAX,
            decreases entries * 2 - i,
        {
            table.push(AtomicU64::new(0));
            i = i + 1;
        }
        TranspositionTable { table, entries }
    }

    /// The bucket index a hash maps to: `(hash · entries) / 2^64`, doubled
    /// to address the search word of the pair.
    fn slot_index(&self, hash: u64) -> (i: usize)
        requires
            self.wf(),
        ensures
            i + 1 < self.table@.len(),
            i % 2 == 0,
    {
        let n = self.table.len();
        proof {
            let h = hash as int;
            let e = self.entries as int;
            assert(h * e < 0x1_0000_0000_0000_0000 * 0x1_0000_0000_0000_0000) by (nonlinear_arith)
                requires
                    0 <= h < 0x1_0000_0000_0000_0000 && 0 <= e < 0x1_0000_0000_0000_0000,
            ;
            assert((h * e) / 0x1_0000_0000_0000_0000 < e) by (nonlinear_arith)
                requires
                    0 <= h < 0x1_0000_0000_0000_0000 && 0 < e,
            ;
        }
        let wide: u128 = (hash as u128) * (self.entries as u128) / 0x1_0000_0000_0000_0000u128;
        (wide as usize) * 2
    }

    /// Load the entry and static eval stored for `hash`, as seen from `ply`.
    /// Either component is `None` when its slot's verification bits do not
    /// match the key or its score fails validation; a returned search entry
    /// always carries the key's low hash bits, an in-range score, and a
    /// well-formed packed move.
    pub fn load(&self, hash: u64, ply: usize) -> (r: (Option<TtSearchEntry>, Option<Eval>))
        requires
            self.wf(),
            ply <= 256,
        ensures
            match r.0 {
                Some(e) => e.lower_hash_bits == (hash as int) % 0x10000 && e.score.in_range()
                    && e.packable(),
                None => true,
            },
            match r.1 {
                Some(e) => e.in_range(),
                None => true,
            },
    {
        let i = self.slot_index(hash);
        let search_word = self.table[i].load(Ordering::Relaxed);
        let eval_word = self.table[i + 1].load(Ordering::Relaxed);

        let hash_bits: u16 = (hash % 65536) as u16;

        let mut search_data: Option<TtSearchEntry> = None;
        let raw = TtSearchEntry::unpack(search_word);
        if raw.lower_hash_bits == hash_bits {
            let adjusted = raw.score.add_time(ply);
            if -30_000 <= adjusted.value() && adjusted.value() <= 30_000 {
                search_data = Some(TtSearchEntry { score: adjusted, ..raw });
            }
        }

        let mut eval_data: Option<Eval> = None;
        let raw_eval = TtSearchEntry::unpack(eval_word);
        if raw_eval.lower_hash_bits == hash_bits {
            let ev = Eval::cp((raw_eval.mv.0 as i32 - if raw_eval.mv.0 >= 32768 {
                65536
            } else {
                0
            }) as i16);
            if -30_000 <= ev.value() && ev.value() <= 30_000 {
                eval_data = Some(ev);
            }
        }

        (search_data, eval_data)
    }

    /// Store a search entry for `hash` at `ply`; mate scores are shifted to
    /// be relative to this entry before packing.
    pub fn store_search(&self, hash: u64, ply: usize, entry: TtSearchEntry)
        requires
            self.wf(),
            ply <= 256,
            entry.score.in_range(),
            entry.bound.bval() < 4,
    {
        let i = self.slot_index(hash);
        let prepared = TtSearchEntry {
            lower_hash_bits: (hash % 65536) as u16,
            score: entry.score.sub_time(ply),
            ..entry
        };
        self.table[i].store(prepared.pack(), Ordering::Relaxed);
    }

    /// Store a static eval for `hash` in the bucket's second word.
    pub fn store_eval(&self, hash: u64, eval: Eval)
        requires
            self.wf(),
            eval.in_range(),
    {
        let i = self.slot_index(hash);
        let sb: u16 = if eval.value() >= 0 {
            eval.value() as u16
        } else {
            (eval.value() as i32 + 65536) as u16
        };
        let entry = TtSearchEntry {
            lower_hash_bits: (hash % 65536) as u16,
            mv: PackedMove(sb),
            score: Eval::cp(0),
            depth: 0,
            bound: Bound(0),
        };
        self.table[i + 1].store(entry.pack(), Ordering::Relaxed);
    }

    /// The backing word array, for the cooperative parallel clear.
    pub fn raw(&self) -> (r: &Vec<AtomicU64>)
        requires
            self.wf(),
        ensures
            r@.len() == self.spec_entries() * 2,
    {
        &self.table
    }
}

} // verus!
