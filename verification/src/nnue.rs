use vstd::prelude::*;
use vstd::std_specs::vec::vec_index_mut;

use crate::chess::Occupancy;
use crate::eval::Eval;
use crate::tt::bits_score;

verus! {

/// Hidden layer width of the feature transformer.
pub const HL_SIZE: usize = 512;

/// Input features: 6 piece kinds × 2 colors × 64 squares.
pub const FT_IN: usize = 768;

/// Flips a feature's color and rank bits: the black perspective.
pub const BLACK_FLIP: u16 = 120;

/// Flips a feature's file bits: the king-side horizontal mirror.
pub const MIRROR_FLIP: u16 = 7;

/// The network weights, quantized to 16 bits: feature-transformer columns
/// (one column of HL_SIZE weights per feature), its bias, the output layer
/// over both activated perspectives, and the output bias.
pub struct Network {
    ft_w: Vec<i16>,
    ft_bias: Vec<i16>,
    l1_w: Vec<i16>,
    l1_bias: i32,
}

impl Network {
    pub closed spec fn spec_ft_w(&self) -> Seq<i16> {
        self.ft_w@
    }

    pub closed spec fn spec_ft_bias(&self) -> Seq<i16> {
        self.ft_bias@
    }

    pub closed spec fn spec_l1_w(&self) -> Seq<i16> {
        self.l1_w@
    }

    pub closed spec fn spec_l1_bias(&self) -> int {
        self.l1_bias as int
    }

    pub open spec fn wf(&self) -> bool {
        self.spec_ft_w().len() == 768 * 512 && self.spec_ft_bias().len() == 512
            && self.spec_l1_w().len() == 1024
    }

    /// The feature-transformer weight of feature `f` at neuron `j`.
    pub open spec fn col(&self, f: int, j: int) -> int {
        self.spec_ft_w()[f * 512 + j] as int
    }

    /// An all-zero network, the placeholder before real weights arrive.
    pub fn zeroed() -> (r: Network)
        ensures
            r.wf(),
    {
        Network {
            ft_w: vec![0i16; 768 * 512],
            ft_bias: vec![0i16; 512],
            l1_w: vec![0i16; 1024],
            l1_bias: 0,
        }
    }

    /// Decode a little-endian weights blob: 768·512 feature-transformer
    /// weights, 512 bias words, 1024 output weights (each a 16-bit word),
    /// then one 32-bit output bias. Returns `None` exactly when the blob
    /// has the wrong length.
    pub fn from_bytes(bytes: &Vec<u8>) -> (r: Option<Network>)
        ensures
            r.is_some() <==> bytes@.len() == (768 * 512 + 512 + 1024) * 2 + 4,
            match r {
                Some(net) => net.wf() && forall|k: int|
                    0 <= k < 768 * 512 + 512 + 1024 ==> #[trigger] spec_word_at(bytes@, k)
                        == if k < 768 * 512 {
                        net.spec_ft_w()[k] as int
                    } else if k < 768 * 512 + 512 {
                        net.spec_ft_bias()[k - 768 * 512] as int
                    } else {
                        net.spec_l1_w()[k - 768 * 512 - 512] as int
                    },
                None => true,
            },
    {
        let words: usize = 768 * 512 + 512 + 1024;
        if bytes.len() != words * 2 + 4 {
            return None;
        }
        let ft_w = read_words(bytes, 0, 768 * 512);
        let ft_bias = read_words(bytes, 768 * 512, 512);
        let l1_w = read_words(bytes, 768 * 512 + 512, 1024);
        let base: usize = words * 2;
        let b0 = bytes[base] as u32;
        let b1 = bytes[base + 1] as u32;
        let b2 = bytes[base + 2] as u32;
        let b3 = bytes[base + 3] as u32;
        let ub: u32 = b0 | b1 << 8u32 | b2 << 16u32 | b3 << 24u32;
        let l1_bias: i32 = if ub < 0x8000_0000 {
            ub as i32
        } else {
            ((ub as i64) - 0x1_0000_0000i64) as i32
        };
        Some(Network { ft_w, ft_bias, l1_w, l1_bias })
    }
}

/// The signed 16-bit value of little-endian word `k` of a blob.
pub open spec fn spec_word_at(b: Seq<u8>, k: int) -> int {
    bits_score(b[2 * k] + b[2 * k + 1] * 256)
}

/// Decode `count` consecutive little-endian 16-bit words starting at word
/// offset `start`.
fn read_words(bytes: &Vec<u8>, start: usize, count: usize) -> (r: Vec<i16>)
    requires
        (start + count) * 2 <= bytes@.len(),
    ensures
        r@.len() == count,
        forall|k: int|
            0 <= k < count ==> (#[trigger] r@[k]) as int == spec_word_at(bytes@, start + k),
{
    let n = bytes.len();
    let mut r: Vec<i16> = Vec::new();
    let mut k: usize = 0;
    while k < count
        invariant
            r@.len() == k,
            k <= count,
            n == bytes@.len(),
            (start + count) * 2 <= n,
            forall|i: int| 0 <= i < k ==> (#[trigger] r@[i]) as int == spec_word_at(bytes@, start + i),
        decreases count - k,
    {
        let lo: u16 = bytes[(start + k) * 2] as u16;
        let hi: u16 = bytes[(start + k) * 2 + 1] as u16;
        let w: u32 = lo as u32 + hi as u32 * 256;
        let v: i16 = if w < 32768 {
            w as i16
        } else {
            (w as i32 - 65536) as i16
        };
        r.push(v);
        k = k + 1;
    }
    r
}

/// Whether bit `s` of `bb` is set.
pub open spec fn bit_at(bb: u64, s: int) -> bool {
    (bb >> (s as u64)) & 1u64 == 1u64
}

/// The contribution of the features of one (piece, color) block to neuron
/// `j`: the sum of column weights over the block's set squares below `hi`.
pub open spec fn board_sum(net: Network, bb: u64, n: int, flip: int, j: int, hi: int) -> int
    decreases hi,
{
    if hi <= 0 {
        0
    } else {
        board_sum(net, bb, n, flip, j, hi - 1) + if bit_at(bb, hi - 1) {
            net.col(((n * 64 + hi - 1) as u16 ^ (flip as u16)) as int, j)
        } else {
            0
        }
    }
}

/// The contribution of the blocks below `nb` to neuron `j`.
pub open spec fn blocks_sum(net: Network, boards: Seq<u64>, flip: int, j: int, nb: int) -> int
    decreases nb,
{
    if nb <= 0 {
        0
    } else {
        blocks_sum(net, boards, flip, j, nb - 1) + board_sum(net, boards[nb - 1], nb - 1, flip, j, 64)
    }
}

/// The exact mathematical value of neuron `j` of an accumulator: the
/// feature-transformer bias plus the column weights of every enabled
/// feature under the accumulator's flip mask.
pub open spec fn acc_cell(net: Network, boards: Seq<u64>, flip: int, j: int) -> int {
    net.spec_ft_bias()[j] + blocks_sum(net, boards, flip, j, 12)
}

/// The enabled-feature bitboard of block `n` (piece `n/2`, color `n%2`)
/// in a position.
pub open spec fn spec_colored(o: Occupancy, n: int) -> u64 {
    o.spec_color(n % 2) & o.spec_piece(n / 2)
}

/// The twelve enabled-feature bitboards of a position.
pub open spec fn target_boards(o: Occupancy) -> Seq<u64> {
    Seq::new(12, |n: int| spec_colored(o, n))
}

proof fn lemma_bit_zero(s: int)
    requires
        0 <= s < 64,
    ensures
        !bit_at(0u64, s),
{
    let su = s as u64;
    assert((0u64 >> su) & 1u64 == 0u64) by (bit_vector);
}

proof fn lemma_board_sum_zero(net: Network, n: int, flip: int, j: int, hi: int)
    requires
        hi <= 64,
    ensures
        board_sum(net, 0u64, n, flip, j, hi) == 0,
    decreases hi,
{
    if hi > 0 {
        lemma_board_sum_zero(net, n, flip, j, hi - 1);
        lemma_bit_zero(hi - 1);
    }
}

proof fn lemma_bit_xor(bb: u64, s: int, t: int)
    requires
        0 <= s < 64,
        0 <= t < 64,
    ensures
        s != t ==> bit_at(bb ^ (1u64 << (s as u64)), t) == bit_at(bb, t),
        s == t ==> bit_at(bb ^ (1u64 << (s as u64)), t) == !bit_at(bb, t),
{
    let su = s as u64;
    let tu = t as u64;
    assert(su != tu ==> ((bb ^ (1u64 << su)) >> tu) & 1u64 == (bb >> tu) & 1u64) by (bit_vector)
        requires
            su < 64 && tu < 64,
    ;
    assert(su == tu ==> (((bb ^ (1u64 << su)) >> tu) & 1u64 == 1u64) == !((bb >> tu) & 1u64
        == 1u64)) by (bit_vector)
        requires
            su < 64 && tu < 64,
    ;
}

/// Toggling square `s` changes a block's contribution by exactly the
/// column weight of the corresponding feature.
proof fn lemma_board_sum_toggle(net: Network, bb: u64, n: int, flip: int, j: int, s: int, hi: int)
    requires
        0 <= s < 64,
        hi <= 64,
    ensures
        board_sum(net, bb ^ (1u64 << (s as u64)), n, flip, j, hi) == board_sum(
            net,
            bb,
            n,
            flip,
            j,
            hi,
        ) + if s < hi {
            if bit_at(bb, s) {
                -net.col(((n * 64 + s) as u16 ^ (flip as u16)) as int, j)
            } else {
                net.col(((n * 64 + s) as u16 ^ (flip as u16)) as int, j)
            }
        } else {
            0
        },
    decreases hi,
{
    if hi > 0 {
        lemma_board_sum_toggle(net, bb, n, flip, j, s, hi - 1);
        lemma_bit_xor(bb, s, hi - 1);
    }
}

/// Changing one block changes the total by the difference of that block's
/// contributions.
proof fn lemma_blocks_sum_update(
    net: Network,
    boards: Seq<u64>,
    boards2: Seq<u64>,
    flip: int,
    j: int,
    n: int,
    nb: int,
)
    requires
        boards.len() == 12,
        boards2.len() == 12,
        0 <= n < 12,
        nb <= 12,
        forall|m: int| 0 <= m < 12 && m != n ==> boards2[m] == boards[m],
    ensures
        blocks_sum(net, boards2, flip, j, nb) == blocks_sum(net, boards, flip, j, nb) + if n < nb {
            board_sum(net, boards2[n], n, flip, j, 64) - board_sum(net, boards[n], n, flip, j, 64)
        } else {
            0
        },
    decreases nb,
{
    if nb > 0 {
        lemma_blocks_sum_update(net, boards, boards2, flip, j, n, nb - 1);
    }
}

proof fn lemma_board_sum_bound(net: Network, bb: u64, n: int, flip: int, j: int, hi: int)
    requires
        net.wf(),
        0 <= n < 12,
        0 <= flip < 128,
        0 <= j < 512,
        0 <= hi <= 64,
    ensures
        -hi * 32768 <= board_sum(net, bb, n, flip, j, hi) <= hi * 32768,
    decreases hi,
{
    if hi <= 0 {
    } else {
        lemma_board_sum_bound(net, bb, n, flip, j, hi - 1);
        lemma_flip_range((n * 64 + hi - 1) as u16, flip as u16);
    }
}

proof fn lemma_blocks_sum_bound(net: Network, boards: Seq<u64>, flip: int, j: int, nb: int)
    requires
        net.wf(),
        0 <= flip < 128,
        0 <= j < 512,
        0 <= nb <= 12,
    ensures
        -nb * 64 * 32768 <= blocks_sum(net, boards, flip, j, nb) <= nb * 64 * 32768,
    decreases nb,
{
    if nb <= 0 {
    } else {
        lemma_blocks_sum_bound(net, boards, flip, j, nb - 1);
        lemma_board_sum_bound(net, boards[nb - 1], nb - 1, flip, j, 64);
    }
}

/// The numeric range of a fully-summed neuron.
proof fn lemma_acc_cell_bound(net: Network, boards: Seq<u64>, flip: int, j: int)
    requires
        net.wf(),
        0 <= flip < 128,
        0 <= j < 512,
    ensures
        -26_000_000 < acc_cell(net, boards, flip, j) < 26_000_000,
{
    lemma_blocks_sum_bound(net, boards, flip, j, 12);
}

/// A feature index stays inside the table under the flip masks in use.
proof fn lemma_flip_range(base: u16, flip: u16)
    requires
        base < 768,
        flip < 128,
    ensures
        (base ^ flip) < 768,
{
    assert((base ^ flip) < 768) by (bit_vector)
        requires
            base < 768 && flip < 128,
    ;
}

/// One perspective's incrementally maintained accumulator: the recorded
/// enabled-feature bitboards and the neuron vector, which always equals
/// bias + Σ column[f] over the recorded features (the sync invariant).
pub struct Accumulator {
    flip: u16,
    boards: Vec<u64>,
    vector: Vec<i32>,
}

impl Accumulator {
    pub closed spec fn spec_flip(&self) -> u16 {
        self.flip
    }

    pub closed spec fn spec_boards(&self) -> Seq<u64> {
        self.boards@
    }

    pub closed spec fn spec_vector(&self) -> Seq<i32> {
        self.vector@
    }

    /// The accumulator invariant: every neuron holds exactly the bias plus
    /// the sum of the column weights of its recorded features.
    pub open spec fn synced(&self, net: Network) -> bool {
        &&& self.spec_flip() < 128
        &&& self.spec_boards().len() == 12
        &&& self.spec_vector().len() == 512
        &&& forall|j: int|
            0 <= j < 512 ==> (#[trigger] self.spec_vector()[j]) as int == acc_cell(
                net,
                self.spec_boards(),
                self.spec_flip() as int,
                j,
            )
    }

    /// An empty accumulator for one perspective: no features, vector at bias.
    pub fn new(net: &Network, flip: u16) -> (r: Accumulator)
        requires
            net.wf(),
            flip < 128,
        ensures
            r.synced(*net),
            r.spec_flip() == flip,
    {
        let mut boards: Vec<u64> = Vec::new();
        let mut n: usize = 0;
        while n < 12
            invariant
                boards@.len() == n,
                n <= 12,
                forall|m: int| 0 <= m < n ==> boards@[m] == 0u64,
            decreases 12 - n,
        {
            boards.push(0u64);
            n = n + 1;
        }
        let mut vector: Vec<i32> = Vec::new();
        let mut j: usize = 0;
        while j < 512
            invariant
                net.wf(),
                vector@.len() == j,
                j <= 512,
                forall|i: int|
                    0 <= i < j ==> (#[trigger] vector@[i]) as int == net.spec_ft_bias()[i] as int,
            decreases 512 - j,
        {
            vector.push(net.ft_bias[j] as i32);
            j = j + 1;
        }
        let r = Accumulator { flip, boards, vector };
        proof {
            assert forall|j2: int| 0 <= j2 < 512 implies (r.spec_vector()[j2]) as int == acc_cell(
                *net,
                r.spec_boards(),
                flip as int,
                j2,
            ) by {
                assert forall|nb: int| 0 <= nb <= 12 implies blocks_sum(
                    *net,
                    r.spec_boards(),
                    flip as int,
                    j2,
                    nb,
                ) == 0 by {
                    lemma_blocks_zero(*net, r.spec_boards(), flip as int, j2, nb);
                }
            }
        }
        r
    }

    /// Add (or subtract) one feature column into the vector.
    fn apply_column(&mut self, net: &Network, f: u16, add: bool)
        requires
            net.wf(),
            f < 768,
            old(self).spec_vector().len() == 512,
            forall|j: int|
                0 <= j < 512 ==> -27_000_000 < (((#[trigger] old(self).spec_vector()[j]) as int))
                    < 27_000_000,
        ensures
            final(self).spec_vector().len() == 512,
            final(self).spec_boards() == old(self).spec_boards(),
            final(self).spec_flip() == old(self).spec_flip(),
            forall|j: int|
                0 <= j < 512 ==> (#[trigger] final(self).spec_vector()[j]) as int == old(
                    self,
                ).spec_vector()[j] + (if add {
                    net.col(f as int, j)
                } else {
                    -net.col(f as int, j)
                }),
    {
        let mut j: usize = 0;
        while j < 512
            invariant
                net.wf(),
                f < 768,
                self.spec_vector().len() == 512,
                self.spec_boards() == old(self).spec_boards(),
                self.spec_flip() == old(self).spec_flip(),
                j <= 512,
                forall|i: int|
                    j <= i < 512 ==> (#[trigger] self.spec_vector()[i]) == old(
                        self,
                    ).spec_vector()[i],
                forall|i: int|
                    0 <= i < j ==> (#[trigger] self.spec_vector()[i]) as int == old(
                        self,
                    ).spec_vector()[i] + (if add {
                        net.col(f as int, i)
                    } else {
                        -net.col(f as int, i)
                    }),
                forall|i: int|
                    0 <= i < 512 ==> -27_000_000 < (((#[trigger] old(self).spec_vector()[i]) as int))
                        < 27_000_000,
            decreases 512 - j,
        {
            let w: i16 = net.ft_w[f as usize * 512 + j];
            let cur: i32 = self.vector[j];
            let cell = vec_index_mut(&mut self.vector, j);
            *cell = if add {
                cur + w as i32
            } else {
                cur - w as i32
            };
            j = j + 1;
        }
    }

    /// Bring the recorded features in line with the position's bitboards,
    /// adding and removing one feature column per changed square; the sync
    /// invariant is preserved throughout.
    pub fn update(&mut self, net: &Network, o: &Occupancy)
        requires
            net.wf(),
            old(self).synced(*net),
        ensures
            final(self).synced(*net),
            final(self).spec_flip() == old(self).spec_flip(),
            forall|n: int| 0 <= n < 12 ==> final(self).spec_boards()[n] == spec_colored(*o, n),
    {
        let mut n: usize = 0;
        while n < 12
            invariant
                net.wf(),
                self.synced(*net),
                self.spec_flip() == old(self).spec_flip(),
                n <= 12,
                forall|m: int| 0 <= m < n ==> self.spec_boards()[m] == spec_colored(*o, m),
            decreases 12 - n,
        {
            let want: u64 = o.color((n % 2) as u8) & o.piece((n / 2) as u8);
            let cur: u64 = self.boards[n];
            let mut diff: u64 = cur ^ want;
            proof {
                assert(cur ^ (cur ^ want) == want) by (bit_vector);
            }
            while diff != 0
                invariant
                    net.wf(),
                    self.synced(*net),
                    self.spec_flip() == old(self).spec_flip(),
                    n < 12,
                    self.spec_boards()[n as int] ^ diff == want,
                    forall|m: int| 0 <= m < n ==> self.spec_boards()[m] == spec_colored(*o, m),
                decreases diff,
            {
                let board: u64 = self.boards[n];
                let s: u32 = diff.trailing_zeros();
                proof {
                    broadcast use vstd::std_specs::bits::axiom_u64_trailing_zeros;

                    assert(s < 64);
                    assert((diff >> (s as u64)) & 1u64 == 1u64);
                }
                let su: u64 = s as u64;
                let base: u16 = (n as u16) * 64 + (s as u16);
                let f: u16 = base ^ self.flip;
                proof {
                    lemma_flip_range(base, self.flip);
                    assert forall|j: int| 0 <= j < 512 implies -27_000_000 < (((
                    #[trigger] self.spec_vector()[j]) as int)) < 27_000_000 by {
                        lemma_acc_cell_bound(
                            *net,
                            self.spec_boards(),
                            self.spec_flip() as int,
                            j,
                        );
                    }
                }
                let add: bool = (board >> su) & 1 == 0;
                let ghost pre = *self;
                self.apply_column(net, f, add);
                let board2: u64 = board ^ (1u64 << su);
                let slot = vec_index_mut(&mut self.boards, n);
                *slot = board2;
                let diff2: u64 = diff ^ (1u64 << su);
                proof {
                    assert((diff ^ (1u64 << su)) < diff && (board ^ (1u64 << su)) ^ (diff ^ (1u64
                        << su)) == board ^ diff) by (bit_vector)
                        requires
                            su < 64 && (diff >> su) & 1u64 == 1u64,
                    ;
                    assert(base as int == (n as int) * 64 + (s as int));
                    assert(base == ((n as int) * 64 + (s as int)) as u16);
                    assert(su == (s as int) as u64);
                    assert((board >> su) & 1u64 == 0u64 || (board >> su) & 1u64 == 1u64)
                        by (bit_vector);
                    assert(add == !bit_at(board, s as int));
                    assert(pre.spec_boards()[n as int] == board);
                    assert(self.spec_boards()[n as int] == board ^ (1u64 << ((s as int) as u64)));
                    assert forall|j: int| 0 <= j < 512 implies (
                    #[trigger] self.spec_vector()[j]) as int == acc_cell(
                        *net,
                        self.spec_boards(),
                        self.spec_flip() as int,
                        j,
                    ) by {
                        lemma_board_sum_toggle(
                            *net,
                            board,
                            n as int,
                            self.spec_flip() as int,
                            j,
                            s as int,
                            64,
                        );
                        lemma_blocks_sum_update(
                            *net,
                            pre.spec_boards(),
                            self.spec_boards(),
                            self.spec_flip() as int,
                            j,
                            n as int,
                            12,
                        );
                    }
                }
                diff = diff2;
            }
            proof {
                let ghost bcur = self.spec_boards()[n as int];
                assert(bcur ^ 0u64 == bcur) by (bit_vector);
            }
            n = n + 1;
        }
    }
}

proof fn lemma_blocks_zero(net: Network, boards: Seq<u64>, flip: int, j: int, nb: int)
    requires
        boards.len() == 12,
        nb <= 12,
        forall|m: int| 0 <= m < 12 ==> boards[m] == 0u64,
    ensures
        blocks_sum(net, boards, flip, j, nb) == 0,
    decreases nb,
{
    if nb > 0 {
        lemma_blocks_zero(net, boards, flip, j, nb - 1);
        lemma_board_sum_zero(net, nb - 1, flip, j, 64);
    }
}


/// Clipped activation: the neuron clamped into [0, 256].
pub open spec fn spec_crelu(v: int) -> int {
    if v < 0 {
        0
    } else if v > 256 {
        256
    } else {
        v
    }
}

/// One term of the output dot product: the squared clipped activation of
/// neuron `i` (taken from the side-to-move accumulator for the first 512,
/// from the other perspective for the rest) times its output weight.
pub open spec fn dot_term(
    net: Network,
    sb: Seq<u64>,
    sf: int,
    nb: Seq<u64>,
    nf: int,
    i: int,
) -> int {
    let a = if i < 512 {
        spec_crelu(acc_cell(net, sb, sf, i))
    } else {
        spec_crelu(acc_cell(net, nb, nf, i - 512))
    };
    a * a * (net.spec_l1_w()[i] as int)
}

/// The output dot product over the first `k` of the 1024 activations.
pub open spec fn dot_sum(
    net: Network,
    sb: Seq<u64>,
    sf: int,
    nb: Seq<u64>,
    nf: int,
    k: int,
) -> int
    decreases k,
{
    if k <= 0 {
        0
    } else {
        dot_sum(net, sb, sf, nb, nf, k - 1) + dot_term(net, sb, sf, nb, nf, k - 1)
    }
}

/// Truncating division by the quantization product 256·64.
pub open spec fn trunc_div_q(x: int) -> int {
    if x >= 0 {
        x / 16384
    } else {
        -((-x) / 16384)
    }
}

/// The network's evaluation of a position held in two perspective
/// accumulators: output bias plus the squared-clipped-ReLU dot product,
/// divided by the quantization product and clamped to the non-mate band.
pub open spec fn spec_net_eval(net: Network, sb: Seq<u64>, sf: int, nb: Seq<u64>, nf: int) -> int {
    let raw = net.spec_l1_bias() + dot_sum(net, sb, sf, nb, nf, 1024);
    let scaled = trunc_div_q(raw);
    if scaled < -29_000 {
        -29_000
    } else if scaled > 29_000 {
        29_000
    } else {
        scaled
    }
}

/// Run the output layer over two synced accumulators.
fn infer_output(net: &Network, stm_acc: &Accumulator, nstm_acc: &Accumulator) -> (r: Eval)
    requires
        net.wf(),
        stm_acc.synced(*net),
        nstm_acc.synced(*net),
    ensures
        r.sval() == spec_net_eval(
            *net,
            stm_acc.spec_boards(),
            stm_acc.spec_flip() as int,
            nstm_acc.spec_boards(),
            nstm_acc.spec_flip() as int,
        ),
        !r.spec_is_mate(),
        r.in_range(),
{
    let ghost sb = stm_acc.spec_boards();
    let ghost sf = stm_acc.spec_flip() as int;
    let ghost nb = nstm_acc.spec_boards();
    let ghost nf = nstm_acc.spec_flip() as int;
    let mut sum: i64 = 0;
    let mut i: usize = 0;
    while i < 1024
        invariant
            net.wf(),
            stm_acc.synced(*net),
            nstm_acc.synced(*net),
            sb == stm_acc.spec_boards(),
            sf == stm_acc.spec_flip() as int,
            nb == nstm_acc.spec_boards(),
            nf == nstm_acc.spec_flip() as int,
            i <= 1024,
            sum as int == dot_sum(*net, sb, sf, nb, nf, i as int),
            -(i as int) * 0x8000_0000 <= sum as int <= (i as int) * 0x8000_0000,
        decreases 1024 - i,
    {
        let v: i32 = if i < 512 {
            stm_acc.vector[i]
        } else {
            nstm_acc.vector[i - 512]
        };
        let a: i32 = if v < 0 {
            0
        } else if v > 256 {
            256
        } else {
            v
        };
        let w: i16 = net.l1_w[i];
        proof {
            assert(0 <= a * a <= 65536) by (nonlinear_arith)
                requires
                    0 <= a <= 256,
            ;
            assert(-65536 * 32768 <= (a * a) * (w as int) <= 65536 * 32768) by (nonlinear_arith)
                requires
                    0 <= a * a <= 65536 && -32768 <= w as int <= 32767,
            ;
        }
        let term: i64 = (a * a) as i64 * w as i64;
        proof {
            assert(a * a * (w as int) == dot_term(*net, sb, sf, nb, nf, i as int));
        }
        sum = sum + term;
        i = i + 1;
    }
    let raw: i64 = sum + net.l1_bias as i64;
    proof {
        assert(raw as int == net.spec_l1_bias() + dot_sum(*net, sb, sf, nb, nf, 1024));
    }
    let scaled: i64 = if raw >= 0 {
        raw / 16384
    } else {
        -((-raw) / 16384)
    };
    if scaled < -29_000 {
        Eval::cp(-29_000)
    } else if scaled > 29_000 {
        Eval::cp(29_000)
    } else {
        Eval::cp(scaled as i16)
    }
}

/// An NNUE inference backend. Only the portable scalar path exists here,
/// and the evaluation contract does not depend on the backend at all: every
/// backend returns the bit-identical score of `spec_net_eval`.
#[derive(Copy, Clone, Debug, PartialEq, Eq, Structural)]
pub enum NnueBackend {
    Scalar,
}

impl NnueBackend {
    /// The backends usable on this machine.
    pub fn available() -> (r: Vec<NnueBackend>)
        ensures
            r@.len() == 1,
            r@[0] == NnueBackend::Scalar,
    {
        let mut v: Vec<NnueBackend> = Vec::new();
        v.push(NnueBackend::Scalar);
        v
    }

    /// The backend's display name.
    pub fn name(self) -> (r: &'static str) {
        "scalar"
    }
}

/// The per-worker evaluator state: one accumulator per perspective and
/// king-side bucket, so king moves across the mirror boundary never force
/// a rebuild of the other bucket.
pub struct Nnue {
    white_left: Accumulator,
    white_right: Accumulator,
    black_left: Accumulator,
    black_right: Accumulator,
}

/// The evaluation the network assigns to a position: the side to move's
/// perspective first, each perspective mirrored when its king stands on
/// files E-H.
pub open spec fn spec_position_eval(
    net: Network,
    o: Occupancy,
    stm: int,
    wmirror: bool,
    bmirror: bool,
) -> int {
    let wflip: int = if wmirror {
        7
    } else {
        0
    };
    let bflip: int = if bmirror {
        127
    } else {
        120
    };
    if stm == 0 {
        spec_net_eval(net, target_boards(o), wflip, target_boards(o), bflip)
    } else {
        spec_net_eval(net, target_boards(o), bflip, target_boards(o), wflip)
    }
}

impl Nnue {
    pub closed spec fn synced(&self, net: Network) -> bool {
        &&& self.white_left.synced(net) && self.white_left.spec_flip() == 0
        &&& self.white_right.synced(net) && self.white_right.spec_flip() == 7
        &&& self.black_left.synced(net) && self.black_left.spec_flip() == 120
        &&& self.black_right.synced(net) && self.black_right.spec_flip() == 127
    }

    /// Fresh accumulators for all four perspective buckets.
    pub fn new(net: &Network) -> (r: Nnue)
        requires
            net.wf(),
        ensures
            r.synced(*net),
    {
        proof {
            assert(BLACK_FLIP | MIRROR_FLIP == 127u16) by (bit_vector);
        }
        Nnue {
            white_left: Accumulator::new(net, 0),
            white_right: Accumulator::new(net, MIRROR_FLIP),
            black_left: Accumulator::new(net, BLACK_FLIP),
            black_right: Accumulator::new(net, BLACK_FLIP | MIRROR_FLIP),
        }
    }

    /// Update the two active buckets to the position and run inference.
    /// The returned score is a pure function of the position and the
    /// weights; the backend argument cannot change it.
    pub fn infer(
        &mut self,
        net: &Network,
        o: &Occupancy,
        stm: u8,
        wk_file: u8,
        bk_file: u8,
        backend: NnueBackend,
    ) -> (r: Eval)
        requires
            net.wf(),
            old(self).synced(*net),
            stm < 2,
            wk_file < 8,
            bk_file < 8,
        ensures
            final(self).synced(*net),
            r.sval() == spec_position_eval(*net, *o, stm as int, wk_file >= 4, bk_file >= 4),
            !r.spec_is_mate(),
            r.in_range(),
    {
        match backend {
            NnueBackend::Scalar => {},
        }
        let white_acc: &mut Accumulator = if wk_file < 4 {
            &mut self.white_left
        } else {
            &mut self.white_right
        };
        white_acc.update(net, o);
        let black_acc: &mut Accumulator = if bk_file < 4 {
            &mut self.black_left
        } else {
            &mut self.black_right
        };
        black_acc.update(net, o);
        let w_ref: &Accumulator = if wk_file < 4 {
            &self.white_left
        } else {
            &self.white_right
        };
        let b_ref: &Accumulator = if bk_file < 4 {
            &self.black_left
        } else {
            &self.black_right
        };
        let r = if stm == 0 {
            infer_output(net, w_ref, b_ref)
        } else {
            infer_output(net, b_ref, w_ref)
        };
        proof {
            assert(w_ref.spec_boards() =~= target_boards(*o));
            assert(b_ref.spec_boards() =~= target_boards(*o));
        }
        r
    }
}

} // verus!
