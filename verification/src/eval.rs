use vstd::prelude::*;

verus! {

/// Scores outside the open band (-MAX_NONMATE, MAX_NONMATE) encode mate
/// distances; the band itself holds centipawn values.
pub const MAX_NONMATE: i16 = 29_000;
/// Greatest magnitude a score may take: `mated(0)` is -SCORE_LIMIT and
/// `mating(0)` is SCORE_LIMIT.
pub const SCORE_LIMIT: i16 = 30_000;

/// A signed 16-bit search score. Centipawns inside the non-mate band;
/// mate-in-N from the current ply outside it (negative: being mated).
#[derive(Copy, Clone, Debug, PartialEq, Eq, Structural)]
pub struct Eval(pub(crate) i16);

impl Eval {
    /// The score as a mathematical integer.
    pub closed spec fn sval(self) -> int {
        self.0 as int
    }

    /// Every score the search produces stays within ±SCORE_LIMIT.
    pub open spec fn in_range(self) -> bool {
        -30_000 <= self.sval() <= 30_000
    }

    /// A centipawn score.
    pub fn cp(v: i16) -> (r: Eval)
        ensures
            r.sval() == v as int,
    {
        Eval(v)
    }

    /// The raw 16-bit value, for callers that format or compare scores.
    pub fn value(self) -> (r: i16)
        ensures
            r as int == self.sval(),
    {
        self.0
    }

    /// Being checkmated `ply` plies from the root.
    pub fn mated(ply: usize) -> (r: Eval)
        requires
            ply <= 2048,
        ensures
            r.sval() == ply - 30_000,
    {
        Eval(ply as i16 - 30_000)
    }

    /// Delivering checkmate `ply` plies from the root.
    pub fn mating(ply: usize) -> (r: Eval)
        requires
            ply <= 2048,
        ensures
            r.sval() == 30_000 - ply,
    {
        Eval(30_000 - ply as i16)
    }

    pub open spec fn spec_is_mate(self) -> bool {
        self.sval() < -29_000 || self.sval() > 29_000
    }

    /// The legal score band at `ply`: a mate distance can never be shorter
    /// than the distance from the root.
    pub open spec fn in_ply_band(self, ply: int) -> bool {
        ply - 30_000 <= self.sval() <= 30_000 - ply
    }

    /// Clamp the score into the legal band at `ply`; a score already in
    /// the band is unchanged.
    pub fn clamp_ply(self, ply: usize) -> (r: Eval)
        requires
            self.in_range(),
            ply <= 256,
        ensures
            r.in_ply_band(ply as int),
            r.in_range(),
            self.in_ply_band(ply as int) ==> r == self,
            r.sval() == if self.sval() < ply - 30_000 {
                ply - 30_000
            } else if self.sval() > 30_000 - ply {
                30_000 - ply
            } else {
                self.sval()
            },
    {
        let lo: i16 = ply as i16 - 30_000;
        let hi: i16 = 30_000 - ply as i16;
        if self.0 < lo {
            Eval(lo)
        } else if self.0 > hi {
            Eval(hi)
        } else {
            self
        }
    }

    /// Whether the score encodes a mate distance.
    pub fn is_mate(self) -> (r: bool)
        ensures
            r == self.spec_is_mate(),
    {
        self.0 < -MAX_NONMATE || self.0 > MAX_NONMATE
    }

    /// Whether the score says the side to move is being mated.
    pub fn losing(self) -> (r: bool)
        ensures
            r == (self.sval() < -29_000),
    {
        self.0 < -MAX_NONMATE
    }

    pub open spec fn spec_clamp_nonmate(self) -> int {
        if self.sval() < -29_000 {
            -29_000
        } else if self.sval() > 29_000 {
            29_000
        } else {
            self.sval()
        }
    }

    /// The score clamped into the non-mate band.
    pub fn clamp_nonmate(self) -> (r: Eval)
        ensures
            r.sval() == self.spec_clamp_nonmate(),
            !r.spec_is_mate(),
            r.in_range(),
    {
        if self.0 < -MAX_NONMATE {
            Eval(-MAX_NONMATE)
        } else if self.0 > MAX_NONMATE {
            Eval(MAX_NONMATE)
        } else {
            self
        }
    }

    /// Push a mate score `ply` plies further out: a score that is relative to
    /// the current node becomes relative to a root `ply` plies above it.
    /// Non-mate scores are unchanged.
    pub fn sub_time(self, ply: usize) -> (r: Eval)
        requires
            self.in_range(),
            ply <= 2048,
        ensures
            r.sval() == if self.spec_is_mate() {
                if self.sval() < 0 {
                    self.sval() - ply
                } else {
                    self.sval() + ply
                }
            } else {
                self.sval()
            },
    {
        if self.0 < -MAX_NONMATE {
            Eval(self.0 - ply as i16)
        } else if self.0 > MAX_NONMATE {
            Eval(self.0 + ply as i16)
        } else {
            self
        }
    }

    /// Pull a mate score `ply` plies closer: the inverse adjustment of
    /// `sub_time`, applied when a stored score is read back at `ply`.
    pub fn add_time(self, ply: usize) -> (r: Eval)
        requires
            ply <= 2048,
        ensures
            r.sval() == if self.spec_is_mate() {
                if self.sval() < 0 {
                    self.sval() + ply
                } else {
                    self.sval() - ply
                }
            } else {
                self.sval()
            },
    {
        if self.0 < -MAX_NONMATE {
            Eval(self.0 + ply as i16)
        } else if self.0 > MAX_NONMATE {
            Eval(self.0 - ply as i16)
        } else {
            self
        }
    }

    /// The negated score, as seen by the opponent.
    pub fn neg(self) -> (r: Eval)
        requires
            -32_767 <= self.sval(),
        ensures
            r.sval() == -self.sval(),
    {
        Eval(-self.0)
    }

    /// Add an integer margin, saturating at ±SCORE_LIMIT.
    pub fn add(self, rhs: i32) -> (r: Eval)
        requires
            -1_000_000 <= rhs <= 1_000_000,
        ensures
            r.sval() == if self.sval() + rhs < -30_000 {
                -30_000int
            } else if self.sval() + rhs > 30_000 {
                30_000int
            } else {
                self.sval() + rhs
            },
            r.in_range(),
    {
        let v: i32 = self.0 as i32 + rhs;
        if v < -30_000 {
            Eval(-30_000)
        } else if v > 30_000 {
            Eval(30_000)
        } else {
            Eval(v as i16)
        }
    }

    /// Subtract an integer margin, saturating at ±SCORE_LIMIT.
    pub fn sub(self, rhs: i32) -> (r: Eval)
        requires
            -1_000_000 <= rhs <= 1_000_000,
        ensures
            r.sval() == if self.sval() - rhs < -30_000 {
                -30_000int
            } else if self.sval() - rhs > 30_000 {
                30_000int
            } else {
                self.sval() - rhs
            },
            r.in_range(),
    {
        let v: i32 = self.0 as i32 - rhs;
        if v < -30_000 {
            Eval(-30_000)
        } else if v > 30_000 {
            Eval(30_000)
        } else {
            Eval(v as i16)
        }
    }

    /// The difference of two scores, as a 32-bit margin.
    pub fn diff(self, rhs: Eval) -> (r: i32)
        ensures
            r as int == self.sval() - rhs.sval(),
    {
        self.0 as i32 - rhs.0 as i32
    }

    /// Strictly-greater comparison.
    pub fn gt(self, rhs: Eval) -> (r: bool)
        ensures
            r == (self.sval() > rhs.sval()),
    {
        self.0 > rhs.0
    }

    /// Strictly-less comparison.
    pub fn lt(self, rhs: Eval) -> (r: bool)
        ensures
            r == (self.sval() < rhs.sval()),
    {
        self.0 < rhs.0
    }

    /// Greater-or-equal comparison.
    pub fn ge(self, rhs: Eval) -> (r: bool)
        ensures
            r == (self.sval() >= rhs.sval()),
    {
        self.0 >= rhs.0
    }

    /// Less-or-equal comparison.
    pub fn le(self, rhs: Eval) -> (r: bool)
        ensures
            r == (self.sval() <= rhs.sval()),
    {
        self.0 <= rhs.0
    }

    /// Number of full moves until mate, for score reporting: K where the
    /// mate arrives after ⌈plies/2⌉ moves. Meaningful only for mate scores.
    pub fn mate_moves(self) -> (r: i16)
        requires
            self.in_range(),
        ensures
            self.sval() < -29_000 ==> r as int == -((self.sval() + 30_000 + 1) / 2),
            self.sval() > 29_000 ==> r as int == (30_000 - self.sval() + 1) / 2,
            !self.spec_is_mate() ==> r == 0,
    {
        if self.0 < -MAX_NONMATE {
            -((self.0 + 30_000 + 1) / 2)
        } else if self.0 > MAX_NONMATE {
            (30_000 - self.0 + 1) / 2
        } else {
            0
        }
    }
}

/// The Weaken_Eval coarsening: the magnitude rounded to the nearest
/// multiple of `q` (ties away from zero), the sign restored, the result
/// clamped into the non-mate band. With `q == 1` every in-band score maps
/// to itself.
pub open spec fn spec_weaken(v: int, q: int) -> int {
    let m = if v >= 0 {
        v
    } else {
        -v
    };
    let t = ((m + q / 2) / q) * q;
    let s = if v >= 0 {
        t
    } else {
        -t
    };
    if s < -29_000 {
        -29_000
    } else if s > 29_000 {
        29_000
    } else {
        s
    }
}

/// Quantize a static evaluation by step `q`, exactly as `spec_weaken`
/// says: the result is a multiple of `q` or a band edge.
pub fn weaken(raw: Eval, q: i16) -> (r: Eval)
    requires
        q >= 1,
        !raw.spec_is_mate(),
        raw.in_range(),
    ensures
        r.sval() == spec_weaken(raw.sval(), q as int),
        !r.spec_is_mate(),
        r.in_range(),
{
    let qi: i32 = q as i32;
    let v: i32 = raw.value() as i32;
    let m: i32 = if v >= 0 {
        v
    } else {
        -v
    };
    proof {
        let mi: int = m as int;
        let qq: int = qi as int;
        assert((mi + qq / 2) / qq * qq <= mi + qq / 2 && (mi + qq / 2) / qq * qq >= 0) by (
        nonlinear_arith)
            requires
                qq >= 1 && 0 <= mi,
        ;
    }
    let t: i32 = (m + qi / 2) / qi * qi;
    let s: i32 = if v >= 0 {
        t
    } else {
        -t
    };
    if s < -29_000 {
        Eval::cp(-29_000)
    } else if s > 29_000 {
        Eval::cp(29_000)
    } else {
        Eval::cp(s as i16)
    }
}

/// Shifting a score out by `ply` when storing and back in by `ply` when
/// loading reproduces it exactly, for every legal score: the
/// transposition table's mate-distance correction is lossless.
pub proof fn lemma_time_shift_inverse(s: Eval, ply: usize)
    requires
        s.in_range(),
        ply <= 2048,
    ensures
        ({
            let stored = if s.spec_is_mate() {
                if s.sval() < 0 {
                    s.sval() - ply
                } else {
                    s.sval() + ply
                }
            } else {
                s.sval()
            };
            let restored = if stored < -29_000 || stored > 29_000 {
                if stored < 0 {
                    stored + ply
                } else {
                    stored - ply
                }
            } else {
                stored
            };
            restored == s.sval()
        }),
{
}

} // verus!
