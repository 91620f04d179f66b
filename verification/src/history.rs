use vstd::prelude::*;
use vstd::std_specs::vec::vec_index_mut;

verus! {

/// Cap on the magnitude of a history score.
pub const MAX_HISTORY: i32 = 16_384;

/// The gravity update rule: `slot + bonus − |bonus|·slot/MAX_HISTORY`,
/// with the division truncating toward zero.
pub open spec fn spec_gravity(slot: int, bonus: int) -> int {
    let prod = (if bonus >= 0 {
        bonus
    } else {
        -bonus
    }) * slot;
    let grav = if prod >= 0 {
        prod / 16_384
    } else {
        -((-prod) / 16_384)
    };
    slot + bonus - grav
}

/// Halving toward zero, the between-searches decay of a history score.
pub open spec fn spec_halved(v: int) -> int {
    if v >= 0 {
        v / 2
    } else {
        -((-v) / 2)
    }
}

/// Quiet-move scores indexed by (side to move, moving piece, to-square).
/// The gravity update keeps every score within ±MAX_HISTORY.
pub struct PieceHistory {
    table: Vec<i16>,
}

/// The flat index of a (color, piece, square) cell.
pub open spec fn ph_index(color: int, piece: int, to: int) -> int {
    color * 384 + piece * 64 + to
}

impl PieceHistory {
    pub closed spec fn scores(&self) -> Seq<i16> {
        self.table@
    }

    pub open spec fn wf(&self) -> bool {
        self.scores().len() == 768 && forall|i: int|
            0 <= i < 768 ==> -16_384 <= (#[trigger] self.scores()[i]) <= 16_384
    }

    /// A zeroed table.
    pub fn new() -> (r: PieceHistory)
        ensures
            r.wf(),
            forall|i: int| 0 <= i < 768 ==> r.scores()[i] == 0,
    {
        PieceHistory { table: vec![0i16; 768] }
    }

    /// The score of a quiet move by `piece` of `color` to square `to`.
    pub fn get(&self, color: u8, piece: u8, to: u8) -> (r: i16)
        requires
            self.wf(),
            color < 2,
            piece < 6,
            to < 64,
        ensures
            r == self.scores()[ph_index(color as int, piece as int, to as int)],
            -16_384 <= r <= 16_384,
    {
        let i: usize = color as usize * 384 + piece as usize * 64 + to as usize;
        self.table[i]
    }

    /// Gravity update: `slot += bonus − |bonus|·slot/MAX_HISTORY`, which
    /// pulls scores toward the sign of the bonus without ever leaving the
    /// ±MAX_HISTORY band. Exactly the addressed cell changes, to exactly
    /// the value `spec_gravity` gives.
    pub fn update(&mut self, color: u8, piece: u8, to: u8, bonus: i16)
        requires
            old(self).wf(),
            color < 2,
            piece < 6,
            to < 64,
            -16_384 <= bonus <= 16_384,
        ensures
            final(self).wf(),
            final(self).scores().len() == 768,
            forall|i: int|
                0 <= i < 768 && i != ph_index(color as int, piece as int, to as int)
                    ==> final(self).scores()[i] == old(self).scores()[i],
            (final(self).scores()[ph_index(color as int, piece as int, to as int)]) as int
                == spec_gravity(
                (old(self).scores()[ph_index(color as int, piece as int, to as int)]) as int,
                bonus as int,
            ),
    {
        let i: usize = color as usize * 384 + piece as usize * 64 + to as usize;
        let slot: i32 = self.table[i] as i32;
        let b: i32 = bonus as i32;
        let babs: i32 = if b >= 0 {
            b
        } else {
            -b
        };
        proof {
            assert(-16_384 * 16_384 <= babs * slot <= 16_384 * 16_384) by (nonlinear_arith)
                requires
                    0 <= babs <= 16_384 && -16_384 <= slot <= 16_384,
            ;
        }
        let prod: i32 = babs * slot;
        let grav: i32 = if prod >= 0 {
            prod / 16_384
        } else {
            -((-prod) / 16_384)
        };
        let updated: i32 = slot + b - grav;
        proof {
            lemma_gravity_bound(slot as int, b as int, babs as int, prod as int, grav as int);
        }
        let cell = vec_index_mut(&mut self.table, i);
        *cell = updated as i16;
    }

    /// Halve every score toward zero, fading stale preferences between
    /// searches.
    pub fn decay(&mut self)
        requires
            old(self).wf(),
        ensures
            final(self).wf(),
            forall|k: int|
                0 <= k < 768 ==> (#[trigger] final(self).scores()[k]) as int == spec_halved(
                    (old(self).scores()[k]) as int,
                ),
    {
        let mut i: usize = 0;
        while i < 768
            invariant
                self.scores().len() == 768,
                i <= 768,
                forall|k: int| 0 <= k < 768 ==> -16_384 <= (#[trigger] self.scores()[k]) <= 16_384,
                forall|k: int|
                    0 <= k < i ==> (#[trigger] self.scores()[k]) as int == spec_halved(
                        (old(self).scores()[k]) as int,
                    ),
                forall|k: int|
                    i <= k < 768 ==> (#[trigger] self.scores()[k]) == old(self).scores()[k],
            decreases 768 - i,
        {
            let v: i16 = self.table[i];
            let halved: i16 = if v >= 0 {
                v / 2
            } else {
                -((-v) / 2)
            };
            let cell = vec_index_mut(&mut self.table, i);
            *cell = halved;
            i = i + 1;
        }
    }
}

/// The gravity update never leaves the ±MAX_HISTORY band.
proof fn lemma_gravity_bound(slot: int, b: int, babs: int, prod: int, grav: int)
    requires
        -16_384 <= slot <= 16_384,
        -16_384 <= b <= 16_384,
        babs == if b >= 0 {
            b
        } else {
            -b
        },
        prod == babs * slot,
        grav == if prod >= 0 {
            prod / 16_384
        } else {
            -((-prod) / 16_384)
        },
    ensures
        -16_384 <= slot + b - grav <= 16_384,
{
    assert(-16_384 <= slot + b - grav <= 16_384) by (nonlinear_arith)
        requires
            -16_384 <= slot <= 16_384,
            -16_384 <= b <= 16_384,
            babs == if b >= 0 {
                b
            } else {
                -b
            },
            prod == babs * slot,
            grav == if prod >= 0 {
                prod / 16_384
            } else {
                -((-prod) / 16_384)
            },
    ;
}

/// A butterfly table for each (prior piece, prior to-square) pair, used for
/// the counter-move and follow-up continuation heuristics.
pub struct ContinuationHistory {
    table: Vec<PieceHistory>,
}

impl ContinuationHistory {
    pub closed spec fn tables(&self) -> Seq<PieceHistory> {
        self.table@
    }

    pub open spec fn wf(&self) -> bool {
        self.tables().len() == 384 && forall|i: int|
            0 <= i < 384 ==> (#[trigger] self.tables()[i]).wf()
    }

    /// 384 zeroed butterfly tables.
    pub fn new() -> (r: ContinuationHistory)
        ensures
            r.wf(),
    {
        let mut table: Vec<PieceHistory> = Vec::new();
        let mut i: usize = 0;
        while i < 384
            invariant
                table@.len() == i,
                i <= 384,
                forall|k: int| 0 <= k < i ==> (#[trigger] table@[k]).wf(),
            decreases 384 - i,
        {
            table.push(PieceHistory::new());
            i = i + 1;
        }
        ContinuationHistory { table }
    }

    /// The butterfly table conditioned on a prior move of `piece` to `to`.
    pub fn get(&self, piece: u8, to: u8) -> (r: &PieceHistory)
        requires
            self.wf(),
            piece < 6,
            to < 64,
        ensures
            r.wf(),
    {
        let i: usize = piece as usize * 64 + to as usize;
        &self.table[i]
    }

    /// Apply a gravity update inside the table conditioned on the prior
    /// move of `piece` to `to`: only that sub-table changes, and in it only
    /// the addressed cell, to exactly the `spec_gravity` value.
    pub fn update(&mut self, piece: u8, to: u8, color: u8, mv_piece: u8, mv_to: u8, bonus: i16)
        requires
            old(self).wf(),
            piece < 6,
            to < 64,
            color < 2,
            mv_piece < 6,
            mv_to < 64,
            -16_384 <= bonus <= 16_384,
        ensures
            final(self).wf(),
            forall|k: int|
                0 <= k < 384 && k != piece as int * 64 + to as int ==> (
                #[trigger] final(self).tables()[k]) == old(self).tables()[k],
            ({
                let sub_new = final(self).tables()[piece as int * 64 + to as int];
                let sub_old = old(self).tables()[piece as int * 64 + to as int];
                let idx = ph_index(color as int, mv_piece as int, mv_to as int);
                &&& forall|i: int|
                    0 <= i < 768 && i != idx ==> sub_new.scores()[i] == sub_old.scores()[i]
                &&& (sub_new.scores()[idx]) as int == spec_gravity(
                    (sub_old.scores()[idx]) as int,
                    bonus as int,
                )
            }),
    {
        let i: usize = piece as usize * 64 + to as usize;
        let sub = vec_index_mut(&mut self.table, i);
        sub.update(color, mv_piece, mv_to, bonus);
    }

    /// Halve every score in every table toward zero.
    pub fn decay(&mut self)
        requires
            old(self).wf(),
        ensures
            final(self).wf(),
            forall|k: int, i: int|
                0 <= k < 384 && 0 <= i < 768 ==> ((#[trigger] final(self).tables()[k].scores()[i])
                    as int) == spec_halved((old(self).tables()[k].scores()[i]) as int),
    {
        let mut i: usize = 0;
        while i < 384
            invariant
                self.tables().len() == 384,
                i <= 384,
                forall|k: int| 0 <= k < 384 ==> (#[trigger] self.tables()[k]).wf(),
                forall|k: int, t: int|
                    0 <= k < i && 0 <= t < 768 ==> ((#[trigger] self.tables()[k].scores()[t])
                        as int) == spec_halved((old(self).tables()[k].scores()[t]) as int),
                forall|k: int|
                    i <= k < 384 ==> (#[trigger] self.tables()[k]) == old(self).tables()[k],
            decreases 384 - i,
        {
            let sub = vec_index_mut(&mut self.table, i);
            sub.decay();
            i = i + 1;
        }
    }
}

} // verus!
