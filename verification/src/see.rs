use vstd::prelude::*;

use crate::chess::{
    bishop_attack_set, bishop_attacks, king_attack_set, king_attacks, knight_attack_set,
    knight_attacks, pawn_attack_set, pawn_attacks, rook_attack_set, rook_attacks, Move, Occupancy,
};

verus! {

broadcast use vstd::std_specs::bits::axiom_u64_trailing_zeros;

/// Exchange values of the piece kinds: pawn 10, knight 30, bishop 33,
/// rook 50, queen 90; the king is 0 because it can never be captured.
pub open spec fn piece_value(p: int) -> int {
    if p == 0 {
        10
    } else if p == 1 {
        30
    } else if p == 2 {
        33
    } else if p == 3 {
        50
    } else if p == 4 {
        90
    } else {
        0
    }
}

fn piece_value_x(p: u8) -> (r: i32)
    requires
        p < 6,
    ensures
        r as int == piece_value(p as int),
        0 <= r <= 90,
{
    if p == 0 {
        10
    } else if p == 1 {
        30
    } else if p == 2 {
        33
    } else if p == 3 {
        50
    } else if p == 4 {
        90
    } else {
        0
    }
}

/// The pieces of kind `p` belonging to `stm` that attack `sq` through the
/// current simulated occupancy.
pub open spec fn spec_attacker_bb(o: Occupancy, occupied: u64, sq: u8, stm: int, p: int) -> u64 {
    let own = o.spec_color(stm) & o.spec_piece(p) & occupied;
    if p == 0 {
        pawn_attack_set(sq, (1 - stm) as u8) & own
    } else if p == 1 {
        knight_attack_set(sq) & own
    } else if p == 2 {
        bishop_attack_set(sq, occupied) & own
    } else if p == 3 {
        rook_attack_set(sq, occupied) & own
    } else if p == 4 {
        (bishop_attack_set(sq, occupied) | rook_attack_set(sq, occupied)) & own
    } else {
        king_attack_set(sq) & own
    }
}

/// The least valuable piece kind of `stm` attacking `sq`, or 6 when none
/// attacks it.
pub open spec fn spec_least_piece(o: Occupancy, occupied: u64, sq: u8, stm: int) -> int {
    if spec_attacker_bb(o, occupied, sq, stm, 0) != 0 {
        0
    } else if spec_attacker_bb(o, occupied, sq, stm, 1) != 0 {
        1
    } else if spec_attacker_bb(o, occupied, sq, stm, 2) != 0 {
        2
    } else if spec_attacker_bb(o, occupied, sq, stm, 3) != 0 {
        3
    } else if spec_attacker_bb(o, occupied, sq, stm, 4) != 0 {
        4
    } else if spec_attacker_bb(o, occupied, sq, stm, 5) != 0 {
        5
    } else {
        6
    }
}

/// The value `stm` extracts from an optimally played capture sequence on
/// `sq` holding a piece worth `piece_value(target)`: each side in turn may
/// stop, or must otherwise recapture with its least valuable attacker,
/// X-rays opening as captured pieces leave the occupancy.
pub open spec fn spec_see_exchange(
    o: Occupancy,
    occupied: u64,
    sq: u8,
    stm: int,
    target: int,
) -> int
    decreases occupied,
    via see_exchange_decreases
{
    let lp = spec_least_piece(o, occupied, sq, stm);
    if lp == 6 {
        0
    } else {
        let abb = spec_attacker_bb(o, occupied, sq, stm, lp);
        let tz = vstd::std_specs::bits::u64_trailing_zeros(abb);
        let occ2 = occupied & !(1u64 << tz as u64);
        let gain = piece_value(target) - spec_see_exchange(o, occ2, sq, 1 - stm, lp);
        if gain > 0 {
            gain
        } else {
            0
        }
    }
}

/// An attacker set is always a subset of the occupancy it was drawn from.
proof fn lemma_attackers_within(a: u64, c: u64, p: u64, occ: u64)
    ensures
        (a & (c & p & occ)) & occ == a & (c & p & occ),
{
    assert((a & (c & p & occ)) & occ == a & (c & p & occ)) by (bit_vector);
}

/// Clearing a bit that is set strictly shrinks the word.
proof fn lemma_clear_bit(occ: u64, abb: u64, k: u64)
    requires
        k < 64,
        (abb >> k) & 1u64 == 1u64,
        abb & occ == abb,
    ensures
        occ & !(1u64 << k) < occ,
{
    assert(occ & !(1u64 << k) < occ) by (bit_vector)
        requires
            k < 64,
            (abb >> k) & 1u64 == 1u64,
            abb & occ == abb,
    ;
}

proof fn lemma_attacker_bb_within(o: Occupancy, occupied: u64, sq: u8, stm: int, p: int)
    ensures
        spec_attacker_bb(o, occupied, sq, stm, p) & occupied == spec_attacker_bb(
            o,
            occupied,
            sq,
            stm,
            p,
        ),
{
    let c = o.spec_color(stm);
    let pc = o.spec_piece(p);
    lemma_attackers_within(pawn_attack_set(sq, (1 - stm) as u8), c, pc, occupied);
    lemma_attackers_within(knight_attack_set(sq), c, pc, occupied);
    lemma_attackers_within(bishop_attack_set(sq, occupied), c, pc, occupied);
    lemma_attackers_within(rook_attack_set(sq, occupied), c, pc, occupied);
    lemma_attackers_within(
        bishop_attack_set(sq, occupied) | rook_attack_set(sq, occupied),
        c,
        pc,
        occupied,
    );
    lemma_attackers_within(king_attack_set(sq), c, pc, occupied);
}

#[via_fn]
proof fn see_exchange_decreases(o: Occupancy, occupied: u64, sq: u8, stm: int, target: int) {
    let lp = spec_least_piece(o, occupied, sq, stm);
    if lp != 6 {
        let abb = spec_attacker_bb(o, occupied, sq, stm, lp);
        let tz = vstd::std_specs::bits::u64_trailing_zeros(abb);
        assert(abb != 0);
        lemma_attacker_bb_within(o, occupied, sq, stm, lp);
        assert((abb >> tz as u64) & 1u64 == 1u64);
        lemma_clear_bit(occupied, abb, tz as u64);
    }
}

/// One step of the exchange simulation, verified equal to its specification.
fn see_exchange(o: &Occupancy, occupied: u64, sq: u8, stm: u8, target: u8) -> (r: i32)
    requires
        sq < 64,
        stm < 2,
        target < 6,
    ensures
        r as int == spec_see_exchange(*o, occupied, sq, stm as int, target as int),
        0 <= r <= 90,
    decreases occupied,
{
    let bb0: u64 = pawn_attacks(sq, 1 - stm) & (o.color(stm) & o.pawns & occupied);
    let bb1: u64 = knight_attacks(sq) & (o.color(stm) & o.knights & occupied);
    let bb2: u64 = bishop_attacks(sq, occupied) & (o.color(stm) & o.bishops & occupied);
    let bb3: u64 = rook_attacks(sq, occupied) & (o.color(stm) & o.rooks & occupied);
    let bb4: u64 = (bishop_attacks(sq, occupied) | rook_attacks(sq, occupied)) & (o.color(stm)
        & o.queens & occupied);
    let bb5: u64 = king_attacks(sq) & (o.color(stm) & o.kings & occupied);

    let (lp, abb): (u8, u64) = if bb0 != 0 {
        (0, bb0)
    } else if bb1 != 0 {
        (1, bb1)
    } else if bb2 != 0 {
        (2, bb2)
    } else if bb3 != 0 {
        (3, bb3)
    } else if bb4 != 0 {
        (4, bb4)
    } else if bb5 != 0 {
        (5, bb5)
    } else {
        (6, 0)
    };

    if lp == 6 {
        return 0;
    }

    let tz: u32 = abb.trailing_zeros();
    proof {
        assert(abb != 0);
        assert(tz < 64);
        assert((abb >> tz as u64) & 1u64 == 1u64);
        lemma_attacker_bb_within(*o, occupied, sq, stm as int, lp as int);
        lemma_clear_bit(occupied, abb, tz as u64);
    }
    let occ2: u64 = occupied & !(1u64 << (tz as u64));
    let rec = see_exchange(o, occ2, sq, 1 - stm, lp);
    let gain = piece_value_x(target) - rec;
    if gain > 0 {
        gain
    } else {
        0
    }
}

/// The net material outcome of playing `mv` and then resolving captures on
/// its destination square with optimal play by both sides.
pub open spec fn spec_see(o: Occupancy, mv: Move, stm: int) -> int {
    let captured = match o.spec_piece_on(mv.to as int) {
        Some(p) => piece_value(p as int),
        None => 0,
    };
    let mover = match o.spec_piece_on(mv.from as int) {
        Some(p) => p as int,
        None => 0,
    };
    let occ2 = (o.spec_occupied()) & !(1u64 << mv.from as u64);
    captured - spec_see_exchange(o, occ2, mv.to, 1 - stm, mover)
}

/// Static exchange evaluation of `mv` for the side `stm` playing it.
pub fn see(o: &Occupancy, mv: Move, stm: u8) -> (r: i32)
    requires
        mv.wf(),
        stm < 2,
    ensures
        r as int == spec_see(*o, mv, stm as int),
        -90 <= r <= 90,
{
    let captured: i32 = match o.piece_on(mv.to) {
        Some(p) => piece_value_x(p),
        None => 0,
    };
    let mover: u8 = o.piece_on_or_pawn(mv.from);
    let occ2: u64 = o.occupied() & !(1u64 << mv.from);
    captured - see_exchange(o, occ2, mv.to, 1 - stm, mover)
}

/// Whether the exchange that `mv` starts nets the mover at least
/// `threshold`: true exactly when the optimal-play outcome on the
/// destination square reaches the threshold.
pub fn see_ge(o: &Occupancy, mv: Move, stm: u8, threshold: i32) -> (r: bool)
    requires
        mv.wf(),
        stm < 2,
    ensures
        r == (spec_see(*o, mv, stm as int) >= threshold),
{
    see(o, mv, stm) >= threshold
}

} // verus!
