use vstd::prelude::*;

use crate::chess::Occupancy;
use crate::nnue::bit_at;

verus! {

/// The light squares (a light square is one whose file and rank indices
/// differ in parity; h1 is light).
pub const LIGHT_SQUARES: u64 = 0x55AA_55AA_55AA_55AA;

/// The dark squares (a1 is dark).
pub const DARK_SQUARES: u64 = 0xAA55_AA55_AA55_AA55;

/// The edge squares: files a and h, ranks 1 and 8.
pub const EDGES: u64 = 0xFF81_8181_8181_81FF;

/// How many of the bits of `bb` below `hi` are set.
pub open spec fn popcnt(bb: u64, hi: int) -> int
    decreases hi,
{
    if hi <= 0 {
        0
    } else {
        popcnt(bb, hi - 1) + if bit_at(bb, hi - 1) {
            1int
        } else {
            0int
        }
    }
}

/// Count the set bits of a board.
fn count_bits(bb: u64) -> (r: u32)
    ensures
        r as int == popcnt(bb, 64),
        r <= 64,
{
    let mut r: u32 = 0;
    let mut i: u64 = 0;
    while i < 64
        invariant
            i <= 64,
            r as int == popcnt(bb, i as int),
            r <= i,
        decreases 64 - i,
    {
        if (bb >> i) & 1 == 1 {
            r = r + 1;
        }
        i = i + 1;
    }
    r
}

/// Whether a position is a certain draw by insufficient material: no pawn,
/// rook or queen; at most one side with more than a bare king; and that
/// side holding only bishops of one color, a lone knight, or two knights
/// against a king off the edge.
pub open spec fn spec_draw_oracle(o: Occupancy) -> bool {
    if o.pawns != 0 || o.rooks != 0 || o.queens != 0 {
        false
    } else {
        let wc = popcnt(o.white, 64);
        let bc = popcnt(o.black, 64);
        if wc >= 2 && bc >= 2 {
            false
        } else {
            let strong: u64 = if wc >= 2 {
                o.white
            } else {
                o.black
            };
            let weak_king: u64 = if wc >= 2 {
                o.black & o.kings
            } else {
                o.white & o.kings
            };
            let knights = popcnt(strong & o.knights, 64);
            let light = popcnt(strong & o.bishops & LIGHT_SQUARES, 64);
            let dark = popcnt(strong & o.bishops & DARK_SQUARES, 64);
            if knights == 0 && (light == 0 || dark == 0) {
                true
            } else if knights == 0 {
                false
            } else if knights == 1 && light == 0 && dark == 0 {
                true
            } else if knights == 2 && light == 0 && dark == 0 {
                weak_king & EDGES == 0
            } else {
                false
            }
        }
    }
}

/// Decide `spec_draw_oracle` on a position's occupancy.
pub fn draw_oracle(o: &Occupancy) -> (r: bool)
    ensures
        r == spec_draw_oracle(*o),
{
    if o.pawns != 0 || o.rooks != 0 || o.queens != 0 {
        return false;
    }
    let wc = count_bits(o.white);
    let bc = count_bits(o.black);
    if wc >= 2 && bc >= 2 {
        return false;
    }
    let strong: u64 = if wc >= 2 {
        o.white
    } else {
        o.black
    };
    let weak_king: u64 = if wc >= 2 {
        o.black & o.kings
    } else {
        o.white & o.kings
    };
    let knights = count_bits(strong & o.knights);
    let light = count_bits(strong & o.bishops & LIGHT_SQUARES);
    let dark = count_bits(strong & o.bishops & DARK_SQUARES);
    if knights == 0 && (light == 0 || dark == 0) {
        true
    } else if knights == 0 {
        false
    } else if knights == 1 && light == 0 && dark == 0 {
        true
    } else if knights == 2 && light == 0 && dark == 0 {
        weak_king & EDGES == 0
    } else {
        false
    }
}

} // verus!
