use vstd::prelude::*;

verus! {

// Depth thresholds of the search heuristics, fixed at their tuned values.
// The margins and scale factors that feed arithmetic appear as literals at
// their use sites, each annotated with the tunable's name.

pub const RFP_MAX_DEPTH: i16 = 10;

pub const NMP_MIN_DEPTH: i16 = 4;

pub const RAZOR_MAX_DEPTH: i16 = 3;

pub const SINGULAR_MIN_DEPTH: i16 = 7;

pub const SINGULAR_TT_DEPTH: i16 = 3;

/// Natural logarithm of `i` in 1/256 units (0 for 0 and 1), saturating at
/// ln(31): the fixed-point form of the reduction log table.
pub open spec fn spec_log_fp(i: int) -> u16 {
    if i <= 1 {
        0
    } else if i == 2 {
        177
    } else if i == 3 {
        281
    } else if i == 4 {
        355
    } else if i == 5 {
        412
    } else if i == 6 {
        459
    } else if i == 7 {
        498
    } else if i == 8 {
        532
    } else if i == 9 {
        562
    } else if i == 10 {
        589
    } else if i == 11 {
        614
    } else if i == 12 {
        636
    } else if i == 13 {
        657
    } else if i == 14 {
        676
    } else if i == 15 {
        693
    } else if i == 16 {
        710
    } else if i == 17 {
        725
    } else if i == 18 {
        740
    } else if i == 19 {
        754
    } else if i == 20 {
        767
    } else if i == 21 {
        779
    } else if i == 22 {
        791
    } else if i == 23 {
        803
    } else if i == 24 {
        814
    } else if i == 25 {
        824
    } else if i == 26 {
        834
    } else if i == 27 {
        844
    } else if i == 28 {
        853
    } else if i == 29 {
        862
    } else if i == 30 {
        871
    } else {
        879
    }
}

/// The fixed-point log table lookup, saturating at its last entry.
pub fn log_fp(i: usize) -> (r: u16)
    ensures
        r == spec_log_fp(if i < 32 {
            i as int
        } else {
            31int
        }),
        r < 1024,
{
    let idx: usize = if i < 32 {
        i
    } else {
        31
    };
    if idx <= 1 {
        0
    } else if idx == 2 {
        177
    } else if idx == 3 {
        281
    } else if idx == 4 {
        355
    } else if idx == 5 {
        412
    } else if idx == 6 {
        459
    } else if idx == 7 {
        498
    } else if idx == 8 {
        532
    } else if idx == 9 {
        562
    } else if idx == 10 {
        589
    } else if idx == 11 {
        614
    } else if idx == 12 {
        636
    } else if idx == 13 {
        657
    } else if idx == 14 {
        676
    } else if idx == 15 {
        693
    } else if idx == 16 {
        710
    } else if idx == 17 {
        725
    } else if idx == 18 {
        740
    } else if idx == 19 {
        754
    } else if idx == 20 {
        767
    } else if idx == 21 {
        779
    } else if idx == 22 {
        791
    } else if idx == 23 {
        803
    } else if idx == 24 {
        814
    } else if idx == 25 {
        824
    } else if idx == 26 {
        834
    } else if idx == 27 {
        844
    } else if idx == 28 {
        853
    } else if idx == 29 {
        862
    } else if idx == 30 {
        871
    } else {
        879
    }
}

} // verus!
