use core::sync::atomic::Ordering;

use frostburn::eval::Eval;
use frostburn::nnue::Network;
use frostburn::rep_table::RepetitionTable;
use frostburn::tt::{Bound, PackedMove, TranspositionTable, TtSearchEntry};
use frostburn::{Move, SharedData};

#[test]
fn packed_move_round_trip_all_squares() {
    for from in 0..64u8 {
        for to in 0..64u8 {
            for promo in [None, Some(1u8), Some(2), Some(3), Some(4)] {
                let mv = Move { from, to, promotion: promo };
                let packed = PackedMove::pack(mv);
                assert_eq!(packed.unpack(), mv);
            }
        }
    }
}

#[test]
fn packed_move_junk_promotion_decodes_none() {
    // The spare promotion codes 6 and 7 decode to "no promotion".
    let mv = Move { from: 12, to: 28, promotion: None };
    assert_eq!(PackedMove::pack(mv).unpack().promotion, None);
}

#[test]
fn bound_predicates() {
    assert!(Bound::exact_bound().exact());
    assert!(!Bound::exact_bound().lower());
    assert!(Bound::lower_bound().lower());
    assert!(Bound::upper_bound().upper());
    assert!(Bound::lower_bound().lower_or_exact());
    assert!(Bound::exact_bound().lower_or_exact());
    assert!(!Bound::upper_bound().lower_or_exact());
}

#[test]
fn bound_compute_cases() {
    let a = Eval::cp(10);
    let b = Eval::cp(50);
    assert!(Bound::compute(a, b, Eval::cp(5)).upper());
    assert!(Bound::compute(a, b, Eval::cp(10)).upper());
    assert!(Bound::compute(a, b, Eval::cp(60)).lower());
    assert!(Bound::compute(a, b, Eval::cp(30)).exact());
}

#[test]
fn tt_store_load_round_trip() {
    let tt = TranspositionTable::new(1);
    let mv = Move { from: 0, to: 56, promotion: None };
    let entry = TtSearchEntry {
        lower_hash_bits: 0,
        mv: PackedMove::pack(mv),
        score: Eval::cp(137),
        depth: 9,
        bound: Bound::exact_bound(),
    };
    let hash: u64 = 0xDEAD_BEEF_1234_5678;
    tt.store_search(hash, 3, entry);
    let (found, _) = tt.load(hash, 3);
    let found = found.expect("stored entry must be found under its own key");
    assert_eq!(found.mv.unpack(), mv);
    assert_eq!(found.score.value(), 137);
    assert_eq!(found.depth, 9);
    assert!(found.bound.exact());
}

#[test]
fn tt_mate_scores_are_ply_adjusted() {
    let tt = TranspositionTable::new(1);
    let entry = TtSearchEntry {
        lower_hash_bits: 0,
        mv: PackedMove::pack(Move { from: 1, to: 2, promotion: None }),
        score: Eval::mating(9),
        depth: 5,
        bound: Bound::lower_bound(),
    };
    let hash: u64 = 42;
    tt.store_search(hash, 4, entry);
    let (found, _) = tt.load(hash, 4);
    // Stored as distance from the entry's root, restored at the same ply.
    assert_eq!(found.unwrap().score, Eval::mating(9));
}

#[test]
fn tt_verification_bits_reject_other_keys() {
    let tt = TranspositionTable::new(1);
    let entry = TtSearchEntry {
        lower_hash_bits: 0,
        mv: PackedMove::pack(Move { from: 3, to: 4, promotion: None }),
        score: Eval::cp(1),
        depth: 1,
        bound: Bound::exact_bound(),
    };
    tt.store_search(0, 0, entry);
    // Hash 1 maps to the same bucket but has different low bits.
    let (found, _) = tt.load(1, 0);
    assert!(found.is_none());
}

#[test]
fn tt_eval_slot_round_trip() {
    let tt = TranspositionTable::new(1);
    let hash: u64 = 7_777_777;
    tt.store_eval(hash, Eval::cp(-555));
    let (_, ev) = tt.load(hash, 0);
    assert_eq!(ev.unwrap().value(), -555);
}

#[test]
fn rep_table_window_semantics() {
    let mut rep = RepetitionTable::new();
    rep.push(100);
    rep.push(200);
    rep.push(300);
    // Full window sees everything.
    assert!(rep.is_rep(100, 10));
    assert!(rep.is_rep(300, 10));
    assert!(!rep.is_rep(400, 10));
    // A window of 2 only sees the last two entries.
    assert!(!rep.is_rep(100, 2));
    assert!(rep.is_rep(200, 2));
    // Popping forgets the most recent hash.
    rep.pop();
    assert!(!rep.is_rep(300, 10));
    assert!(rep.is_rep(200, 10));
    rep.clear();
    assert!(!rep.is_rep(100, 10));
    assert!(!rep.is_rep(200, 10));
}

#[test]
fn clear_blocks_partition_and_zero_every_slot() {
    let shared = SharedData::new(1, Network::zeroed());
    // Leave junk in a few slots.
    shared.tt.store_eval(12345, Eval::cp(99));
    shared.tt.store_search(
        987654321,
        0,
        TtSearchEntry {
            lower_hash_bits: 0,
            mv: PackedMove::pack(Move { from: 8, to: 16, promotion: None }),
            score: Eval::cp(42),
            depth: 3,
            bound: Bound::exact_bound(),
        },
    );
    let blocks = shared.get_clear_tt_blocks(3);
    assert_eq!(blocks.len(), 3);
    assert_eq!(blocks[0].start, 0);
    assert_eq!(blocks[1].start, blocks[0].end);
    assert_eq!(blocks[2].start, blocks[1].end);
    assert_eq!(blocks[2].end, shared.tt.raw().len());
    for block in &blocks {
        shared.clear_tt_block(block);
    }
    for slot in shared.tt.raw().iter() {
        assert_eq!(slot.load(Ordering::Relaxed), 0);
    }
}
