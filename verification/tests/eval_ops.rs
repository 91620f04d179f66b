use frostburn::params::log_fp;
use frostburn::Eval;

#[test]
fn cp_and_value_round_trip() {
    assert_eq!(Eval::cp(123).value(), 123);
    assert_eq!(Eval::cp(-321).value(), -321);
    assert_eq!(Eval::cp(0).value(), 0);
}

#[test]
fn mate_encodings() {
    assert_eq!(Eval::mated(0).value(), -30_000);
    assert_eq!(Eval::mating(0).value(), 30_000);
    assert_eq!(Eval::mated(5).value(), -29_995);
    assert_eq!(Eval::mating(3).value(), 29_997);
}

#[test]
fn mate_band_predicates() {
    assert!(Eval::mated(0).is_mate());
    assert!(Eval::mating(12).is_mate());
    assert!(!Eval::cp(29_000).is_mate());
    assert!(!Eval::cp(-29_000).is_mate());
    assert!(Eval::cp(29_001).is_mate());
    assert!(Eval::mated(7).losing());
    assert!(!Eval::mating(7).losing());
    assert!(!Eval::cp(-100).losing());
}

#[test]
fn clamp_nonmate_squeezes_mates() {
    assert_eq!(Eval::mating(1).clamp_nonmate().value(), 29_000);
    assert_eq!(Eval::mated(1).clamp_nonmate().value(), -29_000);
    assert_eq!(Eval::cp(1234).clamp_nonmate().value(), 1234);
}

#[test]
fn time_shift_round_trip() {
    // Storing at ply 7 then reading back at ply 7 reproduces a mate score.
    let m = Eval::mating(9);
    assert_eq!(m.sub_time(7).add_time(7), m);
    let n = Eval::mated(4);
    assert_eq!(n.sub_time(3).add_time(3), n);
    // Non-mate scores are never adjusted.
    let c = Eval::cp(250);
    assert_eq!(c.sub_time(100), c);
    assert_eq!(c.add_time(100), c);
}

#[test]
fn saturating_offsets() {
    assert_eq!(Eval::cp(29_990).add(100).value(), 30_000);
    assert_eq!(Eval::cp(-29_990).sub(100).value(), -30_000);
    assert_eq!(Eval::cp(10).add(20).value(), 30);
    assert_eq!(Eval::cp(10).sub(20).value(), -10);
}

#[test]
fn negation_and_comparisons() {
    assert_eq!(Eval::cp(17).neg().value(), -17);
    assert!(Eval::cp(5).gt(Eval::cp(4)));
    assert!(Eval::cp(4).lt(Eval::cp(5)));
    assert!(Eval::cp(4).le(Eval::cp(4)));
    assert!(Eval::cp(4).ge(Eval::cp(4)));
    assert_eq!(Eval::cp(30).diff(Eval::cp(-12)), 42);
}

#[test]
fn mate_distance_in_moves() {
    // mating in 1 ply: mate in 1 move.
    assert_eq!(Eval::mating(1).mate_moves(), 1);
    assert_eq!(Eval::mating(2).mate_moves(), 1);
    assert_eq!(Eval::mating(3).mate_moves(), 2);
    assert_eq!(Eval::mated(1).mate_moves(), -1);
    assert_eq!(Eval::mated(4).mate_moves(), -2);
    assert_eq!(Eval::cp(77).mate_moves(), 0);
}

#[test]
fn reduction_log_table_values() {
    assert_eq!(log_fp(0), 0);
    assert_eq!(log_fp(1), 0);
    assert_eq!(log_fp(2), 177); // round(ln(2) * 256)
    assert_eq!(log_fp(9), 562); // round(ln(9) * 256)
    assert_eq!(log_fp(31), 879); // round(ln(31) * 256)
    assert_eq!(log_fp(1000), 879); // saturates at the last entry
}
