use cozy_chess::Board;
use frostburn::chess::snapshot;
use frostburn::draw_oracle::draw_oracle;
use frostburn::eval::weaken;
use frostburn::Eval;

fn oracle(fen: &str) -> bool {
    let board: Board = fen.parse().unwrap();
    draw_oracle(&snapshot(&board))
}

#[test]
fn bare_kings_are_a_draw() {
    assert!(oracle("8/8/4k3/8/8/3K4/8/8 w - - 0 1"));
}

#[test]
fn lone_minor_piece_is_a_draw() {
    assert!(oracle("8/8/4k3/8/8/3KB3/8/8 w - - 0 1"));
    assert!(oracle("8/8/4k3/8/8/3KN3/8/8 w - - 0 1"));
}

#[test]
fn same_colored_bishops_are_a_draw() {
    // Both bishops on dark squares cannot force mate.
    assert!(oracle("8/8/4k3/8/8/2B1B3/8/3K4 w - - 0 1"));
}

#[test]
fn opposite_colored_bishops_are_not_a_draw() {
    // c3 is dark and d3 is light: mating material.
    assert!(!oracle("8/8/4k3/8/8/2BB4/8/3K4 w - - 0 1"));
}

#[test]
fn two_knights_depend_on_the_defending_king() {
    // Defender in the middle: two knights cannot force mate.
    assert!(oracle("8/8/4k3/8/8/2NKN3/8/8 w - - 0 1"));
    // Defender on the edge: mate can be forced.
    assert!(!oracle("4k3/8/8/8/8/2NKN3/8/8 w - - 0 1"));
}

#[test]
fn heavy_pieces_and_pawns_are_never_a_draw() {
    assert!(!oracle("8/8/4k3/8/8/2QK4/8/8 w - - 0 1"));
    assert!(!oracle("8/8/4k3/8/8/2RK4/8/8 w - - 0 1"));
    assert!(!oracle("8/8/4k3/8/8/3KP3/8/8 w - - 0 1"));
}

#[test]
fn weaken_rounds_to_the_nearest_step() {
    // Step 1 is the identity.
    assert_eq!(weaken(Eval::cp(137), 1).value(), 137);
    assert_eq!(weaken(Eval::cp(-137), 1).value(), -137);
    // Step 10 rounds the magnitude, ties away from zero.
    assert_eq!(weaken(Eval::cp(104), 10).value(), 100);
    assert_eq!(weaken(Eval::cp(105), 10).value(), 110);
    assert_eq!(weaken(Eval::cp(-105), 10).value(), -110);
    assert_eq!(weaken(Eval::cp(0), 10).value(), 0);
    // An uneven step still yields multiples of the step.
    assert_eq!(weaken(Eval::cp(1000), 101).value(), 1010);
    // Rounding up past the band edge clamps back to it.
    assert_eq!(weaken(Eval::cp(28_999), 10_000).value(), 29_000);
}
