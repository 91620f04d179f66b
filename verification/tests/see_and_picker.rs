use cozy_chess::Board;
use frostburn::chess::snapshot;
use frostburn::history::PieceHistory;
use frostburn::move_picker::MovePicker;
use frostburn::see::{see, see_ge};
use frostburn::Move;

fn sq(name: &str) -> u8 {
    let b = name.as_bytes();
    (b[0] - b'a') + 8 * (b[1] - b'1')
}

fn mv(from: &str, to: &str) -> Move {
    Move { from: sq(from), to: sq(to), promotion: None }
}

#[test]
fn see_free_pawn_capture() {
    let board: Board = "4k3/8/8/3p4/4P3/8/8/4K3 w - - 0 1".parse().unwrap();
    let o = snapshot(&board);
    assert_eq!(see(&o, mv("e4", "d5"), 0), 10);
    assert!(see_ge(&o, mv("e4", "d5"), 0, 10));
    assert!(!see_ge(&o, mv("e4", "d5"), 0, 11));
}

#[test]
fn see_defended_pawn_capture_by_pawn() {
    let board: Board = "4k3/8/2p5/3p4/4P3/8/8/4K3 w - - 0 1".parse().unwrap();
    let o = snapshot(&board);
    // Pawn takes pawn, pawn recaptures: the exchange is even.
    assert_eq!(see(&o, mv("e4", "d5"), 0), 0);
    assert!(see_ge(&o, mv("e4", "d5"), 0, 0));
    assert!(!see_ge(&o, mv("e4", "d5"), 0, 1));
}

#[test]
fn see_queen_takes_defended_pawn_loses_queen() {
    let board: Board = "4k3/8/2p5/3p4/8/8/3Q4/4K3 w - - 0 1".parse().unwrap();
    let o = snapshot(&board);
    // Queen grabs a pawn worth 10, and is recaptured for 90.
    assert_eq!(see(&o, mv("d2", "d5"), 0), -80);
    assert!(see_ge(&o, mv("d2", "d5"), 0, -80));
    assert!(!see_ge(&o, mv("d2", "d5"), 0, -79));
}

#[test]
fn see_rook_takes_rook_defended_pawn() {
    let board: Board = "3rk3/8/8/3p4/8/8/8/3RK3 w - - 0 1".parse().unwrap();
    let o = snapshot(&board);
    // Rxd5 Rxd5: white wins a pawn then loses the rook: 10 - 50 = -40.
    assert_eq!(see(&o, mv("d1", "d5"), 0), -40);
}

#[test]
fn picker_orders_tt_then_captures_then_quiets() {
    let board: Board = "4k3/8/2p5/3p4/4P3/8/8/4K3 w - - 0 1".parse().unwrap();
    let o = snapshot(&board);
    let hist = PieceHistory::new();
    let capture = mv("e4", "d5");
    let quiet = mv("e1", "d1");
    let tt = mv("e1", "f1");
    let legal = vec![quiet, capture, tt];
    let mut picker = MovePicker::new(&o, 0, &legal, Some(tt), None, false, &hist, None, None);
    assert!(picker.has_moves());
    let (i0, first) = picker.next().unwrap();
    assert_eq!(i0, 0);
    assert_eq!(first.mv, tt);
    let (_, second) = picker.next().unwrap();
    assert_eq!(second.mv, capture);
    let (_, third) = picker.next().unwrap();
    assert_eq!(third.mv, quiet);
    assert!(picker.next().is_none());
}

#[test]
fn picker_filters_excluded_and_quiets() {
    let board: Board = "4k3/8/2p5/3p4/4P3/8/8/4K3 w - - 0 1".parse().unwrap();
    let o = snapshot(&board);
    let hist = PieceHistory::new();
    let capture = mv("e4", "d5");
    let quiet = mv("e1", "d1");
    let legal = vec![quiet, capture];
    // skip_quiets keeps only the capture.
    let mut p1 = MovePicker::new(&o, 0, &legal, None, None, true, &hist, None, None);
    let (_, only) = p1.next().unwrap();
    assert_eq!(only.mv, capture);
    assert!(p1.next().is_none());
    // Excluding the capture leaves only the quiet.
    let mut p2 = MovePicker::new(&o, 0, &legal, None, Some(capture), false, &hist, None, None);
    let (_, only2) = p2.next().unwrap();
    assert_eq!(only2.mv, quiet);
    assert!(p2.next().is_none());
}

#[test]
fn history_gravity_saturates() {
    let mut hist = PieceHistory::new();
    for _ in 0..100 {
        hist.update(0, 0, 0, 16_000);
    }
    let v = hist.get(0, 0, 0);
    assert!(v > 15_000 && v <= 16_384);
    for _ in 0..100 {
        hist.update(0, 0, 0, -16_000);
    }
    let w = hist.get(0, 0, 0);
    assert!(w < -15_000 && w >= -16_384);
    // An untouched cell stays zero.
    assert_eq!(hist.get(1, 3, 10), 0);
}
