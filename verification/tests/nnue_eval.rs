use cozy_chess::{Board, Color, Piece};
use frostburn::chess::snapshot;
use frostburn::nnue::{Network, Nnue, NnueBackend};

const WORDS: usize = 768 * 512 + 512 + 1024;

/// Deterministic pseudo-random 16-bit weights.
fn weights() -> Vec<i16> {
    let mut v = Vec::with_capacity(WORDS);
    let mut x: u32 = 0x1234_5678;
    for _ in 0..WORDS {
        x = x.wrapping_mul(1664525).wrapping_add(1013904223);
        v.push(((x >> 16) as u16 % 61) as i16 - 30);
    }
    v
}

fn blob(words: &[i16], l1_bias: i32) -> Vec<u8> {
    let mut b = Vec::with_capacity(WORDS * 2 + 4);
    for w in words {
        b.extend_from_slice(&w.to_le_bytes());
    }
    b.extend_from_slice(&l1_bias.to_le_bytes());
    b
}

/// An independent, from-scratch evaluation with the same semantics: bias
/// plus column sums per perspective, squared clipped activation, output
/// dot, quantization divide, non-mate clamp.
fn reference_eval(board: &Board, words: &[i16], l1_bias: i32) -> i16 {
    let ft_w = &words[..768 * 512];
    let ft_bias = &words[768 * 512..768 * 512 + 512];
    let l1_w = &words[768 * 512 + 512..];

    let wk = board.king(Color::White) as usize % 8;
    let bk = board.king(Color::Black) as usize % 8;
    let wflip: usize = if wk < 4 { 0 } else { 7 };
    let bflip: usize = if bk < 4 { 120 } else { 127 };

    let acc = |flip: usize| -> Vec<i32> {
        let mut v: Vec<i32> = ft_bias.iter().map(|&b| b as i32).collect();
        for color in 0..2 {
            for piece in 0..6 {
                let bb = board
                    .colored_pieces(Color::index(color), Piece::index(piece))
                    .0;
                for sq in 0..64 {
                    if bb >> sq & 1 == 1 {
                        let f = ((piece * 2 + color) * 64 + sq) ^ flip;
                        for j in 0..512 {
                            v[j] += ft_w[f * 512 + j] as i32;
                        }
                    }
                }
            }
        }
        v
    };
    let w = acc(wflip);
    let b = acc(bflip);
    let (stm, nstm) = if board.side_to_move() == Color::White {
        (w, b)
    } else {
        (b, w)
    };
    let mut sum: i64 = 0;
    for i in 0..1024 {
        let a = (if i < 512 { stm[i] } else { nstm[i - 512] }).clamp(0, 256) as i64;
        sum += a * a * l1_w[i] as i64;
    }
    let raw = sum + l1_bias as i64;
    let scaled = if raw >= 0 { raw / 16384 } else { -(-raw / 16384) };
    scaled.clamp(-29_000, 29_000) as i16
}

fn infer_lib(nnue: &mut Nnue, net: &Network, board: &Board) -> i16 {
    let o = snapshot(board);
    let stm = board.side_to_move() as u8;
    let wk = board.king(Color::White) as u8 % 8;
    let bk = board.king(Color::Black) as u8 % 8;
    nnue.infer(net, &o, stm, wk, bk, NnueBackend::Scalar).value()
}

#[test]
fn from_bytes_rejects_wrong_length() {
    assert!(Network::from_bytes(&vec![0u8; 10]).is_none());
    assert!(Network::from_bytes(&vec![0u8; WORDS * 2 + 3]).is_none());
    assert!(Network::from_bytes(&vec![0u8; WORDS * 2 + 4]).is_some());
}

#[test]
fn zero_network_evaluates_to_zero() {
    let net = Network::zeroed();
    let mut nnue = Nnue::new(&net);
    let board = Board::startpos();
    assert_eq!(infer_lib(&mut nnue, &net, &board), 0);
}

#[test]
fn inference_matches_reference_on_startpos() {
    let words = weights();
    let net = Network::from_bytes(&blob(&words, 12345)).unwrap();
    let mut nnue = Nnue::new(&net);
    let board = Board::startpos();
    assert_eq!(
        infer_lib(&mut nnue, &net, &board),
        reference_eval(&board, &words, 12345)
    );
}

#[test]
fn incremental_accumulator_tracks_any_sequence() {
    // After every played move, the incrementally updated accumulator must
    // give the same score as a from-scratch evaluation.
    let words = weights();
    let net = Network::from_bytes(&blob(&words, -777)).unwrap();
    let mut nnue = Nnue::new(&net);
    let mut board = Board::startpos();
    let game = ["e2e4", "e7e5", "g1f3", "b8c6", "f1c4", "g8f6", "d2d3", "f8c5", "c1e3", "c5e3", "f2e3", "d7d6"];
    for mv in game {
        board.play(mv.parse().unwrap());
        assert_eq!(
            infer_lib(&mut nnue, &net, &board),
            reference_eval(&board, &words, -777),
            "diverged after {mv}"
        );
    }
}

#[test]
fn backend_listing() {
    let backends = NnueBackend::available();
    assert_eq!(backends.len(), 1);
    assert_eq!(backends[0].name(), "scalar");
}
