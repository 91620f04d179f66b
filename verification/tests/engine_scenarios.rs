use cozy_chess::Board;
use frostburn::nnue::Network;
use frostburn::{InfoSink, Limits, LocalData, Move, Search, SearchInfo, SharedData, TimeSource};

struct TestClock {
    start: std::time::Instant,
}

impl TimeSource for TestClock {
    fn elapsed_ms(&mut self) -> u64 {
        self.start.elapsed().as_millis() as u64
    }
}

struct Collect {
    reports: Vec<(i16, i16, u64, Vec<Move>, bool)>,
}

impl InfoSink for Collect {
    fn report(&mut self, info: &SearchInfo) {
        self.reports.push((
            info.depth,
            info.score.value(),
            info.nodes,
            info.pv.clone(),
            info.finished,
        ));
    }
}

fn run_search(board: &Board, history: Vec<u64>, limits: Limits) -> Vec<(i16, i16, u64, Vec<Move>, bool)> {
    let shared = SharedData::new(1, Network::zeroed());
    let mut data = LocalData::new(&shared.net);
    let mut search = Search {
        root: board,
        history,
        clock: TestClock { start: std::time::Instant::now() },
        info: Collect { reports: vec![] },
        shared: &shared,
        limits,
    };
    search.search(&mut data);
    search.info.reports
}

fn is_legal(board: &Board, mv: Move) -> bool {
    let mut found = false;
    board.generate_moves(|mvs| {
        for m in mvs {
            if m.from as u8 == mv.from && m.to as u8 == mv.to {
                found = true;
            }
        }
        false
    });
    found
}

#[test]
fn depth_one_startpos_yields_a_legal_best_move() {
    let board = Board::startpos();
    let mut limits = Limits::default();
    limits.depth = Some(1);
    let reports = run_search(&board, vec![], limits);
    let last = reports.last().expect("at least one report");
    assert!(last.4, "final report is marked finished");
    assert_eq!(last.0, 1, "reported depth is 1");
    let best = last.3[0];
    assert!(is_legal(&board, best), "best move is one of the 20 legal moves");
}

#[test]
fn mate_in_one_is_found_and_played() {
    let board: Board = "6k1/5ppp/8/8/8/8/5PPP/R5K1 w - - 0 1".parse().unwrap();
    let mut limits = Limits::default();
    limits.depth = Some(2);
    let reports = run_search(&board, vec![], limits);
    let last = reports.last().unwrap();
    assert!(last.4);
    // mating(1): mate in one move.
    assert_eq!(last.1, 29_999, "score is mate in 1");
    let best = last.3[0];
    // a1 is square 0, a8 is square 56.
    assert_eq!((best.from, best.to, best.promotion), (0, 56, None), "bestmove a1a8");
}

#[test]
fn stalemate_scores_zero() {
    let board: Board = "7k/5Q2/6K1/8/8/8/8/8 b - - 0 1".parse().unwrap();
    let mut limits = Limits::default();
    limits.depth = Some(1);
    let reports = run_search(&board, vec![], limits);
    let last = reports.last().unwrap();
    assert!(last.4);
    assert_eq!(last.1, 0, "stalemate at the root scores cp 0");
}

#[test]
fn forced_repetition_scores_zero() {
    // White to move has a single legal move (the rook covers b1 and b2);
    // every reply to it leads to a position whose hash already appears
    // twice in the game history, so the search must score the root a draw.
    let board: Board = "7k/8/8/8/8/1r6/8/K7 w - - 90 1".parse().unwrap();
    let mut after = board.clone();
    after.play("a1a2".parse().unwrap());
    let mut history = Vec::new();
    after.generate_moves(|mvs| {
        for m in mvs {
            let mut child = after.clone();
            child.play_unchecked(m);
            history.push(child.hash());
            history.push(child.hash());
        }
        false
    });
    let mut limits = Limits::default();
    limits.depth = Some(6);
    let reports = run_search(&board, history, limits);
    let last = reports.last().unwrap();
    assert_eq!(last.1, 0, "all lines repeat: the root is a draw");
}

#[test]
fn node_limit_stops_the_search() {
    let board = Board::startpos();
    let mut limits = Limits::default();
    limits.nodes = Some(100_000);
    let reports = run_search(&board, vec![], limits);
    let last = reports.last().unwrap();
    assert!(last.4, "the search unwound and reported a final line");
    assert!(last.2 >= 100_000, "the node budget was consumed: {}", last.2);
    let best = last.3[0];
    assert!(is_legal(&board, best));
}

#[test]
fn min_nodes_limit_reports_enough_nodes() {
    let board = Board::startpos();
    let mut limits = Limits::default();
    limits.min_nodes = Some(5_000);
    let reports = run_search(&board, vec![], limits);
    let last = reports.last().unwrap();
    assert!(last.4);
    assert!(last.2 >= 5_000);
}

#[test]
fn mate_score_is_stable_at_deeper_iterations() {
    // Once a mate in one is proven, deeper searches from the same root
    // must not report a slower mate.
    let board: Board = "6k1/5ppp/8/8/8/8/5PPP/R5K1 w - - 0 1".parse().unwrap();
    for d in [2i16, 3, 4] {
        let mut limits = Limits::default();
        limits.depth = Some(d);
        let reports = run_search(&board, vec![], limits);
        let last = reports.last().unwrap();
        assert_eq!(last.1, 29_999, "depth {d} still reports mate in 1");
    }
}

#[test]
fn abort_before_search_still_completes_first_iteration() {
    // With the shared abort flag already raised, the depth-1 iteration must
    // still run to completion and deliver a legal move.
    let board = Board::startpos();
    let shared = SharedData::new(1, Network::zeroed());
    let mut data = LocalData::new(&shared.net);
    shared.abort();
    let mut search = Search {
        root: &board,
        history: vec![],
        clock: TestClock { start: std::time::Instant::now() },
        info: Collect { reports: vec![] },
        shared: &shared,
        limits: Limits::default(),
    };
    search.search(&mut data);
    let reports = search.info.reports;
    let last = reports.last().unwrap();
    assert!(last.4, "the search unwound promptly");
    assert!(is_legal(&board, last.3[0]));
}

#[test]
fn movetime_limit_stops_the_search() {
    // A hard move-time budget: the search reports at least one line and a
    // legal best move, and unwinds shortly after the limit passes.
    let board = Board::startpos();
    let mut limits = Limits::default();
    limits.move_time = Some(200);
    let start = std::time::Instant::now();
    let reports = run_search(&board, vec![], limits);
    assert!(start.elapsed().as_millis() < 10_000, "unwound promptly");
    let last = reports.last().unwrap();
    assert!(last.4);
    assert!(is_legal(&board, last.3[0]));
}
