use vstd::prelude::*;

verus! {

/// A move in the engine's own representation: square indices 0..64
/// (a1 = 0, h8 = 63) and an optional promotion piece index 0..6
/// (pawn 0, knight 1, bishop 2, rook 3, queen 4, king 5).
#[derive(Copy, Clone, Debug, PartialEq, Eq, Structural)]
pub struct Move {
    pub from: u8,
    pub to: u8,
    pub promotion: Option<u8>,
}

impl Move {
    /// A well-formed move: both squares on the board, promotion a piece index.
    pub open spec fn wf(self) -> bool {
        self.from < 64 && self.to < 64 && (match self.promotion {
            Some(p) => p < 6,
            None => true,
        })
    }

    /// The null move placeholder stored when no better move is known.
    pub fn none() -> (r: Move)
        ensures
            r.from == 0 && r.to == 0 && r.promotion.is_none(),
            r.wf(),
    {
        Move { from: 0, to: 0, promotion: None }
    }

    /// Exec equality test.
    pub fn same(self, other: Move) -> (r: bool)
        ensures
            r == (self == other),
    {
        let p = match (self.promotion, other.promotion) {
            (None, None) => true,
            (Some(a), Some(b)) => a == b,
            _ => false,
        };
        self.from == other.from && self.to == other.to && p
    }
}

/// A plain-value snapshot of a position's occupancy: one bitboard per side
/// and one per piece kind, bit `sq` standing for square `sq` (a1 = 0).
#[derive(Copy, Clone, Debug, PartialEq, Eq, Structural)]
pub struct Occupancy {
    pub white: u64,
    pub black: u64,
    pub pawns: u64,
    pub knights: u64,
    pub bishops: u64,
    pub rooks: u64,
    pub queens: u64,
    pub kings: u64,
}

impl Occupancy {
    /// The occupancy of one side (White 0, Black 1).
    pub open spec fn spec_color(self, c: int) -> u64 {
        if c == 0 {
            self.white
        } else {
            self.black
        }
    }

    /// The occupancy of one piece kind (pawn 0 .. king 5).
    pub open spec fn spec_piece(self, p: int) -> u64 {
        if p == 0 {
            self.pawns
        } else if p == 1 {
            self.knights
        } else if p == 2 {
            self.bishops
        } else if p == 3 {
            self.rooks
        } else if p == 4 {
            self.queens
        } else {
            self.kings
        }
    }

    /// All occupied squares.
    pub open spec fn spec_occupied(self) -> u64 {
        self.white | self.black
    }

    pub fn color(&self, c: u8) -> (r: u64)
        requires
            c < 2,
        ensures
            r == self.spec_color(c as int),
    {
        if c == 0 {
            self.white
        } else {
            self.black
        }
    }

    pub fn piece(&self, p: u8) -> (r: u64)
        requires
            p < 6,
        ensures
            r == self.spec_piece(p as int),
    {
        if p == 0 {
            self.pawns
        } else if p == 1 {
            self.knights
        } else if p == 2 {
            self.bishops
        } else if p == 3 {
            self.rooks
        } else if p == 4 {
            self.queens
        } else {
            self.kings
        }
    }

    pub fn occupied(&self) -> (r: u64)
        ensures
            r == self.spec_occupied(),
    {
        self.white | self.black
    }

    /// The piece kind standing on `sq`, if any.
    pub open spec fn spec_piece_on(self, sq: int) -> Option<u8> {
        if self.pawns & (1u64 << sq as u64) != 0 {
            Some(0u8)
        } else if self.knights & (1u64 << sq as u64) != 0 {
            Some(1u8)
        } else if self.bishops & (1u64 << sq as u64) != 0 {
            Some(2u8)
        } else if self.rooks & (1u64 << sq as u64) != 0 {
            Some(3u8)
        } else if self.queens & (1u64 << sq as u64) != 0 {
            Some(4u8)
        } else if self.kings & (1u64 << sq as u64) != 0 {
            Some(5u8)
        } else {
            None
        }
    }

    pub fn piece_on(&self, sq: u8) -> (r: Option<u8>)
        requires
            sq < 64,
        ensures
            r == self.spec_piece_on(sq as int),
            match r {
                Some(p) => p < 6,
                None => true,
            },
    {
        let bit: u64 = 1u64 << sq;
        if self.pawns & bit != 0 {
            Some(0)
        } else if self.knights & bit != 0 {
            Some(1)
        } else if self.bishops & bit != 0 {
            Some(2)
        } else if self.rooks & bit != 0 {
            Some(3)
        } else if self.queens & bit != 0 {
            Some(4)
        } else if self.kings & bit != 0 {
            Some(5)
        } else {
            None
        }
    }

    /// The piece kind on `sq`, with an empty square reading as a pawn; the
    /// callers only apply it to squares that legal moves name, which are
    /// never empty.
    pub fn piece_on_or_pawn(&self, sq: u8) -> (r: u8)
        requires
            sq < 64,
        ensures
            r < 6,
            r as int == (match self.spec_piece_on(sq as int) {
                Some(p) => p as int,
                None => 0,
            }),
    {
        match self.piece_on(sq) {
            Some(p) => p,
            None => 0,
        }
    }
}

#[verifier::external_type_specification]
#[verifier::external_body]
pub struct ExBoard(cozy_chess::Board);

/// Gather a position's occupancy bitboards into plain values.
pub fn snapshot(b: &cozy_chess::Board) -> Occupancy {
    Occupancy {
        white: board_colors(b, 0),
        black: board_colors(b, 1),
        pawns: board_pieces(b, 0),
        knights: board_pieces(b, 1),
        bishops: board_pieces(b, 2),
        rooks: board_pieces(b, 3),
        queens: board_pieces(b, 4),
        kings: board_pieces(b, 5),
    }
}

/// The attack set of a pawn of `color` on `sq`, as cozy_chess tabulates it.
pub uninterp spec fn pawn_attack_set(sq: u8, color: u8) -> u64;

/// The attack set of a knight on `sq`, as cozy_chess tabulates it.
pub uninterp spec fn knight_attack_set(sq: u8) -> u64;

/// The attack set of a king on `sq`, as cozy_chess tabulates it.
pub uninterp spec fn king_attack_set(sq: u8) -> u64;

/// The squares a bishop on `sq` attacks through occupancy `occ`, as
/// cozy_chess computes them.
pub uninterp spec fn bishop_attack_set(sq: u8, occ: u64) -> u64;

/// The squares a rook on `sq` attacks through occupancy `occ`, as
/// cozy_chess computes them.
pub uninterp spec fn rook_attack_set(sq: u8, occ: u64) -> u64;

/// Relies on cozy_chess::get_pawn_attacks: a pure table lookup on
/// (square, color).
#[verifier::external_body]
pub(crate) fn pawn_attacks(sq: u8, color: u8) -> (r: u64)
    requires
        sq < 64,
        color < 2,
    ensures
        r == pawn_attack_set(sq, color),
{
    cozy_chess::get_pawn_attacks(
        cozy_chess::Square::index(sq as usize),
        cozy_chess::Color::index(color as usize),
    ).0
}

/// Relies on cozy_chess::get_knight_moves: a pure table lookup on the square.
#[verifier::external_body]
pub(crate) fn knight_attacks(sq: u8) -> (r: u64)
    requires
        sq < 64,
    ensures
        r == knight_attack_set(sq),
{
    cozy_chess::get_knight_moves(cozy_chess::Square::index(sq as usize)).0
}

/// Relies on cozy_chess::get_king_moves: a pure table lookup on the square.
#[verifier::external_body]
pub(crate) fn king_attacks(sq: u8) -> (r: u64)
    requires
        sq < 64,
    ensures
        r == king_attack_set(sq),
{
    cozy_chess::get_king_moves(cozy_chess::Square::index(sq as usize)).0
}

/// Relies on cozy_chess::get_bishop_moves: a pure function of square and
/// blocker occupancy.
#[verifier::external_body]
pub(crate) fn bishop_attacks(sq: u8, occ: u64) -> (r: u64)
    requires
        sq < 64,
    ensures
        r == bishop_attack_set(sq, occ),
{
    cozy_chess::get_bishop_moves(
        cozy_chess::Square::index(sq as usize),
        cozy_chess::BitBoard(occ),
    ).0
}

/// Relies on cozy_chess::get_rook_moves: a pure function of square and
/// blocker occupancy.
#[verifier::external_body]
pub(crate) fn rook_attacks(sq: u8, occ: u64) -> (r: u64)
    requires
        sq < 64,
    ensures
        r == rook_attack_set(sq, occ),
{
    cozy_chess::get_rook_moves(
        cozy_chess::Square::index(sq as usize),
        cozy_chess::BitBoard(occ),
    ).0
}

/// Relies on cozy_chess::Board::hash: the Zobrist key of the position.
#[verifier::external_body]
pub(crate) fn board_hash(b: &cozy_chess::Board) -> u64 {
    b.hash()
}

/// Relies on cozy_chess::Board::side_to_move: White is 0, Black is 1.
#[verifier::external_body]
pub(crate) fn board_side_to_move(b: &cozy_chess::Board) -> (r: u8)
    ensures
        r < 2,
{
    b.side_to_move() as u8
}

/// Relies on cozy_chess::Board::halfmove_clock, which the crate caps at 100.
#[verifier::external_body]
pub(crate) fn board_halfmove_clock(b: &cozy_chess::Board) -> (r: u8)
    ensures
        r <= 100,
{
    b.halfmove_clock()
}

/// Relies on cozy_chess::Board::checkers: the set of pieces giving check.
#[verifier::external_body]
pub(crate) fn board_checkers(b: &cozy_chess::Board) -> u64 {
    b.checkers().0
}

/// Relies on cozy_chess::Board::colors: the occupancy of one side.
#[verifier::external_body]
pub(crate) fn board_colors(b: &cozy_chess::Board, color: u8) -> u64
    requires
        color < 2,
{
    b.colors(cozy_chess::Color::index(color as usize)).0
}

/// Relies on cozy_chess::Board::pieces: the occupancy of one piece kind.
#[verifier::external_body]
pub(crate) fn board_pieces(b: &cozy_chess::Board, piece: u8) -> u64
    requires
        piece < 6,
{
    b.pieces(cozy_chess::Piece::index(piece as usize)).0
}

/// Relies on cozy_chess::Board::king: the square of one side's king.
#[verifier::external_body]
pub(crate) fn board_king(b: &cozy_chess::Board, color: u8) -> (r: u8)
    requires
        color < 2,
    ensures
        r < 64,
{
    b.king(cozy_chess::Color::index(color as usize)) as u8
}

/// Relies on cozy_chess::Board::clone.
#[verifier::external_body]
pub(crate) fn board_clone(b: &cozy_chess::Board) -> cozy_chess::Board {
    b.clone()
}

/// Relies on cozy_chess::Board::try_play: plays the move and returns true
/// when it is legal, and leaves the board unchanged and returns false when
/// it is not.
#[verifier::external_body]
pub(crate) fn board_try_play(b: &mut cozy_chess::Board, mv: Move) -> bool
    requires
        mv.wf(),
{
    b.try_play(cozy_chess::Move {
        from: cozy_chess::Square::index(mv.from as usize),
        to: cozy_chess::Square::index(mv.to as usize),
        promotion: mv.promotion.map(|p| cozy_chess::Piece::index(p as usize)),
    }).is_ok()
}

/// Relies on cozy_chess::Board::null_move: the position with the turn
/// passed, or None when the side to move is in check.
#[verifier::external_body]
pub(crate) fn board_null_move(b: &cozy_chess::Board) -> Option<cozy_chess::Board> {
    b.null_move()
}

/// Relies on cozy_chess::Board::generate_moves: every legal move of the
/// position, converted square-for-square into the engine's representation.
#[verifier::external_body]
pub(crate) fn legal_moves(b: &cozy_chess::Board) -> (r: Vec<Move>)
    ensures
        forall|i: int| 0 <= i < r@.len() ==> (#[trigger] r@[i]).wf(),
{
    let mut v = Vec::new();
    b.generate_moves(|mvs| {
        for mv in mvs {
            v.push(Move {
                from: mv.from as u8,
                to: mv.to as u8,
                promotion: mv.promotion.map(|p| p as u8),
            });
        }
        false
    });
    v
}

} // verus!
