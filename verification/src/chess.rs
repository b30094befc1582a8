//! Plain value types for pieces, squares, material counts and a full board
//! position. The chess-rules collaborator owns legality; this crate only
//! reads per-square occupancy and per-role material counts, so a position is
//! modelled as 64 optional pieces in file-then-rank scan order.
use vstd::prelude::*;

verus! {

/// The two sides of a chess game; also used as the board orientation
/// (the side whose pieces face the viewer).
#[derive(Clone, Copy, Debug, PartialEq, Eq, Structural)]
pub enum Color {
    White,
    Black,
}

impl Color {
    pub open spec fn spec_other(self) -> Color {
        match self {
            Color::White => Color::Black,
            Color::Black => Color::White,
        }
    }

    /// The opposite side.
    pub fn other(self) -> (r: Color)
        ensures
            r == self.spec_other(),
    {
        match self {
            Color::White => Color::Black,
            Color::Black => Color::White,
        }
    }
}

/// The visual kind of a piece, without its color.
#[derive(Clone, Copy, Debug, PartialEq, Eq, Structural)]
pub enum Role {
    Pawn,
    Knight,
    Bishop,
    Rook,
    Queen,
    King,
}

/// A (color, role) pair identifying a piece's visual kind.
#[derive(Clone, Copy, Debug, PartialEq, Eq, Structural)]
pub struct Piece {
    pub color: Color,
    pub role: Role,
}

/// One of the 64 board cells, identified by file and rank, each 0 to 7.
/// File 0 is the queenside edge, rank 0 is white's back rank.
#[derive(Clone, Copy, Debug, PartialEq, Eq, Structural)]
pub struct Square {
    pub file: u8,
    pub rank: u8,
}

impl Square {
    pub open spec fn wf(self) -> bool {
        self.file < 8 && self.rank < 8
    }

    /// Index of this square in board scan order (rank by rank, files within).
    pub open spec fn idx(self) -> int {
        self.rank * 8 + self.file
    }

    pub fn new(file: u8, rank: u8) -> (r: Square)
        requires
            file < 8,
            rank < 8,
        ensures
            r == (Square { file, rank }),
            r.wf(),
    {
        Square { file, rank }
    }

    /// The square with the given scan-order index.
    pub fn from_index(i: u8) -> (r: Square)
        requires
            i < 64,
        ensures
            r.wf(),
            r.idx() == i,
            r == sq_of(i as int),
    {
        let r = Square { file: i % 8, rank: i / 8 };
        assert(r.idx() == i) by {
            assert(i / 8 * 8 + i % 8 == i) by (nonlinear_arith);
        };
        r
    }
}

/// The square with scan-order index `i`.
pub open spec fn sq_of(i: int) -> Square {
    Square { file: (i % 8) as u8, rank: (i / 8) as u8 }
}

/// A well-formed square is recovered from its own scan-order index.
pub proof fn lemma_sq_roundtrip(sq: Square)
    requires
        sq.wf(),
    ensures
        sq_of(sq.idx()) == sq,
        0 <= sq.idx() < 64,
{
    assert((sq.rank * 8 + sq.file) % 8 == sq.file && (sq.rank * 8 + sq.file) / 8 == sq.rank)
        by (nonlinear_arith)
        requires
            sq.file < 8,
            sq.rank < 8,
    ;
}

/// Per-role piece counts for one side, as supplied by the rules collaborator.
#[derive(Clone, Copy, Debug, PartialEq, Eq, Structural)]
pub struct MaterialSide {
    pub pawns: u8,
    pub knights: u8,
    pub bishops: u8,
    pub rooks: u8,
    pub queens: u8,
    pub kings: u8,
}

/// Material counts for both sides.
#[derive(Clone, Copy, Debug, PartialEq, Eq, Structural)]
pub struct Material {
    pub white: MaterialSide,
    pub black: MaterialSide,
}

impl Material {
    pub open spec fn spec_side(self, color: Color) -> MaterialSide {
        match color {
            Color::White => self.white,
            Color::Black => self.black,
        }
    }

    /// The counts belonging to one side.
    pub fn side(&self, color: Color) -> (r: MaterialSide)
        ensures
            r == self.spec_side(color),
    {
        match color {
            Color::White => self.white,
            Color::Black => self.black,
        }
    }
}

/// A full logical board state: for every square, the piece standing on it.
/// The view is a sequence of 64 optional pieces in square scan order.
pub struct Position {
    squares: Vec<Option<Piece>>,
}

impl View for Position {
    type V = Seq<Option<Piece>>;

    closed spec fn view(&self) -> Seq<Option<Piece>> {
        self.squares@
    }
}

impl Position {
    pub open spec fn wf(&self) -> bool {
        self@.len() == 64
    }

    /// A board with no pieces on it.
    pub fn empty() -> (r: Position)
        ensures
            r.wf(),
            forall|i: int| 0 <= i < 64 ==> r@[i] is None,
    {
        let mut v: Vec<Option<Piece>> = Vec::new();
        let mut i: usize = 0;
        while i < 64
            invariant
                i <= 64,
                v@.len() == i,
                forall|k: int| 0 <= k < i ==> v@[k] is None,
            decreases 64 - i,
        {
            v.push(None);
            i = i + 1;
        }
        Position { squares: v }
    }

    /// Puts `p` (a piece, or nothing) on `sq`, replacing what stood there.
    pub fn put(&mut self, sq: Square, p: Option<Piece>)
        requires
            old(self).wf(),
            sq.wf(),
        ensures
            final(self).wf(),
            final(self)@ == old(self)@.update(sq.idx(), p),
    {
        let i: usize = (sq.rank as usize) * 8 + (sq.file as usize);
        self.squares[i] = p;
    }

    /// The piece standing on `sq`, if any.
    pub fn piece_at(&self, sq: Square) -> (r: Option<Piece>)
        requires
            self.wf(),
            sq.wf(),
        ensures
            r == self@[sq.idx()],
    {
        let i: usize = (sq.rank as usize) * 8 + (sq.file as usize);
        self.squares[i]
    }
}

} // verus!
