//! Board squares, their two-character notation, and move records.

use vstd::prelude::*;

use crate::pieces::{glyph, same_piece, Color, Piece, PieceType};
use crate::text::push_char;

verus! {

/// A square: column `x` (file a..h) and row `y`, where row 0 is Black's
/// back rank (rank 8) and row 7 is White's back rank (rank 1).
#[derive(Debug, Clone, Copy, PartialEq, Eq, Structural)]
pub struct Coords {
    pub x: u8,
    pub y: u8,
}

/// Why a square's notation was not accepted.
#[derive(Debug, Clone, Copy, PartialEq, Eq, Structural)]
pub enum ParseCoordsError {
    /// The text is not exactly two characters long.
    WrongLength,
    /// The first character is not a file letter `a`..`h`.
    BadFile,
    /// The second character is not a rank digit `1`..`8`.
    BadRank,
}

/// The file letter of column `x`.
pub open spec fn file_char(x: int) -> char {
    (97 + x) as char
}

/// The rank digit of row `y`: rank `8 - y`.
pub open spec fn rank_char(y: int) -> char {
    (56 - y) as char
}

/// The two-character notation of a square, such as "e4".
pub open spec fn notation(c: Coords) -> Seq<char> {
    seq![file_char(c.x as int), rank_char(c.y as int)]
}

/// The square that a two-character notation names, or why there is none.
pub open spec fn parse_notation(s: Seq<char>) -> Result<Coords, ParseCoordsError> {
    if s.len() != 2 {
        Err(ParseCoordsError::WrongLength)
    } else if !('a' <= s[0] <= 'h') {
        Err(ParseCoordsError::BadFile)
    } else if !('1' <= s[1] <= '8') {
        Err(ParseCoordsError::BadRank)
    } else {
        Ok(Coords { x: (s[0] as int - 97) as u8, y: (56 - s[1] as int) as u8 })
    }
}

impl Coords {
    /// The square lies on the board.
    pub open spec fn wf(self) -> bool {
        self.x < 8 && self.y < 8
    }

    pub fn new(x: u8, y: u8) -> (r: Coords)
        requires
            x < 8,
            y < 8,
        ensures
            r == (Coords { x, y }),
            r.wf(),
    {
        Coords { x, y }
    }

    /// File letter and rank number.
    pub fn standard(&self) -> (r: (char, u8))
        requires
            self.wf(),
        ensures
            r.0 == file_char(self.x as int),
            r.1 == 8 - self.y,
    {
        ((self.x + 97) as char, 8 - self.y)
    }

    /// The row counted from one.
    pub fn row(&self) -> (r: u8)
        requires
            self.wf(),
        ensures
            r == self.y + 1,
    {
        self.y + 1
    }

    /// The file letter.
    pub fn col(&self) -> (r: char)
        requires
            self.wf(),
        ensures
            r == file_char(self.x as int),
    {
        (self.x + 97) as char
    }

    /// Column and row as a pair.
    pub fn rdr(&self) -> (r: (u8, u8))
        ensures
            r == (self.x, self.y),
    {
        (self.x, self.y)
    }

    /// Reads a square from its two-character notation.
    pub fn parse(s: &str) -> (r: Result<Coords, ParseCoordsError>)
        ensures
            r == parse_notation(s@),
            r matches Ok(c) ==> c.wf(),
    {
        if s.unicode_len() != 2 {
            return Err(ParseCoordsError::WrongLength);
        }
        let f = s.get_char(0);
        let d = s.get_char(1);
        if !('a' <= f && f <= 'h') {
            return Err(ParseCoordsError::BadFile);
        }
        if !('1' <= d && d <= '8') {
            return Err(ParseCoordsError::BadRank);
        }
        let x = (f as u32 - 97) as u8;
        let y = (56 - d as u32) as u8;
        Ok(Coords { x, y })
    }

    /// The square's two-character notation.
    pub fn to_string(&self) -> (r: String)
        requires
            self.wf(),
        ensures
            r@ == notation(*self),
    {
        let (f, d) = self.standard();
        let mut s = String::new();
        push_char(&mut s, f);
        push_char(&mut s, ((d as u32) + 48) as u8 as char);
        s
    }
}

impl std::str::FromStr for Coords {
    type Err = ParseCoordsError;

    fn from_str(s: &str) -> (r: Result<Coords, ParseCoordsError>)
        ensures
            r == parse_notation(s@),
            r matches Ok(c) ==> c.wf(),
    {
        Coords::parse(s)
    }
}

impl From<(u8, u8)> for Coords {
    /// Pairs column and row as they are; a caller checks the range before
    /// the square reaches the board.
    fn from(t: (u8, u8)) -> (r: Coords) {
        Coords { x: t.0, y: t.1 }
    }
}

impl vstd::std_specs::convert::FromSpecImpl<(u8, u8)> for Coords {
    open spec fn obeys_from_spec() -> bool {
        true
    }

    open spec fn from_spec(t: (u8, u8)) -> Coords {
        Coords { x: t.0, y: t.1 }
    }
}

impl From<(usize, usize)> for Coords {
    /// Narrows column and row to bytes; a caller checks the range first.
    fn from(t: (usize, usize)) -> (r: Coords) {
        Coords { x: t.0 as u8, y: t.1 as u8 }
    }
}

impl vstd::std_specs::convert::FromSpecImpl<(usize, usize)> for Coords {
    open spec fn obeys_from_spec() -> bool {
        true
    }

    open spec fn from_spec(t: (usize, usize)) -> Coords {
        Coords { x: t.0 as u8, y: t.1 as u8 }
    }
}

impl From<(i32, i32)> for Coords {
    /// Narrows column and row to bytes; a caller checks the range first.
    fn from(t: (i32, i32)) -> (r: Coords) {
        Coords { x: t.0 as u8, y: t.1 as u8 }
    }
}

impl vstd::std_specs::convert::FromSpecImpl<(i32, i32)> for Coords {
    open spec fn obeys_from_spec() -> bool {
        true
    }

    open spec fn from_spec(t: (i32, i32)) -> Coords {
        Coords { x: t.0 as u8, y: t.1 as u8 }
    }
}

/// Parsing the notation of any square on the board gives that square back,
/// and formatting a parsed square gives the text back.
pub proof fn lemma_notation_round_trip(c: Coords, s: Seq<char>)
    requires
        c.wf(),
    ensures
        parse_notation(notation(c)) == Ok::<Coords, ParseCoordsError>(c),
        parse_notation(s) matches Ok(d) ==> notation(d) == s,
{
    if parse_notation(s) is Ok {
        assert(notation(parse_notation(s)->Ok_0) =~= s);
    }
}

/// A candidate or applied move: the moving piece, its origin and
/// destination, whether it captures, the kind a pawn is promoted to, and
/// whether it is a castle on either side.
#[derive(Debug, Clone, Copy)]
pub struct MoveCoords {
    pub piece: Piece,
    pub from: Coords,
    pub to: Coords,
    pub takes: bool,
    pub promotion: Option<PieceType>,
    pub king_side_castle: bool,
    pub queen_side_castle: bool,
}

/// Equality of moves: every field agrees, pieces compared as pieces.
pub open spec fn same_move(a: MoveCoords, b: MoveCoords) -> bool {
    &&& same_piece(a.piece, b.piece)
    &&& a.from == b.from
    &&& a.to == b.to
    &&& a.takes == b.takes
    &&& a.promotion == b.promotion
    &&& a.king_side_castle == b.king_side_castle
    &&& a.queen_side_castle == b.queen_side_castle
}

/// A move with no capture, promotion or castle.
pub open spec fn plain_move(piece: Piece, from: Coords, to: Coords) -> MoveCoords {
    MoveCoords {
        piece,
        from,
        to,
        takes: false,
        promotion: None,
        king_side_castle: false,
        queen_side_castle: false,
    }
}

/// A capture with no promotion or castle.
pub open spec fn capture_move(piece: Piece, from: Coords, to: Coords) -> MoveCoords {
    MoveCoords { takes: true, ..plain_move(piece, from, to) }
}

/// The text of a move: the destination alone for a pawn's quiet move;
/// otherwise the pawn's file or the piece's glyph, then `x` for a capture,
/// then the destination.
pub open spec fn move_notation(m: MoveCoords) -> Seq<char> {
    if m.piece.piece_type == PieceType::Pawn && !m.takes {
        notation(m.to)
    } else {
        let start = if m.piece.piece_type == PieceType::Pawn {
            file_char(m.from.x as int)
        } else {
            glyph(m.piece)
        };
        seq![start] + (if m.takes { seq!['x'] } else { Seq::empty() }) + notation(m.to)
    }
}

impl MoveCoords {
    /// The same move with `piece` as its promotion.
    pub fn promote(&self, piece: PieceType) -> (r: MoveCoords)
        ensures
            r == (MoveCoords { promotion: Some(piece), ..*self }),
    {
        MoveCoords {
            piece: self.piece,
            from: self.from,
            to: self.to,
            takes: self.takes,
            promotion: Some(piece),
            king_side_castle: self.king_side_castle,
            queen_side_castle: self.queen_side_castle,
        }
    }

    /// The move in algebraic-style text.
    pub fn to_string(&self) -> (r: String)
        requires
            self.from.wf(),
            self.to.wf(),
        ensures
            r@ == move_notation(*self),
    {
        let is_pawn = match self.piece.piece_type {
            PieceType::Pawn => true,
            _ => false,
        };
        let dest = self.to.to_string();
        if is_pawn && !self.takes {
            return dest;
        }
        let start = if is_pawn {
            self.from.col()
        } else {
            self.piece.glyph()
        };
        let mut s = String::new();
        push_char(&mut s, start);
        if self.takes {
            push_char(&mut s, 'x');
        }
        s.append(dest.as_str());
        proof {
            assert(s@ =~= move_notation(*self));
        }
        s
    }
}

impl Default for MoveCoords {
    fn default() -> (r: MoveCoords)
        ensures
            r == plain_move(
                Piece { piece_type: PieceType::Empty, color: Color::White },
                Coords { x: 0, y: 0 },
                Coords { x: 0, y: 0 },
            ),
    {
        MoveCoords {
            piece: Piece::empty(),
            from: Coords::new(0, 0),
            to: Coords::new(0, 0),
            takes: false,
            promotion: None,
            king_side_castle: false,
            queen_side_castle: false,
        }
    }
}

impl PartialEq for MoveCoords {
    fn eq(&self, other: &MoveCoords) -> (r: bool) {
        let promotion_eq = match (self.promotion, other.promotion) {
            (None, None) => true,
            (Some(a), Some(b)) => a == b,
            _ => false,
        };
        self.piece == other.piece && self.from == other.from && self.to == other.to
            && self.takes == other.takes && promotion_eq && self.king_side_castle
            == other.king_side_castle && self.queen_side_castle == other.queen_side_castle
    }
}

impl vstd::std_specs::cmp::PartialEqSpecImpl for MoveCoords {
    open spec fn obeys_eq_spec() -> bool {
        true
    }

    open spec fn eq_spec(&self, other: &MoveCoords) -> bool {
        same_move(*self, *other)
    }
}

/// The starting square of the rook of `color` on the given side.
pub open spec fn rook_home(color: Color, king_side: bool) -> Coords {
    Coords { x: if king_side { 7 } else { 0 }, y: home_row(color) as u8 }
}

/// The back rank of `color`.
pub open spec fn home_row(color: Color) -> int {
    match color {
        Color::White => 7,
        Color::Black => 0,
    }
}

} // verus!
