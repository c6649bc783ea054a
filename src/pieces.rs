//! Piece kinds, colors and the piece value that combines them.

use vstd::prelude::*;

use crate::text::push_char;

verus! {

/// The kind of a piece; `Empty` marks a board cell that holds no piece.
#[derive(Debug, Default, Clone, Copy, PartialEq, Eq, Hash, Structural)]
pub enum PieceType {
    #[default]
    Empty,
    Pawn,
    Knight,
    Bishop,
    Rook,
    Queen,
    King,
}

/// The two sides.
#[derive(Debug, Clone, Copy, PartialEq, Eq, Hash, Structural)]
pub enum Color {
    White,
    Black,
}

/// A piece of a given kind and color. An empty cell carries `White` as
/// a placeholder color.
#[derive(Debug, Clone, Copy)]
pub struct Piece {
    pub piece_type: PieceType,
    pub color: Color,
}

/// The side that is not `c`.
pub open spec fn opposite(c: Color) -> Color {
    match c {
        Color::White => Color::Black,
        Color::Black => Color::White,
    }
}

/// Equality of pieces: the kinds agree, and so do the colors unless both
/// cells are empty.
pub open spec fn same_piece(a: Piece, b: Piece) -> bool {
    a.piece_type == b.piece_type && (a.piece_type == PieceType::Empty || a.color == b.color)
}

impl Piece {
    pub fn white(piece_type: PieceType) -> (r: Piece)
        ensures
            r == (Piece { piece_type, color: Color::White }),
    {
        Piece { piece_type, color: Color::White }
    }

    pub fn black(piece_type: PieceType) -> (r: Piece)
        ensures
            r == (Piece { piece_type, color: Color::Black }),
    {
        Piece { piece_type, color: Color::Black }
    }

    pub fn empty() -> (r: Piece)
        ensures
            r == (Piece { piece_type: PieceType::Empty, color: Color::White }),
    {
        Piece { piece_type: PieceType::Empty, color: Color::White }
    }
}

impl PartialEq for Piece {
    fn eq(&self, other: &Piece) -> (r: bool) {
        self.piece_type == other.piece_type && (self.piece_type == PieceType::Empty
            || self.color == other.color)
    }
}

impl vstd::std_specs::cmp::PartialEqSpecImpl for Piece {
    open spec fn obeys_eq_spec() -> bool {
        true
    }

    open spec fn eq_spec(&self, other: &Piece) -> bool {
        same_piece(*self, *other)
    }
}

/// The long, lower-case name of a kind.
pub open spec fn kind_name(t: PieceType) -> Seq<char> {
    match t {
        PieceType::Empty => "empty"@,
        PieceType::Pawn => "pawn"@,
        PieceType::Knight => "knight"@,
        PieceType::Bishop => "bishop"@,
        PieceType::Rook => "rook"@,
        PieceType::Queen => "queen"@,
        PieceType::King => "king"@,
    }
}

/// The one-character symbol of a kind.
pub open spec fn kind_symbol(t: PieceType) -> char {
    match t {
        PieceType::Empty => ' ',
        PieceType::Pawn => 'P',
        PieceType::Knight => 'N',
        PieceType::Bishop => 'B',
        PieceType::Rook => 'R',
        PieceType::Queen => '\u{2655}',
        PieceType::King => '\u{2654}',
    }
}

/// The letter of a color.
pub open spec fn color_letter(c: Color) -> char {
    match c {
        Color::White => 'w',
        Color::Black => 'b',
    }
}

/// The chess glyph of a piece; a blank for an empty cell.
pub open spec fn glyph(p: Piece) -> char {
    match p.piece_type {
        PieceType::Empty => ' ',
        PieceType::Pawn => if p.color == Color::White { '\u{2659}' } else { '\u{265F}' },
        PieceType::Knight => if p.color == Color::White { '\u{2658}' } else { '\u{265E}' },
        PieceType::Bishop => if p.color == Color::White { '\u{2657}' } else { '\u{265D}' },
        PieceType::Rook => if p.color == Color::White { '\u{2656}' } else { '\u{265C}' },
        PieceType::Queen => if p.color == Color::White { '\u{2655}' } else { '\u{265B}' },
        PieceType::King => if p.color == Color::White { '\u{2654}' } else { '\u{265A}' },
    }
}

impl PieceType {
    /// The long name of the kind, as used in asset file names.
    pub fn name(&self) -> (r: &'static str)
        ensures
            r@ == kind_name(*self),
    {
        match self {
            PieceType::Empty => "empty",
            PieceType::Pawn => "pawn",
            PieceType::Knight => "knight",
            PieceType::Bishop => "bishop",
            PieceType::Rook => "rook",
            PieceType::Queen => "queen",
            PieceType::King => "king",
        }
    }

    /// The kind's symbol as a one-character string.
    pub fn to_string(&self) -> (r: String)
        ensures
            r@ == seq![kind_symbol(*self)],
    {
        let c = match self {
            PieceType::Empty => ' ',
            PieceType::Pawn => 'P',
            PieceType::Knight => 'N',
            PieceType::Bishop => 'B',
            PieceType::Rook => 'R',
            PieceType::Queen => '\u{2655}',
            PieceType::King => '\u{2654}',
        };
        let mut s = String::new();
        push_char(&mut s, c);
        s
    }
}

impl Color {
    /// The color's letter as a one-character string.
    pub fn to_string(&self) -> (r: String)
        ensures
            r@ == seq![color_letter(*self)],
    {
        let mut s = String::new();
        match self {
            Color::White => push_char(&mut s, 'w'),
            Color::Black => push_char(&mut s, 'b'),
        }
        s
    }
}

impl Piece {
    /// The chess glyph of the piece.
    pub fn glyph(&self) -> (r: char)
        ensures
            r == glyph(*self),
    {
        let white = match self.color {
            Color::White => true,
            Color::Black => false,
        };
        match self.piece_type {
            PieceType::Empty => ' ',
            PieceType::Pawn => if white { '\u{2659}' } else { '\u{265F}' },
            PieceType::Knight => if white { '\u{2658}' } else { '\u{265E}' },
            PieceType::Bishop => if white { '\u{2657}' } else { '\u{265D}' },
            PieceType::Rook => if white { '\u{2656}' } else { '\u{265C}' },
            PieceType::Queen => if white { '\u{2655}' } else { '\u{265B}' },
            PieceType::King => if white { '\u{2654}' } else { '\u{265A}' },
        }
    }

    /// The piece's glyph as a one-character string.
    pub fn to_string(&self) -> (r: String)
        ensures
            r@ == seq![glyph(*self)],
    {
        let mut s = String::new();
        push_char(&mut s, self.glyph());
        s
    }
}

} // verus!
