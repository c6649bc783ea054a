//! The board: an 8×8 grid of pieces, the side to move, and the history of
//! applied moves, which alone decides castling rights.

use vstd::prelude::*;

use crate::coords::{home_row, rook_home, same_move, Coords, MoveCoords};
use crate::pieces::{glyph, opposite, same_piece, Color, Piece, PieceType};
use crate::text::push_char;

verus! {

/// What a board holds, as mathematical values: `grid[y][x]` is the piece
/// on column `x` of row `y`.
pub struct BoardView {
    pub grid: Seq<Seq<Piece>>,
    pub turn: Color,
    pub moves: Seq<MoveCoords>,
}

/// Whether column `x`, row `y` lies on the board.
pub open spec fn on_board(x: int, y: int) -> bool {
    0 <= x < 8 && 0 <= y < 8
}

/// The square at column `x`, row `y`.
pub open spec fn square(x: int, y: int) -> Coords {
    Coords { x: x as u8, y: y as u8 }
}

/// The empty cell.
pub open spec fn no_piece() -> Piece {
    Piece { piece_type: PieceType::Empty, color: Color::White }
}

/// `m` was made by a piece of kind `t` and color `color`.
pub open spec fn moved_by(m: MoveCoords, t: PieceType, color: Color) -> bool {
    m.piece.piece_type == t && m.piece.color == color
}

/// The kind that starts on column `x` of a back rank.
pub open spec fn back_rank_kind(x: int) -> PieceType {
    if x == 0 || x == 7 {
        PieceType::Rook
    } else if x == 1 || x == 6 {
        PieceType::Knight
    } else if x == 2 || x == 5 {
        PieceType::Bishop
    } else if x == 3 {
        PieceType::Queen
    } else {
        PieceType::King
    }
}

/// The piece on column `x`, row `y` of the starting position.
pub open spec fn initial_piece(x: int, y: int) -> Piece {
    if y == 0 {
        Piece { piece_type: back_rank_kind(x), color: Color::Black }
    } else if y == 1 {
        Piece { piece_type: PieceType::Pawn, color: Color::Black }
    } else if y == 6 {
        Piece { piece_type: PieceType::Pawn, color: Color::White }
    } else if y == 7 {
        Piece { piece_type: back_rank_kind(x), color: Color::White }
    } else {
        no_piece()
    }
}

/// The standard starting position, White to move, no history.
pub open spec fn initial_board() -> BoardView {
    BoardView {
        grid: Seq::new(8, |y: int| Seq::new(8, |x: int| initial_piece(x, y))),
        turn: Color::White,
        moves: Seq::empty(),
    }
}

/// The text of a row: each glyph between two blanks.
pub open spec fn render_row(row: Seq<Piece>) -> Seq<char>
    decreases row.len(),
{
    if row.len() == 0 {
        Seq::empty()
    } else {
        render_row(row.drop_last()) + seq![' ', glyph(row.last()), ' ']
    }
}

/// The text of a grid: each row's text followed by a line break.
pub open spec fn render(grid: Seq<Seq<Piece>>) -> Seq<char>
    decreases grid.len(),
{
    if grid.len() == 0 {
        Seq::empty()
    } else {
        render(grid.drop_last()) + render_row(grid.last()) + seq!['\n']
    }
}

impl BoardView {
    /// Eight rows of eight cells.
    pub open spec fn wf(self) -> bool {
        self.grid.len() == 8 && forall|y: int| 0 <= y < 8 ==> (#[trigger] self.grid[y]).len() == 8
    }

    /// The piece on column `x`, row `y`.
    pub open spec fn cell(self, x: int, y: int) -> Piece {
        self.grid[y][x]
    }

    /// The piece on square `c`.
    pub open spec fn at(self, c: Coords) -> Piece {
        self.cell(c.x as int, c.y as int)
    }

    pub open spec fn is_empty_at(self, x: int, y: int) -> bool {
        self.cell(x, y).piece_type == PieceType::Empty
    }

    /// The color on square `c`, if a piece stands there.
    pub open spec fn color_at(self, c: Coords) -> Option<Color> {
        if self.at(c).piece_type == PieceType::Empty {
            None
        } else {
            Some(self.at(c).color)
        }
    }

    /// The same board with `p` on column `x`, row `y`.
    pub open spec fn set_cell(self, x: int, y: int, p: Piece) -> BoardView {
        BoardView { grid: self.grid.update(y, self.grid[y].update(x, p)), ..self }
    }

    /// The king of `color` appears as the mover of some recorded move.
    pub open spec fn king_has_moved(self, color: Color) -> bool {
        exists|i: int| 0 <= i < self.moves.len() && #[trigger] moved_by(self.moves[i], PieceType::King, color)
    }

    /// A rook of `color` has moved away from the starting square on the
    /// given side in some recorded move.
    pub open spec fn rook_has_moved(self, color: Color, king_side: bool) -> bool {
        exists|i: int|
            0 <= i < self.moves.len() && #[trigger] moved_by(self.moves[i], PieceType::Rook, color)
                && self.moves[i].from == rook_home(color, king_side)
    }

    /// Every square strictly between the king's and the rook's starting
    /// squares on the given side is empty.
    pub open spec fn path_clear(self, color: Color, king_side: bool) -> bool {
        let y = home_row(color);
        if king_side {
            self.is_empty_at(5, y) && self.is_empty_at(6, y)
        } else {
            self.is_empty_at(1, y) && self.is_empty_at(2, y) && self.is_empty_at(3, y)
        }
    }

    /// `color` may castle on the given side: neither its king nor that
    /// rook has moved, a rook stands on the rook's square, and the path
    /// between them is clear.
    pub open spec fn can_castle(self, color: Color, king_side: bool) -> bool {
        &&& !self.king_has_moved(color)
        &&& !self.rook_has_moved(color, king_side)
        &&& self.at(rook_home(color, king_side)).piece_type == PieceType::Rook
        &&& self.path_clear(color, king_side)
    }

    /// Some pseudo-legal move from `from` carries a promotion.
    pub open spec fn can_promote(self, from: Coords) -> bool {
        let ms = self.possible_moves(from);
        exists|i: int| 0 <= i < ms.len() && (#[trigger] ms[i]).promotion is Some
    }

    /// Some pseudo-legal move from `from` to `to` carries a promotion.
    pub open spec fn is_promote(self, from: Coords, to: Coords) -> bool {
        let ms = self.possible_moves(from);
        exists|i: int| 0 <= i < ms.len() && (#[trigger] ms[i]).to == to && ms[i].promotion is Some
    }

    /// Some pseudo-legal move from `from` to `to` is a capture.
    pub open spec fn can_take(self, from: Coords, to: Coords) -> bool {
        let ms = self.possible_moves(from);
        exists|i: int| 0 <= i < ms.len() && (#[trigger] ms[i]).to == to && ms[i].takes
    }

    /// The move that a request from `from` to `to` stands for: nothing
    /// from an empty square; a castle when the column changes by two and
    /// that castle is allowed; otherwise an ordinary move, a capture when
    /// the generator has one to `to`, keeping the promotion only when some
    /// move from `from` promotes.
    pub open spec fn parse_request(self, from: Coords, to: Coords, promotion: Option<PieceType>) -> Option<MoveCoords> {
        let piece = self.at(from);
        let dx = to.x - from.x;
        let castle = MoveCoords {
            piece,
            from,
            to,
            takes: false,
            promotion: None,
            king_side_castle: false,
            queen_side_castle: false,
        };
        if piece.piece_type == PieceType::Empty {
            None
        } else if dx == 2 && self.can_castle(piece.color, true) {
            Some(MoveCoords { king_side_castle: true, ..castle })
        } else if dx == -2 && self.can_castle(piece.color, false) {
            Some(MoveCoords { queen_side_castle: true, ..castle })
        } else {
            Some(
                MoveCoords {
                    takes: self.can_take(from, to),
                    promotion: if self.can_promote(from) {
                        promotion
                    } else {
                        None
                    },
                    ..castle
                },
            )
        }
    }

    /// `mc`'s piece stands on its origin, belongs to the side to move, and
    /// `mc` is one of the pseudo-legal moves from there.
    pub open spec fn valid_move(self, mc: MoveCoords) -> bool {
        let ms = self.possible_moves(mc.from);
        &&& same_piece(self.at(mc.from), mc.piece)
        &&& mc.piece.color == self.turn
        &&& exists|i: int| 0 <= i < ms.len() && same_move(#[trigger] ms[i], mc)
    }

    /// The grid after the rewrite of a move: a castle of the color on
    /// `from` rewrites its back rank; an ordinary move puts the piece on
    /// `from`, promoted if asked, onto `to` and empties `from`.
    pub open spec fn rewrite(
        self,
        from: Coords,
        to: Coords,
        promotion: Option<PieceType>,
        king_side: bool,
        queen_side: bool,
    ) -> BoardView {
        let p0 = self.at(from);
        let p = match promotion {
            Some(k) => Piece { piece_type: k, color: p0.color },
            None => p0,
        };
        let c = p.color;
        let y = home_row(c);
        let king = Piece { piece_type: PieceType::King, color: c };
        let rook = Piece { piece_type: PieceType::Rook, color: c };
        if king_side && !queen_side {
            self.set_cell(4, y, no_piece()).set_cell(5, y, rook).set_cell(6, y, king).set_cell(
                7,
                y,
                no_piece(),
            )
        } else if !king_side && queen_side {
            self.set_cell(0, y, no_piece()).set_cell(1, y, no_piece()).set_cell(2, y, king).set_cell(
                3,
                y,
                rook,
            ).set_cell(4, y, no_piece())
        } else if !king_side && !queen_side {
            self.set_cell(to.x as int, to.y as int, p).set_cell(from.x as int, from.y as int, no_piece())
        } else {
            self
        }
    }

    /// The board after `mc` is applied: its rewrite, the other side to
    /// move, and `mc` recorded.
    pub open spec fn apply(self, mc: MoveCoords) -> BoardView {
        let b = self.rewrite(mc.from, mc.to, mc.promotion, mc.king_side_castle, mc.queen_side_castle);
        BoardView { turn: opposite(self.turn), moves: self.moves.push(mc), ..b }
    }

    /// The board after a request to move from `from` to `to`, or `None`
    /// when the request is refused.
    pub open spec fn move_result(self, from: Coords, to: Coords, promotion: Option<PieceType>) -> Option<BoardView> {
        match self.parse_request(from, to, promotion) {
            Some(mc) => if self.valid_move(mc) {
                Some(self.apply(mc))
            } else {
                None
            },
            None => None,
        }
    }
}

/// The game position: `state[y][x]` is the piece on column `x` of row `y`,
/// `turn` the side to move, `moves` every applied move in order.
pub struct Board {
    pub state: [[Piece; 8]; 8],
    pub turn: Color,
    pub moves: Vec<MoveCoords>,
}

impl View for Board {
    type V = BoardView;

    open spec fn view(&self) -> BoardView {
        BoardView {
            grid: Seq::new(8, |y: int| self.state[y]@),
            turn: self.turn,
            moves: self.moves@,
        }
    }
}

impl Board {
    /// A board in the standard starting position, White to move.
    pub fn new() -> (r: Board)
        ensures
            r@ == initial_board(),
    {
        let state = [
            [
                Piece::black(PieceType::Rook),
                Piece::black(PieceType::Knight),
                Piece::black(PieceType::Bishop),
                Piece::black(PieceType::Queen),
                Piece::black(PieceType::King),
                Piece::black(PieceType::Bishop),
                Piece::black(PieceType::Knight),
                Piece::black(PieceType::Rook),
            ],
            [Piece::black(PieceType::Pawn); 8],
            [Piece::empty(); 8],
            [Piece::empty(); 8],
            [Piece::empty(); 8],
            [Piece::empty(); 8],
            [Piece::white(PieceType::Pawn); 8],
            [
                Piece::white(PieceType::Rook),
                Piece::white(PieceType::Knight),
                Piece::white(PieceType::Bishop),
                Piece::white(PieceType::Queen),
                Piece::white(PieceType::King),
                Piece::white(PieceType::Bishop),
                Piece::white(PieceType::Knight),
                Piece::white(PieceType::Rook),
            ],
        ];
        let b = Board { state, turn: Color::White, moves: Vec::new() };
        assert(b@.grid =~~= initial_board().grid);
        assert(b@.moves =~= initial_board().moves);
        b
    }

    pub fn get_piece(&self, coord: Coords) -> (r: Piece)
        requires
            coord.wf(),
        ensures
            r == self@.at(coord),
    {
        self.state[coord.y as usize][coord.x as usize]
    }

    /// Whether `piece` stands on `coord`.
    pub fn piece_present(&self, piece: Piece, coord: Coords) -> (r: bool)
        requires
            coord.wf(),
        ensures
            r == same_piece(self@.at(coord), piece),
    {
        self.state[coord.y as usize][coord.x as usize] == piece
    }

    pub fn is_empty(&self, coord: Coords) -> (r: bool)
        requires
            coord.wf(),
        ensures
            r == self@.is_empty_at(coord.x as int, coord.y as int),
    {
        self.state[coord.y as usize][coord.x as usize].piece_type == PieceType::Empty
    }

    /// Whether a piece of the side to move stands on `coord`; never for an
    /// empty square.
    pub fn movable_piece(&self, coord: Coords) -> (r: bool)
        requires
            coord.wf(),
        ensures
            r == (self@.at(coord).piece_type != PieceType::Empty && self@.at(coord).color
                == self@.turn),
    {
        let p = self.state[coord.y as usize][coord.x as usize];
        p.piece_type != PieceType::Empty && p.color == self.turn
    }

    pub fn piece_color(&self, coord: Coords) -> (r: Option<Color>)
        requires
            coord.wf(),
        ensures
            r == self@.color_at(coord),
    {
        if self.is_empty(coord) {
            return None;
        }
        Some(self.state[coord.y as usize][coord.x as usize].color)
    }

    pub fn king_has_moved(&self, color: Color) -> (r: bool)
        ensures
            r == self@.king_has_moved(color),
    {
        let mut i: usize = 0;
        while i < self.moves.len()
            invariant
                0 <= i <= self.moves.len(),
                forall|j: int| 0 <= j < i ==> !#[trigger] moved_by(self.moves@[j], PieceType::King, color),
            decreases self.moves.len() - i,
        {
            let m = &self.moves[i];
            if m.piece.piece_type == PieceType::King && m.piece.color == color {
                assert(moved_by(self@.moves[i as int], PieceType::King, color));
                return true;
            }
            i += 1;
        }
        false
    }

    pub fn rook_has_moved(&self, color: Color, king_side: bool) -> (r: bool)
        ensures
            r == self@.rook_has_moved(color, king_side),
    {
        let home = rook_start(color, king_side);
        let mut i: usize = 0;
        while i < self.moves.len()
            invariant
                0 <= i <= self.moves.len(),
                home == rook_home(color, king_side),
                forall|j: int|
                    0 <= j < i ==> !(#[trigger] moved_by(self.moves@[j], PieceType::Rook, color)
                        && self.moves@[j].from == home),
            decreases self.moves.len() - i,
        {
            let m = &self.moves[i];
            if m.piece.piece_type == PieceType::Rook && m.piece.color == color && m.from == home {
                assert(moved_by(self@.moves[i as int], PieceType::Rook, color));
                return true;
            }
            i += 1;
        }
        false
    }

    /// Whether `color` may castle on the given side.
    pub fn can_castle(&self, color: Color, king_side: bool) -> (r: bool)
        ensures
            r == self@.can_castle(color, king_side),
    {
        if self.king_has_moved(color) {
            return false;
        }
        if self.rook_has_moved(color, king_side) {
            return false;
        }
        let home = rook_start(color, king_side);
        let y = home.y;
        if self.state[y as usize][home.x as usize].piece_type != PieceType::Rook {
            return false;
        }
        if king_side {
            self.is_empty(Coords::new(5, y)) && self.is_empty(Coords::new(6, y))
        } else {
            self.is_empty(Coords::new(1, y)) && self.is_empty(Coords::new(2, y))
                && self.is_empty(Coords::new(3, y))
        }
    }

    /// Places `p` on column `x`, row `y`.
    fn put(&mut self, x: u8, y: u8, p: Piece)
        requires
            x < 8,
            y < 8,
        ensures
            final(self)@ == old(self)@.set_cell(x as int, y as int, p),
    {
        self.state[y as usize][x as usize] = p;
        assert(self@.grid =~~= old(self)@.set_cell(x as int, y as int, p).grid);
    }

    /// Whether some pseudo-legal move from `from` is a promotion.
    pub fn can_promote(&self, from: Coords) -> (r: bool)
        requires
            from.wf(),
        ensures
            r == self@.can_promote(from),
    {
        let ms = self.possible_moves(from);
        let mut i: usize = 0;
        while i < ms.len()
            invariant
                0 <= i <= ms.len(),
                ms@ == self@.possible_moves(from),
                forall|j: int| 0 <= j < i ==> (#[trigger] ms@[j]).promotion is None,
            decreases ms.len() - i,
        {
            if ms[i].promotion.is_some() {
                return true;
            }
            i += 1;
        }
        false
    }

    /// Whether some pseudo-legal move from `from` to `to` is a promotion.
    pub fn is_promote(&self, from: Coords, to: Coords) -> (r: bool)
        requires
            from.wf(),
        ensures
            r == self@.is_promote(from, to),
    {
        let ms = self.possible_moves(from);
        let mut i: usize = 0;
        while i < ms.len()
            invariant
                0 <= i <= ms.len(),
                ms@ == self@.possible_moves(from),
                forall|j: int| 0 <= j < i ==> !((#[trigger] ms@[j]).to == to && ms@[j].promotion is Some),
            decreases ms.len() - i,
        {
            if ms[i].to == to && ms[i].promotion.is_some() {
                return true;
            }
            i += 1;
        }
        false
    }

    /// Whether some pseudo-legal move from `from` to `to` is a capture.
    fn can_take(&self, from: Coords, to: Coords) -> (r: bool)
        requires
            from.wf(),
        ensures
            r == self@.can_take(from, to),
    {
        let ms = self.possible_moves(from);
        let mut i: usize = 0;
        while i < ms.len()
            invariant
                0 <= i <= ms.len(),
                ms@ == self@.possible_moves(from),
                forall|j: int| 0 <= j < i ==> !((#[trigger] ms@[j]).to == to && ms@[j].takes),
            decreases ms.len() - i,
        {
            if ms[i].to == to && ms[i].takes {
                return true;
            }
            i += 1;
        }
        false
    }

    /// Whether `mc` may be played now.
    fn valid_move(&self, mc: &MoveCoords) -> (r: bool)
        requires
            mc.from.wf(),
        ensures
            r == self@.valid_move(*mc),
    {
        if !self.piece_present(mc.piece, mc.from) {
            return false;
        }
        if mc.piece.color != self.turn {
            return false;
        }
        let ms = self.possible_moves(mc.from);
        let mut i: usize = 0;
        while i < ms.len()
            invariant
                0 <= i <= ms.len(),
                ms@ == self@.possible_moves(mc.from),
                same_piece(self@.at(mc.from), mc.piece),
                mc.piece.color == self@.turn,
                forall|j: int| 0 <= j < i ==> !same_move(#[trigger] ms@[j], *mc),
            decreases ms.len() - i,
        {
            if ms[i] == *mc {
                assert(same_move(ms@[i as int], *mc));
                return true;
            }
            i += 1;
        }
        false
    }

    /// Resolves a request into a move record.
    fn parse_request(&self, from: Coords, to: Coords, promotion: Option<PieceType>) -> (r: Option<
        MoveCoords,
    >)
        requires
            from.wf(),
            to.wf(),
        ensures
            r == self@.parse_request(from, to, promotion),
    {
        let piece = self.get_piece(from);
        if piece.piece_type == PieceType::Empty {
            return None;
        }
        let dx = to.x as i8 - from.x as i8;
        let color = piece.color;
        if dx == 2 && self.can_castle(color, true) {
            return Some(
                MoveCoords {
                    piece,
                    from,
                    to,
                    takes: false,
                    promotion: None,
                    king_side_castle: true,
                    queen_side_castle: false,
                },
            );
        } else if dx == -2 && self.can_castle(color, false) {
            return Some(
                MoveCoords {
                    piece,
                    from,
                    to,
                    takes: false,
                    promotion: None,
                    king_side_castle: false,
                    queen_side_castle: true,
                },
            );
        }
        let takes = self.can_take(from, to);
        let promotion = if self.can_promote(from) {
            promotion
        } else {
            None
        };
        Some(
            MoveCoords {
                piece,
                from,
                to,
                takes,
                promotion,
                king_side_castle: false,
                queen_side_castle: false,
            },
        )
    }

    fn toggle_turn(&mut self)
        ensures
            final(self)@ == (BoardView { turn: opposite(old(self)@.turn), ..old(self)@ }),
    {
        self.turn = match self.turn {
            Color::White => Color::Black,
            Color::Black => Color::White,
        };
    }

    /// Rewrites the grid for a move and passes the turn, without checking
    /// the move.
    fn move_piece_unchecked(
        &mut self,
        from: Coords,
        to: Coords,
        promotion: Option<PieceType>,
        castle_king_side: bool,
        castle_queen_side: bool,
    )
        requires
            from.wf(),
            to.wf(),
        ensures
            final(self)@ == (BoardView {
                turn: opposite(old(self)@.turn),
                ..old(self)@.rewrite(from, to, promotion, castle_king_side, castle_queen_side)
            }),
    {
        let mut from_piece = self.get_piece(from);
        if let Some(promotion) = promotion {
            from_piece.piece_type = promotion;
        }
        let (y, king, rook) = match from_piece.color {
            Color::White => (7u8, Piece::white(PieceType::King), Piece::white(PieceType::Rook)),
            Color::Black => (0u8, Piece::black(PieceType::King), Piece::black(PieceType::Rook)),
        };
        if castle_king_side && !castle_queen_side {
            self.put(4, y, Piece::empty());
            self.put(5, y, rook);
            self.put(6, y, king);
            self.put(7, y, Piece::empty());
        } else if !castle_king_side && castle_queen_side {
            self.put(0, y, Piece::empty());
            self.put(1, y, Piece::empty());
            self.put(2, y, king);
            self.put(3, y, rook);
            self.put(4, y, Piece::empty());
        } else if !castle_king_side && !castle_queen_side {
            self.put(to.x, to.y, from_piece);
            self.put(from.x, from.y, Piece::empty());
        }
        self.toggle_turn();
    }

    /// Plays the move from `from` to `to`, promoting to `promotion` where
    /// the move promotes. Returns whether the move was applied; a refused
    /// move leaves the board as it was.
    pub fn move_piece(&mut self, from: Coords, to: Coords, promotion: Option<PieceType>) -> (r: bool)
        requires
            from.wf(),
            to.wf(),
        ensures
            r == old(self)@.move_result(from, to, promotion) is Some,
            final(self)@ == match old(self)@.move_result(from, to, promotion) {
                Some(b) => b,
                None => old(self)@,
            },
    {
        let mc = match self.parse_request(from, to, promotion) {
            Some(mc) => mc,
            None => return false,
        };
        if !self.valid_move(&mc) {
            return false;
        }
        self.move_piece_unchecked(
            from,
            to,
            mc.promotion,
            mc.king_side_castle,
            mc.queen_side_castle,
        );
        self.moves.push(mc);
        true
    }

    /// The grid as text, one line per row.
    pub fn to_string(&self) -> (r: String)
        ensures
            r@ == render(self@.grid),
    {
        let mut s = String::new();
        let mut y: usize = 0;
        while y < 8
            invariant
                y <= 8,
                s@ == render(self@.grid.take(y as int)),
            decreases 8 - y,
        {
            let ghost row = self@.grid[y as int];
            let mut x: usize = 0;
            while x < 8
                invariant
                    x <= 8,
                    y < 8,
                    row == self.state[y as int]@,
                    s@ == render(self@.grid.take(y as int)) + render_row(row.take(x as int)),
                decreases 8 - x,
            {
                push_char(&mut s, ' ');
                push_char(&mut s, self.state[y][x].glyph());
                push_char(&mut s, ' ');
                assert(row.take(x + 1).drop_last() =~= row.take(x as int));
                x += 1;
            }
            push_char(&mut s, '\n');
            assert(row.take(8) =~= row);
            assert(self@.grid.take(y + 1).drop_last() =~= self@.grid.take(y as int));
            y += 1;
        }
        assert(self@.grid.take(8) =~= self@.grid);
        s
    }

    /// A click on `clicked` with `selected` chosen before; returns what is
    /// selected afterwards. Without a selection the clicked square becomes
    /// selected. A second click on the selected square clears it. When the
    /// selected square holds a piece of the side to move, the move from it
    /// to the clicked square is tried, promoting to a queen where that
    /// move promotes, and the selection is cleared; otherwise the clicked
    /// square becomes selected.
    pub fn on_click(&mut self, selected: Option<Coords>, clicked: Coords) -> (r: Option<Coords>)
        requires
            clicked.wf(),
            selected matches Some(s) ==> s.wf(),
        ensures
            match selected {
                Some(from) => if from == clicked {
                    r is None && final(self)@ == old(self)@
                } else if old(self)@.at(from).piece_type != PieceType::Empty && old(self)@.at(
                    from,
                ).color == old(self)@.turn {
                    let promotion = if old(self)@.is_promote(from, clicked) {
                        Some(PieceType::Queen)
                    } else {
                        None
                    };
                    r is None && final(self)@ == match old(self)@.move_result(from, clicked, promotion) {
                        Some(b) => b,
                        None => old(self)@,
                    }
                } else {
                    r == Some(clicked) && final(self)@ == old(self)@
                },
                None => r == Some(clicked) && final(self)@ == old(self)@,
            },
    {
        match selected {
            Some(from) => {
                if from == clicked {
                    return None;
                }
                if self.movable_piece(from) {
                    let promotion = if self.is_promote(from, clicked) {
                        Some(PieceType::Queen)
                    } else {
                        None
                    };
                    self.move_piece(from, clicked, promotion);
                    None
                } else {
                    Some(clicked)
                }
            },
            None => Some(clicked),
        }
    }
}

/// The starting square of the rook of `color` on the given side.
pub fn rook_start(color: Color, king_side: bool) -> (r: Coords)
    ensures
        r == rook_home(color, king_side),
        r.wf(),
{
    let y: u8 = match color {
        Color::White => 7,
        Color::Black => 0,
    };
    let x: u8 = if king_side {
        7
    } else {
        0
    };
    Coords::new(x, y)
}

} // verus!
