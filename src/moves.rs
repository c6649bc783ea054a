//! Pseudo-legal move generation, one generator per piece kind. No
//! generator looks at whether the mover's own king is left attacked.

use vstd::prelude::*;

use crate::board::{on_board, square, Board, BoardView};
use crate::coords::{capture_move, plain_move, Coords, MoveCoords};
use crate::pieces::{Color, Piece, PieceType};

verus! {

/// The row a pawn of `color` starts on.
pub open spec fn pawn_start_row(color: Color) -> int {
    match color {
        Color::White => 6,
        Color::Black => 1,
    }
}

/// The row on which a pawn of `color` is promoted.
pub open spec fn promotion_row(color: Color) -> int {
    match color {
        Color::White => 0,
        Color::Black => 7,
    }
}

/// The row step of a pawn of `color`: White moves toward row 0.
pub open spec fn pawn_dir(color: Color) -> int {
    match color {
        Color::White => -1,
        Color::Black => 1,
    }
}

impl BoardView {
    /// The single step of `piece` from `from` by `(dx, dy)`: a quiet move
    /// onto an empty square, a capture onto an opposing piece, nothing if
    /// the square is off the board or holds a piece of the mover's color.
    pub open spec fn step(self, from: Coords, piece: Piece, dx: int, dy: int) -> Seq<MoveCoords> {
        let tx = from.x + dx;
        let ty = from.y + dy;
        if !on_board(tx, ty) {
            Seq::empty()
        } else if self.is_empty_at(tx, ty) {
            seq![plain_move(piece, from, square(tx, ty))]
        } else if self.cell(tx, ty).color != piece.color {
            seq![capture_move(piece, from, square(tx, ty))]
        } else {
            Seq::empty()
        }
    }

    /// The ray of `piece` from `from` in direction `(dx, dy)`, starting
    /// `k` squares out: empty squares are quiet moves and the ray goes on;
    /// the first occupied square ends it, with a capture if it holds an
    /// opposing piece.
    pub open spec fn ray(self, from: Coords, piece: Piece, dx: int, dy: int, k: int) -> Seq<MoveCoords>
        decreases 8 - k,
    {
        let tx = from.x + k * dx;
        let ty = from.y + k * dy;
        if k >= 8 || !on_board(tx, ty) {
            Seq::empty()
        } else if self.is_empty_at(tx, ty) {
            seq![plain_move(piece, from, square(tx, ty))] + self.ray(from, piece, dx, dy, k + 1)
        } else if self.cell(tx, ty).color != piece.color {
            seq![capture_move(piece, from, square(tx, ty))]
        } else {
            Seq::empty()
        }
    }

    /// The four orthogonal rays: up, down, left, right.
    pub open spec fn rook_lines(self, from: Coords, piece: Piece) -> Seq<MoveCoords> {
        self.ray(from, piece, 0, -1, 1) + self.ray(from, piece, 0, 1, 1) + self.ray(from, piece, -1, 0, 1)
            + self.ray(from, piece, 1, 0, 1)
    }

    /// The four diagonal rays.
    pub open spec fn bishop_lines(self, from: Coords, piece: Piece) -> Seq<MoveCoords> {
        self.ray(from, piece, -1, -1, 1) + self.ray(from, piece, 1, -1, 1) + self.ray(
            from,
            piece,
            -1,
            1,
            1,
        ) + self.ray(from, piece, 1, 1, 1)
    }

    /// A pawn's capture onto column `from.x + dx` of row `fy`, if an
    /// opposing piece stands there.
    pub open spec fn pawn_capture(self, from: Coords, piece: Piece, dx: int, fy: int) -> Seq<MoveCoords> {
        let tx = from.x + dx;
        if on_board(tx, fy) && !self.is_empty_at(tx, fy) && self.cell(tx, fy).color != piece.color {
            seq![capture_move(piece, from, square(tx, fy))]
        } else {
            Seq::empty()
        }
    }

    /// A pawn's moves: the four promotions when the square ahead is empty
    /// and on the promotion row; otherwise the double step from the start
    /// row when both squares are empty, and the single step when the
    /// square ahead is empty; then the diagonal captures.
    pub open spec fn pawn_moves(self, from: Coords, color: Color) -> Seq<MoveCoords> {
        let piece = Piece { piece_type: PieceType::Pawn, color };
        let dir = pawn_dir(color);
        let fy = from.y + dir;
        if !(0 <= fy < 8) {
            Seq::empty()
        } else {
            let single = plain_move(piece, from, square(from.x as int, fy));
            let ahead = if !self.is_empty_at(from.x as int, fy) {
                Seq::empty()
            } else if fy == promotion_row(color) {
                seq![
                    MoveCoords { promotion: Some(PieceType::Queen), ..single },
                    MoveCoords { promotion: Some(PieceType::Rook), ..single },
                    MoveCoords { promotion: Some(PieceType::Bishop), ..single },
                    MoveCoords { promotion: Some(PieceType::Knight), ..single },
                ]
            } else if from.y == pawn_start_row(color) && self.is_empty_at(from.x as int, fy + dir) {
                seq![plain_move(piece, from, square(from.x as int, fy + dir)), single]
            } else {
                seq![single]
            };
            ahead + self.pawn_capture(from, piece, -1, fy) + self.pawn_capture(from, piece, 1, fy)
        }
    }

    pub open spec fn knight_moves(self, from: Coords, color: Color) -> Seq<MoveCoords> {
        let p = Piece { piece_type: PieceType::Knight, color };
        self.step(from, p, 2, 1) + self.step(from, p, 2, -1) + self.step(from, p, -2, 1) + self.step(
            from,
            p,
            -2,
            -1,
        ) + self.step(from, p, 1, 2) + self.step(from, p, 1, -2) + self.step(from, p, -1, 2)
            + self.step(from, p, -1, -2)
    }

    pub open spec fn rook_moves(self, from: Coords, color: Color) -> Seq<MoveCoords> {
        self.rook_lines(from, Piece { piece_type: PieceType::Rook, color })
    }

    pub open spec fn bishop_moves(self, from: Coords, color: Color) -> Seq<MoveCoords> {
        self.bishop_lines(from, Piece { piece_type: PieceType::Bishop, color })
    }

    pub open spec fn queen_moves(self, from: Coords, color: Color) -> Seq<MoveCoords> {
        let p = Piece { piece_type: PieceType::Queen, color };
        self.rook_lines(from, p) + self.bishop_lines(from, p)
    }

    /// The castle of `piece` on the given side: two columns along the row,
    /// offered when that castle is allowed.
    pub open spec fn castle_step(self, from: Coords, piece: Piece, king_side: bool) -> Seq<MoveCoords> {
        let tx = if king_side { from.x + 2 } else { from.x - 2 };
        if on_board(tx, from.y as int) && self.can_castle(piece.color, king_side) {
            seq![
                MoveCoords {
                    king_side_castle: king_side,
                    queen_side_castle: !king_side,
                    ..plain_move(piece, from, square(tx, from.y as int))
                },
            ]
        } else {
            Seq::empty()
        }
    }

    /// The eight single steps, then the two castles.
    pub open spec fn king_moves(self, from: Coords, color: Color) -> Seq<MoveCoords> {
        let p = Piece { piece_type: PieceType::King, color };
        self.step(from, p, -1, -1) + self.step(from, p, -1, 0) + self.step(from, p, -1, 1)
            + self.step(from, p, 0, -1) + self.step(from, p, 0, 1) + self.step(from, p, 1, -1)
            + self.step(from, p, 1, 0) + self.step(from, p, 1, 1) + self.castle_step(from, p, true)
            + self.castle_step(from, p, false)
    }

    /// The pseudo-legal moves of whatever stands on `from`.
    pub open spec fn possible_moves(self, from: Coords) -> Seq<MoveCoords> {
        let p = self.at(from);
        match p.piece_type {
            PieceType::Empty => Seq::empty(),
            PieceType::Pawn => self.pawn_moves(from, p.color),
            PieceType::Knight => self.knight_moves(from, p.color),
            PieceType::Bishop => self.bishop_moves(from, p.color),
            PieceType::Rook => self.rook_moves(from, p.color),
            PieceType::Queen => self.queen_moves(from, p.color),
            PieceType::King => self.king_moves(from, p.color),
        }
    }
}

impl Board {
    /// Appends the single step of `piece` from `from` by `(dx, dy)`.
    fn push_step(&self, from: Coords, piece: Piece, dx: i8, dy: i8, moves: &mut Vec<MoveCoords>)
        requires
            from.wf(),
            -2 <= dx <= 2,
            -2 <= dy <= 2,
        ensures
            final(moves)@ == old(moves)@ + self@.step(from, piece, dx as int, dy as int),
    {
        let tx = from.x as i8 + dx;
        let ty = from.y as i8 + dy;
        if 0 <= tx && tx < 8 && 0 <= ty && ty < 8 {
            let to = Coords::new(tx as u8, ty as u8);
            let target = self.state[to.y as usize][to.x as usize];
            if target.piece_type == PieceType::Empty {
                moves.push(
                    MoveCoords {
                        piece,
                        from,
                        to,
                        takes: false,
                        promotion: None,
                        king_side_castle: false,
                        queen_side_castle: false,
                    },
                );
            } else if target.color != piece.color {
                moves.push(
                    MoveCoords {
                        piece,
                        from,
                        to,
                        takes: true,
                        promotion: None,
                        king_side_castle: false,
                        queen_side_castle: false,
                    },
                );
            }
        }
        assert(moves@ =~= old(moves)@ + self@.step(from, piece, dx as int, dy as int));
    }

    /// Appends the ray of `piece` from `from` in direction `(dx, dy)`.
    fn push_ray(&self, from: Coords, piece: Piece, dx: i8, dy: i8, moves: &mut Vec<MoveCoords>)
        requires
            from.wf(),
            -1 <= dx <= 1,
            -1 <= dy <= 1,
        ensures
            final(moves)@ == old(moves)@ + self@.ray(from, piece, dx as int, dy as int, 1),
    {
        let ghost start = moves@;
        let mut k: i8 = 1;
        loop
            invariant_except_break
                moves@ + self@.ray(from, piece, dx as int, dy as int, k as int) == start + self@.ray(
                    from,
                    piece,
                    dx as int,
                    dy as int,
                    1,
                ),
            invariant
                1 <= k <= 8,
                from.wf(),
                -1 <= dx <= 1,
                -1 <= dy <= 1,
                old(moves)@ == start,
            ensures
                moves@ == start + self@.ray(from, piece, dx as int, dy as int, 1),
            decreases 8 - k,
        {
            let ghost before = moves@;
            let ghost rest = self@.ray(from, piece, dx as int, dy as int, k as int);
            if k >= 8 {
                assert(moves@ =~= moves@ + rest);
                break;
            }
            assert(-7 <= k * dx <= 7 && -7 <= k * dy <= 7) by (nonlinear_arith)
                requires
                    1 <= k < 8,
                    -1 <= dx <= 1,
                    -1 <= dy <= 1,
            ;
            let tx = from.x as i8 + k * dx;
            let ty = from.y as i8 + k * dy;
            if !(0 <= tx && tx < 8 && 0 <= ty && ty < 8) {
                assert(moves@ =~= moves@ + rest);
                break;
            }
            let to = Coords::new(tx as u8, ty as u8);
            let target = self.state[to.y as usize][to.x as usize];
            if target.piece_type == PieceType::Empty {
                moves.push(
                    MoveCoords {
                        piece,
                        from,
                        to,
                        takes: false,
                        promotion: None,
                        king_side_castle: false,
                        queen_side_castle: false,
                    },
                );
                assert(before + rest =~= moves@ + self@.ray(
                    from,
                    piece,
                    dx as int,
                    dy as int,
                    k + 1,
                ));
                k += 1;
            } else {
                if target.color != piece.color {
                    moves.push(
                        MoveCoords {
                            piece,
                            from,
                            to,
                            takes: true,
                            promotion: None,
                            king_side_castle: false,
                            queen_side_castle: false,
                        },
                    );
                }
                assert(moves@ =~= before + rest);
                break;
            }
        }
    }

    /// Appends the four orthogonal rays of `piece`.
    fn push_rook_lines(&self, from: Coords, piece: Piece, moves: &mut Vec<MoveCoords>)
        requires
            from.wf(),
        ensures
            final(moves)@ == old(moves)@ + self@.rook_lines(from, piece),
    {
        self.push_ray(from, piece, 0, -1, moves);
        self.push_ray(from, piece, 0, 1, moves);
        self.push_ray(from, piece, -1, 0, moves);
        self.push_ray(from, piece, 1, 0, moves);
        assert(moves@ =~= old(moves)@ + self@.rook_lines(from, piece));
    }

    /// Appends the four diagonal rays of `piece`.
    fn push_bishop_lines(&self, from: Coords, piece: Piece, moves: &mut Vec<MoveCoords>)
        requires
            from.wf(),
        ensures
            final(moves)@ == old(moves)@ + self@.bishop_lines(from, piece),
    {
        self.push_ray(from, piece, -1, -1, moves);
        self.push_ray(from, piece, 1, -1, moves);
        self.push_ray(from, piece, -1, 1, moves);
        self.push_ray(from, piece, 1, 1, moves);
        assert(moves@ =~= old(moves)@ + self@.bishop_lines(from, piece));
    }

    /// Appends a pawn's capture onto column `from.x + dx` of row `fy`.
    fn push_pawn_capture(&self, from: Coords, piece: Piece, dx: i8, fy: u8, moves: &mut Vec<MoveCoords>)
        requires
            from.wf(),
            fy < 8,
            dx == -1 || dx == 1,
        ensures
            final(moves)@ == old(moves)@ + self@.pawn_capture(from, piece, dx as int, fy as int),
    {
        let tx = from.x as i8 + dx;
        if 0 <= tx && tx < 8 {
            let to = Coords::new(tx as u8, fy);
            let target = self.state[fy as usize][tx as usize];
            if target.piece_type != PieceType::Empty && target.color != piece.color {
                moves.push(
                    MoveCoords {
                        piece,
                        from,
                        to,
                        takes: true,
                        promotion: None,
                        king_side_castle: false,
                        queen_side_castle: false,
                    },
                );
            }
        }
        assert(moves@ =~= old(moves)@ + self@.pawn_capture(from, piece, dx as int, fy as int));
    }

    pub fn pawn_moves(&self, pawn_start: Coords, color: Color) -> (r: Vec<MoveCoords>)
        requires
            pawn_start.wf(),
        ensures
            r@ == self@.pawn_moves(pawn_start, color),
    {
        let piece = Piece { piece_type: PieceType::Pawn, color };
        let mut moves: Vec<MoveCoords> = Vec::new();
        let x = pawn_start.x;
        let y = pawn_start.y;
        let white = match color {
            Color::White => true,
            Color::Black => false,
        };
        if (white && y == 0) || (!white && y == 7) {
            return moves;
        }
        let fy: u8 = if white {
            y - 1
        } else {
            y + 1
        };
        let single = MoveCoords {
            piece,
            from: pawn_start,
            to: Coords::new(x, fy),
            takes: false,
            promotion: None,
            king_side_castle: false,
            queen_side_castle: false,
        };
        if self.is_empty(Coords::new(x, fy)) {
            if (white && fy == 0) || (!white && fy == 7) {
                moves.push(single.promote(PieceType::Queen));
                moves.push(single.promote(PieceType::Rook));
                moves.push(single.promote(PieceType::Bishop));
                moves.push(single.promote(PieceType::Knight));
            } else {
                if (white && y == 6) || (!white && y == 1) {
                    let ty: u8 = if white {
                        fy - 1
                    } else {
                        fy + 1
                    };
                    if self.is_empty(Coords::new(x, ty)) {
                        moves.push(
                            MoveCoords {
                                piece,
                                from: pawn_start,
                                to: Coords::new(x, ty),
                                takes: false,
                                promotion: None,
                                king_side_castle: false,
                                queen_side_castle: false,
                            },
                        );
                    }
                }
                moves.push(single);
            }
        }
        let ghost ahead = moves@;
        self.push_pawn_capture(pawn_start, piece, -1, fy, &mut moves);
        self.push_pawn_capture(pawn_start, piece, 1, fy, &mut moves);
        assert(ahead + self@.pawn_capture(pawn_start, piece, -1, fy as int) + self@.pawn_capture(
            pawn_start,
            piece,
            1,
            fy as int,
        ) =~= self@.pawn_moves(pawn_start, color));
        moves
    }

    pub fn rook_moves(&self, rook_start: Coords, color: Color) -> (r: Vec<MoveCoords>)
        requires
            rook_start.wf(),
        ensures
            r@ == self@.rook_moves(rook_start, color),
    {
        let mut moves: Vec<MoveCoords> = Vec::new();
        self.push_rook_lines(rook_start, Piece { piece_type: PieceType::Rook, color }, &mut moves);
        assert(moves@ =~= self@.rook_moves(rook_start, color));
        moves
    }

    pub fn bishop_moves(&self, bishop_start: Coords, color: Color) -> (r: Vec<MoveCoords>)
        requires
            bishop_start.wf(),
        ensures
            r@ == self@.bishop_moves(bishop_start, color),
    {
        let mut moves: Vec<MoveCoords> = Vec::new();
        self.push_bishop_lines(bishop_start, Piece { piece_type: PieceType::Bishop, color }, &mut moves);
        assert(moves@ =~= self@.bishop_moves(bishop_start, color));
        moves
    }

    pub fn knight_moves(&self, knight_start: Coords, color: Color) -> (r: Vec<MoveCoords>)
        requires
            knight_start.wf(),
        ensures
            r@ == self@.knight_moves(knight_start, color),
    {
        let p = Piece { piece_type: PieceType::Knight, color };
        let mut moves: Vec<MoveCoords> = Vec::new();
        self.push_step(knight_start, p, 2, 1, &mut moves);
        assert(moves@ =~= self@.step(knight_start, p, 2, 1));
        self.push_step(knight_start, p, 2, -1, &mut moves);
        self.push_step(knight_start, p, -2, 1, &mut moves);
        self.push_step(knight_start, p, -2, -1, &mut moves);
        self.push_step(knight_start, p, 1, 2, &mut moves);
        self.push_step(knight_start, p, 1, -2, &mut moves);
        self.push_step(knight_start, p, -1, 2, &mut moves);
        self.push_step(knight_start, p, -1, -2, &mut moves);
        moves
    }

    /// The rook's rays and the bishop's rays, made by the queen.
    pub fn queen_moves(&self, queen_start: Coords, color: Color) -> (r: Vec<MoveCoords>)
        requires
            queen_start.wf(),
        ensures
            r@ == self@.queen_moves(queen_start, color),
    {
        let p = Piece { piece_type: PieceType::Queen, color };
        let mut moves: Vec<MoveCoords> = Vec::new();
        self.push_rook_lines(queen_start, p, &mut moves);
        self.push_bishop_lines(queen_start, p, &mut moves);
        assert(moves@ =~= self@.queen_moves(queen_start, color));
        moves
    }

    /// Appends the castle of `piece` on the given side, when allowed.
    fn push_castle(&self, from: Coords, piece: Piece, king_side: bool, moves: &mut Vec<MoveCoords>)
        requires
            from.wf(),
        ensures
            final(moves)@ == old(moves)@ + self@.castle_step(from, piece, king_side),
    {
        let tx: i8 = if king_side {
            from.x as i8 + 2
        } else {
            from.x as i8 - 2
        };
        if 0 <= tx && tx < 8 && self.can_castle(piece.color, king_side) {
            moves.push(
                MoveCoords {
                    piece,
                    from,
                    to: Coords::new(tx as u8, from.y),
                    takes: false,
                    promotion: None,
                    king_side_castle: king_side,
                    queen_side_castle: !king_side,
                },
            );
        }
        assert(moves@ =~= old(moves)@ + self@.castle_step(from, piece, king_side));
    }

    /// The eight neighbouring squares, then the castles that are allowed.
    pub fn king_moves(&self, king_start: Coords, color: Color) -> (r: Vec<MoveCoords>)
        requires
            king_start.wf(),
        ensures
            r@ == self@.king_moves(king_start, color),
    {
        let p = Piece { piece_type: PieceType::King, color };
        let mut moves: Vec<MoveCoords> = Vec::new();
        self.push_step(king_start, p, -1, -1, &mut moves);
        assert(moves@ =~= self@.step(king_start, p, -1, -1));
        self.push_step(king_start, p, -1, 0, &mut moves);
        self.push_step(king_start, p, -1, 1, &mut moves);
        self.push_step(king_start, p, 0, -1, &mut moves);
        self.push_step(king_start, p, 0, 1, &mut moves);
        self.push_step(king_start, p, 1, -1, &mut moves);
        self.push_step(king_start, p, 1, 0, &mut moves);
        self.push_step(king_start, p, 1, 1, &mut moves);
        self.push_castle(king_start, p, true, &mut moves);
        self.push_castle(king_start, p, false, &mut moves);
        moves
    }

    /// The pseudo-legal moves of whatever stands on `coord`; none for an
    /// empty square.
    pub fn possible_moves(&self, coord: Coords) -> (r: Vec<MoveCoords>)
        requires
            coord.wf(),
        ensures
            r@ == self@.possible_moves(coord),
    {
        let piece = self.state[coord.y as usize][coord.x as usize];
        match piece.piece_type {
            PieceType::Pawn => self.pawn_moves(coord, piece.color),
            PieceType::Bishop => self.bishop_moves(coord, piece.color),
            PieceType::Rook => self.rook_moves(coord, piece.color),
            PieceType::Queen => self.queen_moves(coord, piece.color),
            PieceType::King => self.king_moves(coord, piece.color),
            PieceType::Knight => self.knight_moves(coord, piece.color),
            PieceType::Empty => {
                let v: Vec<MoveCoords> = Vec::new();
                assert(v@ =~= self@.possible_moves(coord));
                v
            },
        }
    }
}


} // verus!
