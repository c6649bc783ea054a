//! Facts about move generation and play, proved from the definitions.

use vstd::prelude::*;

use crate::board::{initial_board, square, Board, BoardView};
use crate::coords::{plain_move, same_move, Coords, MoveCoords};
use crate::moves::{pawn_dir, promotion_row};
use crate::pieces::{opposite, Color, Piece, PieceType};

verus! {

/// The view of every board has eight rows of eight cells.
pub proof fn lemma_board_wf(b: Board)
    ensures
        b@.wf(),
{
}

/// In the starting position every pawn has exactly two moves: two squares
/// and one square straight ahead.
pub proof fn lemma_initial_pawn_moves(x: int)
    requires
        0 <= x < 8,
    ensures
        initial_board().possible_moves(square(x, 6)) == seq![
            plain_move(Piece { piece_type: PieceType::Pawn, color: Color::White }, square(x, 6), square(x, 4)),
            plain_move(Piece { piece_type: PieceType::Pawn, color: Color::White }, square(x, 6), square(x, 5)),
        ],
        initial_board().possible_moves(square(x, 1)) == seq![
            plain_move(Piece { piece_type: PieceType::Pawn, color: Color::Black }, square(x, 1), square(x, 3)),
            plain_move(Piece { piece_type: PieceType::Pawn, color: Color::Black }, square(x, 1), square(x, 2)),
        ],
{
    let b = initial_board();
    assert(b.possible_moves(square(x, 6)) =~= seq![
        plain_move(Piece { piece_type: PieceType::Pawn, color: Color::White }, square(x, 6), square(x, 4)),
        plain_move(Piece { piece_type: PieceType::Pawn, color: Color::White }, square(x, 6), square(x, 5)),
    ]);
    assert(b.possible_moves(square(x, 1)) =~= seq![
        plain_move(Piece { piece_type: PieceType::Pawn, color: Color::Black }, square(x, 1), square(x, 3)),
        plain_move(Piece { piece_type: PieceType::Pawn, color: Color::Black }, square(x, 1), square(x, 2)),
    ]);
}

/// In the starting position each knight has exactly two moves: to the
/// two empty squares a knight's move away, one column to either side and
/// two rows forward.
pub proof fn lemma_initial_knight_moves(x: int, y: int)
    requires
        x == 1 || x == 6,
        y == 0 || y == 7,
    ensures
        ({
            let color = if y == 7 { Color::White } else { Color::Black };
            let knight = Piece { piece_type: PieceType::Knight, color };
            let ty = if y == 7 { 5int } else { 2int };
            initial_board().possible_moves(square(x, y)) == seq![
                plain_move(knight, square(x, y), square(x + 1, ty)),
                plain_move(knight, square(x, y), square(x - 1, ty)),
            ]
        }),
{
    let b = initial_board();
    let color = if y == 7 { Color::White } else { Color::Black };
    let knight = Piece { piece_type: PieceType::Knight, color };
    let ty = if y == 7 { 5int } else { 2int };
    assert(b.possible_moves(square(x, y)) =~= seq![
        plain_move(knight, square(x, y), square(x + 1, ty)),
        plain_move(knight, square(x, y), square(x - 1, ty)),
    ]);
}

/// With White's king on e1, White to move and the kingside castle
/// allowed (no king or h1-rook move recorded, a rook on h1, f1 and g1
/// empty), the request e1 to g1 castles: the king stands on g1, the rook
/// on f1, e1 and h1 are empty, and Black is to move.
pub proof fn lemma_white_kingside_castle(b: BoardView, promotion: Option<PieceType>)
    requires
        b.wf(),
        b.at(square(4, 7)) == (Piece { piece_type: PieceType::King, color: Color::White }),
        b.turn == Color::White,
        b.can_castle(Color::White, true),
    ensures
        b.move_result(square(4, 7), square(6, 7), promotion) matches Some(nb) && {
            &&& nb.at(square(6, 7)) == (Piece { piece_type: PieceType::King, color: Color::White })
            &&& nb.at(square(5, 7)) == (Piece { piece_type: PieceType::Rook, color: Color::White })
            &&& nb.is_empty_at(4, 7)
            &&& nb.is_empty_at(7, 7)
            &&& nb.turn == Color::Black
        },
{
    let from = square(4, 7);
    let to = square(6, 7);
    let king = Piece { piece_type: PieceType::King, color: Color::White };
    let mc = b.parse_request(from, to, promotion)->Some_0;
    let ms = b.possible_moves(from);
    let steps = b.step(from, king, -1, -1) + b.step(from, king, -1, 0) + b.step(from, king, -1, 1)
        + b.step(from, king, 0, -1) + b.step(from, king, 0, 1) + b.step(from, king, 1, -1) + b.step(
        from,
        king,
        1,
        0,
    ) + b.step(from, king, 1, 1);
    let ks = b.castle_step(from, king, true);
    assert(ms == steps + ks + b.castle_step(from, king, false));
    assert(ms[steps.len() as int] == ks[0]);
    assert(same_move(ms[steps.len() as int], mc));
}

/// A property of every element of `a` and of `b` holds of every element
/// of `a + b`.
proof fn lemma_all_concat(a: Seq<MoveCoords>, b: Seq<MoveCoords>, p: spec_fn(MoveCoords) -> bool)
    requires
        forall|i: int| 0 <= i < a.len() ==> p(#[trigger] a[i]),
        forall|i: int| 0 <= i < b.len() ==> p(#[trigger] b[i]),
    ensures
        forall|i: int| 0 <= i < (a + b).len() ==> p(#[trigger] (a + b)[i]),
{
    assert forall|i: int| 0 <= i < (a + b).len() implies p(#[trigger] (a + b)[i]) by {
        if i >= a.len() {
            assert((a + b)[i] == b[i - a.len()]);
        }
    }
}

/// Every move of a king is a castle or ends on a column next to its own.
proof fn lemma_king_moves_near(b: BoardView, from: Coords, color: Color)
    requires
        from.wf(),
    ensures
        ({
            let ms = b.king_moves(from, color);
            forall|i: int|
                0 <= i < ms.len() ==> (#[trigger] ms[i]).king_side_castle || ms[i].queen_side_castle
                    || from.x - 1 <= ms[i].to.x <= from.x + 1
        }),
{
    let p = |m: MoveCoords| m.king_side_castle || m.queen_side_castle || from.x - 1 <= m.to.x <= from.x + 1;
    let k = Piece { piece_type: PieceType::King, color };
    let s0 = b.step(from, k, -1, -1);
    let s1 = b.step(from, k, -1, 0);
    let s2 = b.step(from, k, -1, 1);
    let s3 = b.step(from, k, 0, -1);
    let s4 = b.step(from, k, 0, 1);
    let s5 = b.step(from, k, 1, -1);
    let s6 = b.step(from, k, 1, 0);
    let s7 = b.step(from, k, 1, 1);
    let c0 = b.castle_step(from, k, true);
    let c1 = b.castle_step(from, k, false);
    lemma_all_concat(s0, s1, p);
    lemma_all_concat(s0 + s1, s2, p);
    lemma_all_concat(s0 + s1 + s2, s3, p);
    lemma_all_concat(s0 + s1 + s2 + s3, s4, p);
    lemma_all_concat(s0 + s1 + s2 + s3 + s4, s5, p);
    lemma_all_concat(s0 + s1 + s2 + s3 + s4 + s5, s6, p);
    lemma_all_concat(s0 + s1 + s2 + s3 + s4 + s5 + s6, s7, p);
    lemma_all_concat(s0 + s1 + s2 + s3 + s4 + s5 + s6 + s7, c0, p);
    lemma_all_concat(s0 + s1 + s2 + s3 + s4 + s5 + s6 + s7 + c0, c1, p);
}

/// Once White's king or its h1 rook has moved, the request e1 to g1 by the
/// king on e1 is refused, whatever stands on the squares.
pub proof fn lemma_no_second_kingside_castle(b: BoardView, promotion: Option<PieceType>)
    requires
        b.wf(),
        b.at(square(4, 7)) == (Piece { piece_type: PieceType::King, color: Color::White }),
        b.king_has_moved(Color::White) || b.rook_has_moved(Color::White, true),
    ensures
        b.move_result(square(4, 7), square(6, 7), promotion) is None,
{
    let from = square(4, 7);
    lemma_king_moves_near(b, from, Color::White);
    let ms = b.possible_moves(from);
    let mc = b.parse_request(from, square(6, 7), promotion)->Some_0;
    assert forall|i: int| 0 <= i < ms.len() implies !same_move(#[trigger] ms[i], mc) by {
    }
}

/// A pawn one row before its promotion row, with the square ahead empty
/// and its side to move, advances with a promotion to a queen: a queen of
/// its color stands on the promotion square, the origin is empty, and the
/// other side is to move.
pub proof fn lemma_pawn_promotes_to_queen(b: BoardView, x: int, color: Color)
    requires
        b.wf(),
        0 <= x < 8,
        b.at(square(x, promotion_row(color) - pawn_dir(color))) == (Piece {
            piece_type: PieceType::Pawn,
            color,
        }),
        b.is_empty_at(x, promotion_row(color)),
        b.turn == color,
    ensures
        ({
            let from = square(x, promotion_row(color) - pawn_dir(color));
            let to = square(x, promotion_row(color));
            b.move_result(from, to, Some(PieceType::Queen)) matches Some(nb) && {
                &&& nb.at(to) == (Piece { piece_type: PieceType::Queen, color })
                &&& nb.is_empty_at(x, promotion_row(color) - pawn_dir(color))
                &&& nb.turn == opposite(color)
            }
        }),
{
    let from = square(x, promotion_row(color) - pawn_dir(color));
    let to = square(x, promotion_row(color));
    let ms = b.possible_moves(from);
    assert(ms[0].promotion is Some);
    assert forall|i: int| 0 <= i < ms.len() implies !((#[trigger] ms[i]).to == to && ms[i].takes) by {
    }
    let mc = b.parse_request(from, to, Some(PieceType::Queen))->Some_0;
    assert(same_move(ms[0], mc));
}

/// Where no move from `from` promotes, a promotion choice is dropped: the
/// request has the same outcome as the request without one, the recorded
/// move carries no promotion, and an ordinary (non-castling) move leaves
/// the piece from `from`, of unchanged kind, on `to`.
pub proof fn lemma_promotion_dropped(
    b: BoardView,
    from: Coords,
    to: Coords,
    promotion: Option<PieceType>,
)
    requires
        b.wf(),
        from.wf(),
        to.wf(),
        !b.can_promote(from),
    ensures
        b.move_result(from, to, promotion) == b.move_result(from, to, None),
        b.move_result(from, to, promotion) matches Some(nb) ==> nb.moves.last().promotion is None,
        b.parse_request(from, to, promotion) matches Some(mc) && !mc.king_side_castle
            && !mc.queen_side_castle && from != to ==> (b.move_result(from, to, promotion) matches Some(
            nb,
        ) ==> nb.at(to) == b.at(from)),
{
}

/// A request is refused, and the board left as it was, when its origin is
/// empty, when the piece there is not the side to move's, or when no
/// pseudo-legal move from the origin ends on the destination.
pub proof fn lemma_refused_requests(
    b: BoardView,
    from: Coords,
    to: Coords,
    promotion: Option<PieceType>,
)
    ensures
        b.at(from).piece_type == PieceType::Empty ==> b.move_result(from, to, promotion) is None,
        b.at(from).color != b.turn ==> b.move_result(from, to, promotion) is None,
        (forall|i: int|
            0 <= i < b.possible_moves(from).len() ==> (#[trigger] b.possible_moves(from)[i]).to
                != to) ==> b.move_result(from, to, promotion) is None,
{
}

} // verus!
