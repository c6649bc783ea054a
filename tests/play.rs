use chess_engine::assets::file_name;
use chess_engine::board::Board;
use chess_engine::coords::Coords;
use chess_engine::pieces::{Color, Piece, PieceType};

fn sq(s: &str) -> Coords {
    s.parse().unwrap()
}

fn play(board: &mut Board, moves: &[(&str, &str)]) {
    for (from, to) in moves {
        assert!(board.move_piece(sq(from), sq(to), None), "{} {}", from, to);
    }
}

fn targets(board: &Board, from: &str) -> Vec<String> {
    let mut t: Vec<String> = board.possible_moves(sq(from)).iter().map(|m| m.to.to_string()).collect();
    t.sort();
    t
}

#[test]
fn every_initial_pawn_has_two_moves() {
    let board = Board::new();
    for x in 0..8u8 {
        let white = board.possible_moves(Coords::new(x, 6));
        assert_eq!(white.len(), 2);
        assert!(white.iter().any(|m| m.to == Coords::new(x, 5) && !m.takes));
        assert!(white.iter().any(|m| m.to == Coords::new(x, 4) && !m.takes));
        let black = board.possible_moves(Coords::new(x, 1));
        assert_eq!(black.len(), 2);
        assert!(black.iter().any(|m| m.to == Coords::new(x, 2)));
        assert!(black.iter().any(|m| m.to == Coords::new(x, 3)));
    }
}

#[test]
fn every_initial_knight_has_two_moves() {
    let board = Board::new();
    assert_eq!(targets(&board, "b1"), vec!["a3", "c3"]);
    assert_eq!(targets(&board, "g1"), vec!["f3", "h3"]);
    assert_eq!(targets(&board, "b8"), vec!["a6", "c6"]);
    assert_eq!(targets(&board, "g8"), vec!["f6", "h6"]);
}

#[test]
fn initial_blocked_pieces_have_no_moves() {
    let board = Board::new();
    for s in ["a1", "c1", "d1", "e1", "f1", "h1", "d8", "e8"] {
        assert!(board.possible_moves(sq(s)).is_empty(), "{}", s);
    }
    assert!(board.possible_moves(sq("e4")).is_empty());
}

#[test]
fn two_moves_alternate_the_turn_and_are_recorded() {
    let mut board = Board::new();
    assert!(board.move_piece(sq("e2"), sq("e4"), None));
    assert_eq!(board.turn, Color::Black);
    assert!(board.move_piece(sq("e7"), sq("e5"), None));
    assert_eq!(board.turn, Color::White);
    assert_eq!(board.moves.len(), 2);
    assert_eq!(board.moves[0].from, sq("e2"));
    assert_eq!(board.moves[0].to, sq("e4"));
    assert_eq!(board.moves[1].from, sq("e7"));
    assert_eq!(board.moves[1].to, sq("e5"));
    assert!(board.piece_present(Piece::white(PieceType::Pawn), sq("e4")));
    assert!(board.is_empty(sq("e2")));
}

#[test]
fn white_kingside_castle_moves_king_and_rook() {
    let mut board = Board::new();
    play(&mut board, &[("e2", "e4"), ("e7", "e5"), ("g1", "f3"), ("b8", "c6"), ("f1", "c4"), ("g8", "f6")]);
    assert!(board.can_castle(Color::White, true));
    assert!(!board.can_castle(Color::White, false));
    assert!(board.move_piece(sq("e1"), sq("g1"), None));
    assert!(board.piece_present(Piece::white(PieceType::King), sq("g1")));
    assert!(board.piece_present(Piece::white(PieceType::Rook), sq("f1")));
    assert!(board.is_empty(sq("e1")));
    assert!(board.is_empty(sq("h1")));
    assert_eq!(board.turn, Color::Black);
    let last = board.moves[board.moves.len() - 1];
    assert!(last.king_side_castle && !last.queen_side_castle && !last.takes);
    assert!(board.king_has_moved(Color::White));
}

#[test]
fn black_queenside_castle_moves_king_and_rook() {
    let mut board = Board::new();
    play(
        &mut board,
        &[("e2", "e4"), ("d7", "d5"), ("a2", "a3"), ("c8", "e6"), ("a3", "a4"), ("d8", "d6"), ("h2", "h3"), ("b8", "c6"), ("h3", "h4")],
    );
    assert!(board.can_castle(Color::Black, false));
    assert!(board.move_piece(sq("e8"), sq("c8"), None));
    assert!(board.piece_present(Piece::black(PieceType::King), sq("c8")));
    assert!(board.piece_present(Piece::black(PieceType::Rook), sq("d8")));
    assert!(board.is_empty(sq("a8")));
    assert!(board.is_empty(sq("b8")));
    assert!(board.is_empty(sq("e8")));
    assert_eq!(board.turn, Color::White);
}

#[test]
fn castle_refused_once_king_has_moved_and_returned() {
    let mut board = Board::new();
    play(
        &mut board,
        &[("e2", "e4"), ("e7", "e5"), ("g1", "f3"), ("b8", "c6"), ("f1", "c4"), ("g8", "f6"), ("e1", "f1"), ("a7", "a6"), ("f1", "e1"), ("a6", "a5")],
    );
    assert!(board.king_has_moved(Color::White));
    assert!(!board.can_castle(Color::White, true));
    let state = board.state;
    let n = board.moves.len();
    assert!(!board.move_piece(sq("e1"), sq("g1"), None));
    assert_eq!(board.state, state);
    assert_eq!(board.moves.len(), n);
    assert_eq!(board.turn, Color::White);
}

#[test]
fn castle_refused_once_rook_has_moved_and_returned() {
    let mut board = Board::new();
    play(
        &mut board,
        &[("e2", "e4"), ("e7", "e5"), ("g1", "f3"), ("b8", "c6"), ("f1", "c4"), ("g8", "f6"), ("h1", "g1"), ("a7", "a6"), ("g1", "h1"), ("a6", "a5")],
    );
    assert!(!board.king_has_moved(Color::White));
    assert!(board.rook_has_moved(Color::White, true));
    assert!(!board.rook_has_moved(Color::White, false));
    assert!(!board.can_castle(Color::White, true));
    assert!(!board.move_piece(sq("e1"), sq("g1"), None));
    assert!(board.piece_present(Piece::white(PieceType::King), sq("e1")));
}

#[test]
fn pawn_promotes_to_queen_on_straight_advance() {
    let mut board = Board::new();
    board.state[1][0] = Piece::white(PieceType::Pawn);
    board.state[0][0] = Piece::empty();
    assert!(board.can_promote(sq("a7")));
    assert!(board.is_promote(sq("a7"), sq("a8")));
    assert!(!board.is_promote(sq("a7"), sq("b8")));
    let moves = board.possible_moves(sq("a7"));
    assert_eq!(moves.iter().filter(|m| m.promotion.is_some()).count(), 4);
    assert!(board.move_piece(sq("a7"), sq("a8"), Some(PieceType::Queen)));
    assert!(board.piece_present(Piece::white(PieceType::Queen), sq("a8")));
    assert!(board.is_empty(sq("a7")));
    assert_eq!(board.turn, Color::Black);
    assert_eq!(board.moves[0].promotion, Some(PieceType::Queen));
}

#[test]
fn black_pawn_promotes_on_row_seven() {
    let mut board = Board::new();
    board.turn = Color::Black;
    board.state[6][3] = Piece::black(PieceType::Pawn);
    board.state[7][3] = Piece::empty();
    assert!(board.move_piece(sq("d2"), sq("d1"), Some(PieceType::Knight)));
    assert!(board.piece_present(Piece::black(PieceType::Knight), sq("d1")));
}

#[test]
fn promotion_square_needs_a_promotion_choice() {
    let mut board = Board::new();
    board.state[1][0] = Piece::white(PieceType::Pawn);
    board.state[0][0] = Piece::empty();
    let state = board.state;
    assert!(!board.move_piece(sq("a7"), sq("a8"), None));
    assert!(!board.move_piece(sq("a7"), sq("a8"), Some(PieceType::King)));
    assert_eq!(board.state, state);
}

#[test]
fn promotion_choice_dropped_where_nothing_promotes() {
    let mut board = Board::new();
    assert!(!board.can_promote(sq("e2")));
    assert!(board.move_piece(sq("e2"), sq("e4"), Some(PieceType::Queen)));
    assert!(board.piece_present(Piece::white(PieceType::Pawn), sq("e4")));
    assert_eq!(board.moves[0].promotion, None);
}

#[test]
fn diagonal_capture_onto_last_rank_is_plain() {
    let mut board = Board::new();
    board.state[1][0] = Piece::white(PieceType::Pawn);
    let moves = board.possible_moves(sq("a7"));
    assert_eq!(moves.len(), 1);
    assert_eq!(moves[0].to, sq("b8"));
    assert!(moves[0].takes);
    assert_eq!(moves[0].promotion, None);
}

#[test]
fn refused_requests_leave_the_board_unchanged() {
    let mut board = Board::new();
    play(&mut board, &[("e2", "e4")]);
    let state = board.state;
    let turn = board.turn;
    let history = board.moves.clone();
    assert!(!board.move_piece(sq("d4"), sq("d5"), None));
    assert!(!board.move_piece(sq("e4"), sq("e5"), None));
    assert!(!board.move_piece(sq("e7"), sq("e4"), None));
    assert!(!board.move_piece(sq("b8"), sq("b6"), None));
    assert_eq!(board.state, state);
    assert_eq!(board.turn, turn);
    assert!(board.moves == history);
}

#[test]
fn pawn_captures_only_opposing_pieces() {
    let mut board = Board::new();
    play(&mut board, &[("e2", "e4"), ("d7", "d5")]);
    let moves = board.possible_moves(sq("e4"));
    assert_eq!(moves.len(), 2);
    assert!(moves.iter().any(|m| m.to == sq("d5") && m.takes));
    assert!(moves.iter().any(|m| m.to == sq("e5") && !m.takes));
    assert!(board.move_piece(sq("e4"), sq("d5"), None));
    assert!(board.moves[2].takes);
    assert!(board.piece_present(Piece::white(PieceType::Pawn), sq("d5")));
    let mut own = Board::new();
    own.state[5][3] = Piece::white(PieceType::Knight);
    let moves = own.possible_moves(sq("e2"));
    assert!(!moves.iter().any(|m| m.takes));
}

#[test]
fn sliding_pieces_stop_at_the_first_piece() {
    let mut board = Board::new();
    play(&mut board, &[("e2", "e4"), ("e7", "e5")]);
    assert_eq!(targets(&board, "f1"), vec!["a6", "b5", "c4", "d3", "e2"]);
    assert_eq!(targets(&board, "d1"), vec!["e2", "f3", "g4", "h5"]);
    let mut empty = Board::new();
    for y in 0..8 {
        for x in 0..8 {
            empty.state[y][x] = Piece::empty();
        }
    }
    empty.state[4][3] = Piece::white(PieceType::Rook);
    assert_eq!(empty.possible_moves(sq("d4")).len(), 14);
    empty.state[4][3] = Piece::white(PieceType::Queen);
    assert_eq!(empty.possible_moves(sq("d4")).len(), 27);
    empty.state[4][3] = Piece::white(PieceType::Bishop);
    assert_eq!(empty.possible_moves(sq("d4")).len(), 13);
    empty.state[4][3] = Piece::white(PieceType::King);
    assert_eq!(empty.possible_moves(sq("d4")).len(), 8);
    empty.state[4][3] = Piece::white(PieceType::Knight);
    assert_eq!(empty.possible_moves(sq("d4")).len(), 8);
    empty.state[4][3] = Piece::black(PieceType::Rook);
    empty.state[4][6] = Piece::white(PieceType::Pawn);
    let moves = empty.possible_moves(sq("d4"));
    assert!(moves.iter().any(|m| m.to == sq("g4") && m.takes));
    assert!(!moves.iter().any(|m| m.to == sq("h4")));
}

#[test]
fn queries_on_the_starting_position() {
    let board = Board::new();
    assert_eq!(board.get_piece(sq("d1")), Piece::white(PieceType::Queen));
    assert_eq!(board.piece_color(sq("d8")), Some(Color::Black));
    assert_eq!(board.piece_color(sq("d4")), None);
    assert!(board.movable_piece(sq("a2")));
    assert!(!board.movable_piece(sq("a7")));
    assert!(!board.can_castle(Color::White, true));
    assert!(!board.king_has_moved(Color::Black));
    assert!(!board.rook_has_moved(Color::Black, false));
    assert_eq!(board.turn, Color::White);
    assert!(board.moves.is_empty());
}

#[test]
fn empty_pieces_are_equal_whatever_their_color() {
    let placeholder = Piece { piece_type: PieceType::Empty, color: Color::Black };
    assert!(placeholder == Piece::empty());
    assert!(Piece::white(PieceType::Rook) != Piece::black(PieceType::Rook));
    let board = Board::new();
    assert!(board.piece_present(placeholder, sq("e4")));
}

#[test]
fn board_text_shows_each_row() {
    let text = Board::new().to_string();
    let lines: Vec<&str> = text.lines().collect();
    assert_eq!(lines.len(), 8);
    assert_eq!(lines[0], " ♜  ♞  ♝  ♛  ♚  ♝  ♞  ♜ ");
    assert_eq!(lines[1], " ♟  ♟  ♟  ♟  ♟  ♟  ♟  ♟ ");
    assert_eq!(lines[3], "                        ");
    assert_eq!(lines[7], " ♖  ♘  ♗  ♕  ♔  ♗  ♘  ♖ ");
    assert!(text.ends_with('\n'));
}

#[test]
fn piece_and_color_text() {
    assert_eq!(PieceType::Knight.to_string(), "N");
    assert_eq!(PieceType::King.to_string(), "♔");
    assert_eq!(PieceType::Empty.to_string(), " ");
    assert_eq!(PieceType::Bishop.name(), "bishop");
    assert_eq!(Color::White.to_string(), "w");
    assert_eq!(Color::Black.to_string(), "b");
    assert_eq!(Piece::black(PieceType::Queen).to_string(), "♛");
    assert_eq!(Piece::white(PieceType::Pawn).glyph(), '♙');
}

#[test]
fn asset_file_names() {
    assert_eq!(file_name(PieceType::Knight, Color::White), "white_knight.png");
    assert_eq!(file_name(PieceType::King, Color::Black), "black_king.png");
}

#[test]
fn clicks_select_and_move() {
    let mut board = Board::new();
    assert_eq!(board.on_click(None, sq("e2")), Some(sq("e2")));
    assert_eq!(board.on_click(Some(sq("e2")), sq("e2")), None);
    assert_eq!(board.on_click(Some(sq("e7")), sq("e5")), Some(sq("e5")));
    assert_eq!(board.turn, Color::White);
    assert_eq!(board.on_click(Some(sq("e2")), sq("e4")), None);
    assert_eq!(board.turn, Color::Black);
    assert!(board.piece_present(Piece::white(PieceType::Pawn), sq("e4")));
}

#[test]
fn click_promotes_to_queen() {
    let mut board = Board::new();
    board.state[1][7] = Piece::white(PieceType::Pawn);
    board.state[0][7] = Piece::empty();
    assert_eq!(board.on_click(Some(sq("h7")), sq("h8")), None);
    assert!(board.piece_present(Piece::white(PieceType::Queen), sq("h8")));
}

#[test]
fn empty_square_is_never_movable() {
    let board = Board::new();
    assert!(!board.movable_piece(sq("e4")));
    assert!(board.movable_piece(sq("e2")));
}

#[test]
fn click_on_empty_selection_reselects() {
    let mut board = Board::new();
    assert_eq!(board.on_click(Some(sq("e4")), sq("e2")), Some(sq("e2")));
    assert_eq!(board.turn, Color::White);
    assert!(board.moves.is_empty());
}

#[test]
fn dropped_promotion_keeps_the_piece_kind() {
    let mut board = Board::new();
    assert!(board.move_piece(sq("g1"), sq("f3"), Some(PieceType::Queen)));
    assert!(board.piece_present(Piece::white(PieceType::Knight), sq("f3")));
    assert_eq!(board.moves[0].promotion, None);
}
