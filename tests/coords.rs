use chess_engine::coords::{Coords, MoveCoords, ParseCoordsError};
use chess_engine::pieces::{Piece, PieceType};

#[test]
fn test_move_coords() {
    let mc = MoveCoords {
        piece: Piece::white(PieceType::Pawn),
        from: "c2".parse().unwrap(),
        to: "c4".parse().unwrap(),
        takes: false,
        ..Default::default()
    };
    assert!(mc.to_string() == "c4");
    let mc = MoveCoords {
        piece: Piece::white(PieceType::Pawn),
        from: "c2".parse().unwrap(),
        to: "d3".parse().unwrap(),
        takes: true,
        ..Default::default()
    };
    assert!(mc.to_string() == "cxd3");
    let mc = MoveCoords {
        piece: Piece::white(PieceType::Rook),
        from: "a1".parse().unwrap(),
        to: "a8".parse().unwrap(),
        takes: true,
        ..Default::default()
    };
    assert!(mc.to_string() == "♖xa8");
    let mc = MoveCoords {
        piece: Piece::white(PieceType::Rook),
        from: "a1".parse().unwrap(),
        to: "a8".parse().unwrap(),
        takes: false,
        ..Default::default()
    };
    assert!(mc.to_string() == "♖a8");
    let mc = MoveCoords {
        piece: Piece::white(PieceType::Rook),
        from: "a1".parse().unwrap(),
        to: "h1".parse().unwrap(),
        takes: true,
        ..Default::default()
    };
    assert!(mc.to_string() == "♖xh1");
    let mc = MoveCoords {
        piece: Piece::white(PieceType::Queen),
        from: "a1".parse().unwrap(),
        to: "h1".parse().unwrap(),
        takes: false,
        ..Default::default()
    };
    assert!(mc.to_string() == "♕h1");
}

#[test]
fn test_coords_std() {
    assert_eq!(Coords::new(0, 0).standard(), ('a', 8));
    assert_eq!(Coords::new(7, 7).standard(), ('h', 1));
}

#[test]
fn test_correct_coords() {
    let coords: Coords = (0, 0).into();
    println!("{:?}", coords.standard());
}

#[test]
fn test_coords_from_str() {
    assert_eq!("a8".parse(), Ok(Coords::new(0, 0)));
    assert_eq!("a7".parse(), Ok(Coords::new(0, 1)));
    assert_eq!("a6".parse(), Ok(Coords::new(0, 2)));
    assert_eq!("a5".parse(), Ok(Coords::new(0, 3)));
    assert_eq!("a4".parse(), Ok(Coords::new(0, 4)));
    assert_eq!("a3".parse(), Ok(Coords::new(0, 5)));
    assert_eq!("a2".parse(), Ok(Coords::new(0, 6)));
    assert_eq!("a1".parse(), Ok(Coords::new(0, 7)));
    assert_eq!("b8".parse(), Ok(Coords::new(1, 0)));
    assert_eq!("b7".parse(), Ok(Coords::new(1, 1)));
    assert_eq!("b6".parse(), Ok(Coords::new(1, 2)));
    assert_eq!("b5".parse(), Ok(Coords::new(1, 3)));
    assert_eq!("b4".parse(), Ok(Coords::new(1, 4)));
    assert_eq!("b3".parse(), Ok(Coords::new(1, 5)));
    assert_eq!("b2".parse(), Ok(Coords::new(1, 6)));
    assert_eq!("b1".parse(), Ok(Coords::new(1, 7)));
    assert_eq!("c8".parse(), Ok(Coords::new(2, 0)));
    assert_eq!("c7".parse(), Ok(Coords::new(2, 1)));
    assert_eq!("c6".parse(), Ok(Coords::new(2, 2)));
    assert_eq!("c5".parse(), Ok(Coords::new(2, 3)));
    assert_eq!("c4".parse(), Ok(Coords::new(2, 4)));
    assert_eq!("c3".parse(), Ok(Coords::new(2, 5)));
    assert_eq!("c2".parse(), Ok(Coords::new(2, 6)));
    assert_eq!("c1".parse(), Ok(Coords::new(2, 7)));

    assert_eq!("h1".parse(), Ok(Coords::new(7, 7)));
}

#[test]
fn notation_round_trip_on_every_square() {
    for x in 0..8u8 {
        for y in 0..8u8 {
            let c = Coords::new(x, y);
            let text = c.to_string();
            assert_eq!(text.chars().count(), 2);
            assert_eq!(Coords::parse(&text), Ok(c));
        }
    }
    assert_eq!(Coords::parse("e4").unwrap().to_string(), "e4");
}

#[test]
fn square_text_is_file_then_rank() {
    assert_eq!(Coords::new(4, 4).to_string(), "e4");
    assert_eq!(Coords::new(0, 7).to_string(), "a1");
    assert_eq!(Coords::new(7, 0).to_string(), "h8");
}

#[test]
fn malformed_square_text_is_refused() {
    assert_eq!(Coords::parse(""), Err(ParseCoordsError::WrongLength));
    assert_eq!(Coords::parse("e"), Err(ParseCoordsError::WrongLength));
    assert_eq!(Coords::parse("e44"), Err(ParseCoordsError::WrongLength));
    assert_eq!(Coords::parse("i4"), Err(ParseCoordsError::BadFile));
    assert_eq!(Coords::parse("E4"), Err(ParseCoordsError::BadFile));
    assert_eq!(Coords::parse("e9"), Err(ParseCoordsError::BadRank));
    assert_eq!(Coords::parse("e0"), Err(ParseCoordsError::BadRank));
    assert_eq!("zz".parse::<Coords>(), Err(ParseCoordsError::BadFile));
}

#[test]
fn row_col_and_pair() {
    let c = Coords::new(2, 5);
    assert_eq!(c.row(), 6);
    assert_eq!(c.col(), 'c');
    assert_eq!(c.rdr(), (2, 5));
    let d: Coords = (3u8, 4u8).into();
    assert_eq!(d, Coords::new(3, 4));
    let e: Coords = (3usize, 4usize).into();
    assert_eq!(e, Coords::new(3, 4));
}

#[test]
fn promote_sets_the_promotion_only() {
    let mc = MoveCoords {
        piece: Piece::black(PieceType::Pawn),
        from: "b2".parse().unwrap(),
        to: "b1".parse().unwrap(),
        ..Default::default()
    };
    let p = mc.promote(PieceType::Knight);
    assert_eq!(p.promotion, Some(PieceType::Knight));
    assert_eq!(p.from, mc.from);
    assert_eq!(p.to, mc.to);
    assert!(!p.takes);
    assert!(p != mc);
    assert!(p == mc.promote(PieceType::Knight));
}

#[test]
fn black_piece_notation_uses_black_glyph() {
    let mc = MoveCoords {
        piece: Piece::black(PieceType::Knight),
        from: "b8".parse().unwrap(),
        to: "c6".parse().unwrap(),
        ..Default::default()
    };
    assert_eq!(mc.to_string(), "♞c6");
}

#[test]
fn from_str_refuses_malformed_text() {
    assert_eq!("".parse::<Coords>(), Err(ParseCoordsError::WrongLength));
    assert_eq!("e44".parse::<Coords>(), Err(ParseCoordsError::WrongLength));
    assert_eq!("i1".parse::<Coords>(), Err(ParseCoordsError::BadFile));
    assert_eq!("ex".parse::<Coords>(), Err(ParseCoordsError::BadRank));
    assert_eq!("e0".parse::<Coords>(), Err(ParseCoordsError::BadRank));
    for x in 0..8u8 {
        for y in 0..8u8 {
            let c = Coords::new(x, y);
            assert_eq!(c.to_string().parse::<Coords>(), Ok(c));
        }
    }
}
