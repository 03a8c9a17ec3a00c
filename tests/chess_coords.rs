use chessmate::domain::Wish;
use chessmate::chess::{
    convert_str_to_u8, convert_to_text_notation, get_relative_coords, is_col_uppercase,
    ChessWish, ChessWishErr, Color, ColorParseErr, ConvertSquareToStrError, ConvertStrToU8Error,
    RelMov, Square,
};

#[test]
fn test_convert_str_to_u8() {
    let temp = convert_str_to_u8("a8").ok().unwrap();
    assert_eq!((temp.0, temp.1), (0, 0));
    let temp = convert_str_to_u8("h1").ok().unwrap();
    assert_eq!((temp.0, temp.1), (7, 7));
    let temp = convert_str_to_u8("e2").ok().unwrap();
    assert_eq!((temp.0, temp.1), (4, 6));
    let temp = convert_str_to_u8("e4").ok().unwrap();
    assert_eq!((temp.0, temp.1), (4, 4));
    let temp = convert_str_to_u8("c7").ok().unwrap();
    assert_eq!((temp.0, temp.1), (2, 1));
}

#[test]
fn test_convert_to_text_notation() {
    assert_eq!(convert_to_text_notation(Square(0, 0)).ok().unwrap(), "a8");
    assert_eq!(convert_to_text_notation(Square(7, 7)).ok().unwrap(), "h1");
    assert_eq!(convert_to_text_notation(Square(4, 4)).ok().unwrap(), "e4");
}

#[test]
fn test_get_relative_coords() {
    assert_eq!(get_relative_coords(Square(4, 6), RelMov(0, -1)), Some(Square(4, 5)));
}

#[test]
fn relative_coords_off_board() {
    assert_eq!(get_relative_coords(Square(0, 0), RelMov(-1, 0)), None);
    assert_eq!(get_relative_coords(Square(7, 7), RelMov(1, 1)), None);
    assert_eq!(get_relative_coords(Square(6, 7), RelMov(1, -2)), Some(Square(7, 5)));
}

#[test]
fn square_errors() {
    assert_eq!(convert_str_to_u8("e"), Err(ConvertStrToU8Error::ArgumentTooShort));
    assert_eq!(convert_str_to_u8(""), Err(ConvertStrToU8Error::ArgumentTooShort));
    assert_eq!(convert_str_to_u8("ex"), Err(ConvertStrToU8Error::ArgumentIsNotConvertibleToNumber));
    assert_eq!(convert_str_to_u8("z4"), Err(ConvertStrToU8Error::LetterOutOfRange));
    assert_eq!(convert_str_to_u8("a9"), Err(ConvertStrToU8Error::NumberOutOfRange));
    assert_eq!(convert_str_to_u8("E4"), Ok(Square(4, 4)));
}

#[test]
fn square_name_errors() {
    assert_eq!(convert_to_text_notation(Square(8, 0)), Err(ConvertSquareToStrError::IncorrectHorizontalInput));
    assert_eq!(convert_to_text_notation(Square(0, 8)), Err(ConvertSquareToStrError::IncorrectVerticalInput));
}

#[test]
fn chess_wishes() {
    let white = ChessWish::parse("white").ok().unwrap();
    let black = ChessWish::parse("black").ok().unwrap();
    assert!(white.is_match(&black));
    assert!(!white.is_match(&white));
    assert_eq!(ChessWish::parse("red"), Err(ChessWishErr::InvalidWish));
    assert_eq!(Color::parse("Black"), Ok(Color::Black));
    assert_eq!(Color::parse("white"), Ok(Color::White));
    assert_eq!(Color::parse("WHITE"), Err(ColorParseErr::InvalidColor));
    assert_eq!(Color::White.opposite(), Color::Black);
    assert!(is_col_uppercase(Color::White));
    assert!(!is_col_uppercase(Color::Black));
}
