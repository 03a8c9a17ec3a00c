//! Chess values that matchmaking and the protocol use: the side a player
//! wishes for, and squares in algebraic notation (`e4`).
use vstd::prelude::*;
use vstd::string::StrSliceExecFns;
use vstd::string::StringExecFns;

use crate::domain::Wish;
use crate::text::{decimal, decimal_text, digit_of, same_text};

verus! {

/// A chess game; its rules are not part of this library.
pub struct ChessGame;

/// The side of a chess player.
#[derive(Debug, Clone, Copy, PartialEq, Eq, Structural)]
pub enum Color {
    Black,
    White,
}

impl Color {
    /// The other side.
    pub fn opposite(self) -> (r: Color)
        ensures
            r != self,
    {
        match self {
            Color::Black => Color::White,
            Color::White => Color::Black,
        }
    }

    /// The side that `s` names: `white` or `black`, with or without a capital.
    pub open spec fn of_text(s: Seq<char>) -> Result<Color, ColorParseErr> {
        if s == "Black"@ || s == "black"@ {
            Ok(Color::Black)
        } else if s == "White"@ || s == "white"@ {
            Ok(Color::White)
        } else {
            Err(ColorParseErr::InvalidColor)
        }
    }

    pub fn parse(s: &str) -> (r: Result<Color, ColorParseErr>)
        ensures
            r == Color::of_text(s@),
    {
        if same_text(s, "Black") || same_text(s, "black") {
            Ok(Color::Black)
        } else if same_text(s, "White") || same_text(s, "white") {
            Ok(Color::White)
        } else {
            Err(ColorParseErr::InvalidColor)
        }
    }
}

/// A text that names no side.
#[derive(Debug, Clone, Copy, PartialEq, Eq, Structural)]
pub enum ColorParseErr {
    InvalidColor,
}

/// White's pieces are written in capitals.
pub fn is_col_uppercase(color: Color) -> (r: bool)
    ensures
        r == (color == Color::White),
{
    match color {
        Color::White => true,
        Color::Black => false,
    }
}

/// What a waiting chess player asks of an opponent: the side they want.
#[derive(Debug, Clone, Copy, PartialEq, Eq, Structural)]
pub struct ChessWish {
    pub color: Color,
}

/// A wish text that names no side.
#[derive(Debug, Clone, Copy, PartialEq, Eq, Structural)]
pub enum ChessWishErr {
    InvalidWish,
}

impl Wish for ChessWish {
    /// Two wishes match when they ask for different sides.
    open spec fn matches(&self, other: &ChessWish) -> bool {
        self.color != other.color
    }

    fn is_match(&self, other: &ChessWish) -> (r: bool) {
        self.color != other.color
    }
}

impl ChessWish {
    /// The wish that `s` writes: `white` or `black`.
    pub open spec fn of_text(s: Seq<char>) -> Result<ChessWish, ChessWishErr> {
        if s == "white"@ {
            Ok(ChessWish { color: Color::White })
        } else if s == "black"@ {
            Ok(ChessWish { color: Color::Black })
        } else {
            Err(ChessWishErr::InvalidWish)
        }
    }

    pub fn parse(s: &str) -> (r: Result<ChessWish, ChessWishErr>)
        ensures
            r == ChessWish::of_text(s@),
    {
        if same_text(s, "white") {
            Ok(ChessWish { color: Color::White })
        } else if same_text(s, "black") {
            Ok(ChessWish { color: Color::Black })
        } else {
            Err(ChessWishErr::InvalidWish)
        }
    }
}

/// A square: its file (0 for `a`) and its rank counted from the top (0 for
/// rank 8), so that (0, 0) is `a8`.
#[derive(Debug, Clone, Copy, PartialEq, Eq, Structural)]
pub struct Square(pub u8, pub u8);

/// A step across the board: files and ranks to add.
#[derive(Debug, Clone, Copy, PartialEq, Eq, Structural)]
pub struct RelMov(pub i8, pub i8);

/// Why a text is not a square.
#[derive(Debug, Clone, Copy, PartialEq, Eq, Structural)]
pub enum ConvertStrToU8Error {
    LetterOutOfRange,
    ArgumentTooShort,
    ArgumentIsNotConvertibleToNumber,
    /// A digit that is no rank: 0 or 9.
    NumberOutOfRange,
}

/// Why a square has no name.
#[derive(Debug, Clone, Copy, PartialEq, Eq, Structural)]
pub enum ConvertSquareToStrError {
    IncorrectHorizontalInput,
    IncorrectVerticalInput,
}

/// The file that a letter names, in either case.
pub open spec fn file_of(c: char) -> Option<u8> {
    if c == 'a' || c == 'A' {
        Some(0u8)
    } else if c == 'b' || c == 'B' {
        Some(1u8)
    } else if c == 'c' || c == 'C' {
        Some(2u8)
    } else if c == 'd' || c == 'D' {
        Some(3u8)
    } else if c == 'e' || c == 'E' {
        Some(4u8)
    } else if c == 'f' || c == 'F' {
        Some(5u8)
    } else if c == 'g' || c == 'G' {
        Some(6u8)
    } else if c == 'h' || c == 'H' {
        Some(7u8)
    } else {
        None
    }
}

/// The lower-case letter of a file.
pub open spec fn file_letter(x: u8) -> char {
    if x == 0 {
        'a'
    } else if x == 1 {
        'b'
    } else if x == 2 {
        'c'
    } else if x == 3 {
        'd'
    } else if x == 4 {
        'e'
    } else if x == 5 {
        'f'
    } else if x == 6 {
        'g'
    } else {
        'h'
    }
}

/// The square that a text such as `e4` names; characters after the second
/// are not read.
pub open spec fn square_of(s: Seq<char>) -> Result<Square, ConvertStrToU8Error> {
    if s.len() < 2 {
        Err(ConvertStrToU8Error::ArgumentTooShort)
    } else if digit_of(s[1]) is None {
        Err(ConvertStrToU8Error::ArgumentIsNotConvertibleToNumber)
    } else if file_of(s[0]) is None {
        Err(ConvertStrToU8Error::LetterOutOfRange)
    } else if digit_of(s[1])->0 == 0 || digit_of(s[1])->0 == 9 {
        Err(ConvertStrToU8Error::NumberOutOfRange)
    } else {
        Ok(Square(file_of(s[0])->0, (8 - digit_of(s[1])->0) as u8))
    }
}

/// The name of a square, such as `e4`.
pub open spec fn square_text(sq: Square) -> Result<Seq<char>, ConvertSquareToStrError> {
    if sq.0 > 7 {
        Err(ConvertSquareToStrError::IncorrectHorizontalInput)
    } else if sq.1 > 7 {
        Err(ConvertSquareToStrError::IncorrectVerticalInput)
    } else {
        Ok(seq![file_letter(sq.0)] + decimal((8 - sq.1) as nat))
    }
}

fn file_value(c: char) -> (r: Option<u8>)
    ensures
        r == file_of(c),
{
    match c {
        'a' | 'A' => Some(0),
        'b' | 'B' => Some(1),
        'c' | 'C' => Some(2),
        'd' | 'D' => Some(3),
        'e' | 'E' => Some(4),
        'f' | 'F' => Some(5),
        'g' | 'G' => Some(6),
        'h' | 'H' => Some(7),
        _ => None,
    }
}

fn rank_digit(c: char) -> (r: Option<u8>)
    ensures
        match r {
            Some(d) => digit_of(c) == Some(d as nat),
            None => digit_of(c) is None,
        },
{
    match c {
        '0' => Some(0),
        '1' => Some(1),
        '2' => Some(2),
        '3' => Some(3),
        '4' => Some(4),
        '5' => Some(5),
        '6' => Some(6),
        '7' => Some(7),
        '8' => Some(8),
        '9' => Some(9),
        _ => None,
    }
}

/// Reads a square such as `e4`; (0, 0) is `a8`.
pub fn convert_str_to_u8(square: &str) -> (r: Result<Square, ConvertStrToU8Error>)
    ensures
        r == square_of(square@),
{
    let n = square.unicode_len();
    if n < 2 {
        return Err(ConvertStrToU8Error::ArgumentTooShort);
    }
    let number = match rank_digit(square.get_char(1)) {
        Some(d) => d,
        None => return Err(ConvertStrToU8Error::ArgumentIsNotConvertibleToNumber),
    };
    let vertical = match file_value(square.get_char(0)) {
        Some(x) => x,
        None => return Err(ConvertStrToU8Error::LetterOutOfRange),
    };
    if number == 0 || number == 9 {
        return Err(ConvertStrToU8Error::NumberOutOfRange);
    }
    Ok(Square(vertical, 8 - number))
}

fn file_text(x: u8) -> (r: &'static str)
    requires
        x < 8,
    ensures
        r@ == seq![file_letter(x)],
{
    proof {
        reveal_strlit("a");
        reveal_strlit("b");
        reveal_strlit("c");
        reveal_strlit("d");
        reveal_strlit("e");
        reveal_strlit("f");
        reveal_strlit("g");
        reveal_strlit("h");
    }
    let r = match x {
        0 => "a",
        1 => "b",
        2 => "c",
        3 => "d",
        4 => "e",
        5 => "f",
        6 => "g",
        _ => "h",
    };
    assert(r@ =~= seq![file_letter(x)]);
    r
}

/// Names a square such as (4, 4) as `e4`.
pub fn convert_to_text_notation(square: Square) -> (r: Result<String, ConvertSquareToStrError>)
    ensures
        match r {
            Ok(s) => square_text(square) == Ok::<Seq<char>, ConvertSquareToStrError>(s@),
            Err(e) => square_text(square) == Err::<Seq<char>, ConvertSquareToStrError>(e),
        },
{
    let square_x = square.0;
    let square_y = square.1;
    if square_x > 7 {
        return Err(ConvertSquareToStrError::IncorrectHorizontalInput);
    }
    if square_y > 7 {
        return Err(ConvertSquareToStrError::IncorrectVerticalInput);
    }
    let mut r = String::from_str(file_text(square_x));
    let rank = decimal_text((8 - square_y) as u64);
    r.append(rank.as_str());
    Ok(r)
}

/// The square one step `offset` away from `square`, if it is on the board.
pub fn get_relative_coords(square: Square, offset: RelMov) -> (r: Option<Square>)
    ensures
        ({
            let x = square.0 as int + offset.0 as int;
            let y = square.1 as int + offset.1 as int;
            if 0 <= x <= 7 && 0 <= y <= 7 {
                r == Some(Square(x as u8, y as u8))
            } else {
                r is None
            }
        }),
{
    let x: i16 = square.0 as i16 + offset.0 as i16;
    let y: i16 = square.1 as i16 + offset.1 as i16;
    if 0 <= x && x <= 7 && 0 <= y && y <= 7 {
        Some(Square(x as u8, y as u8))
    } else {
        None
    }
}

} // verus!
