//! Coordinate notation: a file letter `a`-`h` followed by a rank digit `1`-`8`.

use vstd::prelude::*;
use vstd::string::*;
use crate::types::Square;
use crate::rules::on_board;

verus! {

/// The file that a letter names.
pub open spec fn file_of(c: char) -> Option<int> {
    if 'a' <= c && c <= 'h' {
        Some(c as int - 'a' as int)
    } else {
        None
    }
}

/// The rank that a digit names.
pub open spec fn rank_of(c: char) -> Option<int> {
    if '1' <= c && c <= '8' {
        Some(c as int - '1' as int)
    } else {
        None
    }
}

/// The file and rank that a text names: the text is two characters, a file
/// letter and a rank digit. Any other text names nothing.
pub open spec fn decode(s: Seq<char>) -> Option<(int, int)> {
    if s.len() == 2 && file_of(s[0]) is Some && rank_of(s[1]) is Some {
        Some((file_of(s[0]).unwrap(), rank_of(s[1]).unwrap()))
    } else {
        None
    }
}

/// The letter of a file.
pub open spec fn file_letter(f: int) -> char {
    ('a' as int + f) as char
}

/// The digit of a rank.
pub open spec fn rank_digit(r: int) -> char {
    ('1' as int + r) as char
}

/// The text that names a file and rank.
pub open spec fn notation(f: int, r: int) -> Seq<char> {
    seq![file_letter(f), rank_digit(r)]
}

/// Reading the name of a square of the board gives the square back.
pub proof fn lemma_decode_notation(f: int, r: int)
    requires
        on_board(f, r),
    ensures
        decode(notation(f, r)) == Some((f, r)),
{
}

/// A text that names a square is the name of that square.
pub proof fn lemma_notation_decode(s: Seq<char>)
    requires
        decode(s) is Some,
    ensures
        on_board(decode(s).unwrap().0, decode(s).unwrap().1),
        s == notation(decode(s).unwrap().0, decode(s).unwrap().1),
{
    assert(s =~= notation(decode(s).unwrap().0, decode(s).unwrap().1));
}

/// Reads a coordinate. Texts of another length, or with a letter outside
/// `a`-`h` or a digit outside `1`-`8`, are turned down.
pub fn parse_square(s: &str) -> (sq: Option<Square>)
    ensures
        match decode(s@) {
            Some((f, r)) => sq is Some && sq.unwrap().wf() && sq.unwrap().f() == f
                && sq.unwrap().r() == r,
            None => sq is None,
        },
{
    if s.unicode_len() != 2 {
        return None;
    }
    let a = s.get_char(0);
    let b = s.get_char(1);
    if 'a' <= a && a <= 'h' && '1' <= b && b <= '8' {
        let file: u8 = (a as u32 - 'a' as u32) as u8;
        let rank: u8 = (b as u32 - '1' as u32) as u8;
        Some(Square { file, rank })
    } else {
        None
    }
}

/// Writes a coordinate.
pub fn square_name(sq: Square) -> (s: String)
    requires
        sq.wf(),
    ensures
        s@ == notation(sq.f(), sq.r()),
{
    proof {
        reveal_strlit("a");
        reveal_strlit("b");
        reveal_strlit("c");
        reveal_strlit("d");
        reveal_strlit("e");
        reveal_strlit("f");
        reveal_strlit("g");
        reveal_strlit("h");
        reveal_strlit("1");
        reveal_strlit("2");
        reveal_strlit("3");
        reveal_strlit("4");
        reveal_strlit("5");
        reveal_strlit("6");
        reveal_strlit("7");
        reveal_strlit("8");
    }
    let letter: &str = match sq.file {
        0 => "a",
        1 => "b",
        2 => "c",
        3 => "d",
        4 => "e",
        5 => "f",
        6 => "g",
        _ => "h",
    };
    let digit: &str = match sq.rank {
        0 => "1",
        1 => "2",
        2 => "3",
        3 => "4",
        4 => "5",
        5 => "6",
        6 => "7",
        _ => "8",
    };
    let mut s = String::from_str(letter);
    s.append(digit);
    assert(s@ =~= notation(sq.f(), sq.r()));
    s
}

} // verus!
