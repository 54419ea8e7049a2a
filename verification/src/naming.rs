//! File names for diary and note entries, and the diary-name parser.
//!
//! A diary file is named by six digits and the `.md` extension: four year
//! digits followed by two month digits, the month between 01 and 12.  A note
//! file is named by a 26-character time-ordered identifier and `.md`.

use vstd::prelude::*;
use vstd::arithmetic::div_mod::{
    lemma_div_denominator, lemma_div_is_ordered, lemma_fundamental_div_mod,
    lemma_mod_division_less_than_divisor,
};
use vstd::string::StringExecFns;
use crate::date::YearMonth;
use crate::{digit_char, digit_val, four_digits, is_digit_char, two_digits};

verus! {

/// The year encoded in the first four characters of a diary file name.
pub open spec fn year_of_name(s: Seq<char>) -> int {
    digit_val(s[0]) * 1000 + digit_val(s[1]) * 100 + digit_val(s[2]) * 10 + digit_val(s[3])
}

/// The month encoded in the fifth and sixth characters of a diary file name.
pub open spec fn month_of_name(s: Seq<char>) -> int {
    digit_val(s[4]) * 10 + digit_val(s[5])
}

/// True of the names the diary scanner accepts: exactly six digits followed
/// by `.md`, the two month digits reading 01 through 12.
pub open spec fn is_diary_name(s: Seq<char>) -> bool {
    &&& s.len() == 9
    &&& forall|i: int| 0 <= i < 6 ==> is_digit_char(#[trigger] s[i])
    &&& s[6] == '.'
    &&& s[7] == 'm'
    &&& s[8] == 'd'
    &&& 1 <= month_of_name(s) <= 12
}

/// What the scanner reads out of one directory entry's name: the year and
/// month of a well-formed diary name, nothing of any other name.
pub open spec fn spec_parse_diary_name(s: Seq<char>) -> Option<(int, int)> {
    if is_diary_name(s) {
        Some((year_of_name(s), month_of_name(s)))
    } else {
        None
    }
}

/// The diary file name of a month: `YYYYMM.md`.
pub open spec fn diary_name(y: int, m: int) -> Seq<char> {
    four_digits(y) + two_digits(m) + ".md"@
}

/// True of the characters of Crockford's base32 alphabet, which time-ordered
/// note identifiers are written in.
pub open spec fn is_id_char(c: char) -> bool {
    is_digit_char(c) || ('A' <= c && c <= 'Z' && c != 'I' && c != 'L' && c != 'O' && c != 'U')
}

/// True of note file names: a 26-character identifier followed by `.md`.
pub open spec fn is_note_name(s: Seq<char>) -> bool {
    &&& s.len() == 29
    &&& forall|i: int| 0 <= i < 26 ==> is_id_char(#[trigger] s[i])
    &&& s[26] == '.'
    &&& s[27] == 'm'
    &&& s[28] == 'd'
}

/// Numeric value of an ASCII digit character, or nothing for any other
/// character.
fn digit_of(c: char) -> (r: Option<u32>)
    ensures
        match r {
            Some(d) => is_digit_char(c) && d == digit_val(c) && d <= 9,
            None => !is_digit_char(c),
        },
{
    if '0' <= c && c <= '9' {
        Some(c as u32 - '0' as u32)
    } else {
        None
    }
}

/// Parses a directory entry's name as a diary file name, returning its month.
/// Names that do not match the pattern, or whose month digits fall outside
/// 01 through 12, yield nothing.
pub fn parse_diary_name(name: &str) -> (r: Option<YearMonth>)
    ensures
        match r {
            Some(ym) => spec_parse_diary_name(name@) == Some((ym.year as int, ym.month as int))
                && ym.wf(),
            None => spec_parse_diary_name(name@) is None,
        },
{
    if !name.is_ascii() {
        proof {
            if is_diary_name(name@) {
                assert forall|i: int| 0 <= i < name@.len() implies '\0' <= #[trigger] name@[i]
                    <= '\u{7f}' by {
                    if i < 6 {
                        assert(is_digit_char(name@[i]));
                    }
                }
            }
        }
        return None;
    }
    if name.unicode_len() != 9 {
        return None;
    }
    let y1 = match digit_of(name.get_char(0)) {
        Some(d) => d,
        None => {
            return None;
        },
    };
    let y2 = match digit_of(name.get_char(1)) {
        Some(d) => d,
        None => {
            return None;
        },
    };
    let y3 = match digit_of(name.get_char(2)) {
        Some(d) => d,
        None => {
            return None;
        },
    };
    let y4 = match digit_of(name.get_char(3)) {
        Some(d) => d,
        None => {
            return None;
        },
    };
    let m1 = match digit_of(name.get_char(4)) {
        Some(d) => d,
        None => {
            return None;
        },
    };
    let m2 = match digit_of(name.get_char(5)) {
        Some(d) => d,
        None => {
            return None;
        },
    };
    let year: u32 = y1 * 1000 + y2 * 100 + y3 * 10 + y4;
    let month: u32 = m1 * 10 + m2;
    if name.get_char(6) != '.' || name.get_char(7) != 'm' || name.get_char(8) != 'd' {
        return None;
    }
    if month < 1 || month > 12 {
        return None;
    }
    assert(is_diary_name(name@));
    assert(year == year_of_name(name@));
    Some(YearMonth { year: year as i32, month })
}

/// The text of a single decimal digit.
fn digit_str(d: u32) -> (r: &'static str)
    requires
        d <= 9,
    ensures
        r@ =~= seq![digit_char(d as int)],
{
    proof {
        reveal_strlit("0");
        reveal_strlit("1");
        reveal_strlit("2");
        reveal_strlit("3");
        reveal_strlit("4");
        reveal_strlit("5");
        reveal_strlit("6");
        reveal_strlit("7");
        reveal_strlit("8");
        reveal_strlit("9");
    }
    if d == 0 {
        "0"
    } else if d == 1 {
        "1"
    } else if d == 2 {
        "2"
    } else if d == 3 {
        "3"
    } else if d == 4 {
        "4"
    } else if d == 5 {
        "5"
    } else if d == 6 {
        "6"
    } else if d == 7 {
        "7"
    } else if d == 8 {
        "8"
    } else {
        "9"
    }
}

/// Appends two zero-padded decimal digits.
pub(crate) fn push_two_digits(s: &mut String, v: u32)
    requires
        v <= 99,
    ensures
        final(s)@ == old(s)@ + two_digits(v as int),
{
    s.append(digit_str(v / 10));
    s.append(digit_str(v % 10));
    proof {
        lemma_mod_division_less_than_divisor(v as int, 10);
        assert(s@ =~= old(s)@ + two_digits(v as int));
    }
}

/// Appends four zero-padded decimal digits.
pub(crate) fn push_four_digits(s: &mut String, v: u32)
    requires
        v <= 9999,
    ensures
        final(s)@ == old(s)@ + four_digits(v as int),
{
    proof {
        lemma_div_is_ordered(v as int, 9999, 1000);
        lemma_mod_division_less_than_divisor(v as int / 100, 10);
        lemma_mod_division_less_than_divisor(v as int / 10, 10);
        lemma_mod_division_less_than_divisor(v as int, 10);
    }
    s.append(digit_str(v / 1000));
    s.append(digit_str((v / 100) % 10));
    s.append(digit_str((v / 10) % 10));
    s.append(digit_str(v % 10));
    proof {
        assert(s@ =~= old(s)@ + four_digits(v as int));
    }
}

/// The file name of a diary month: four year digits, two month digits, `.md`.
pub fn diary_file_name(ym: YearMonth) -> (r: String)
    requires
        ym.wf(),
    ensures
        r@ == diary_name(ym.year as int, ym.month as int),
{
    let mut s = String::new();
    push_four_digits(&mut s, ym.year as u32);
    push_two_digits(&mut s, ym.month);
    s.append(".md");
    proof {
        assert(s@ =~= diary_name(ym.year as int, ym.month as int));
    }
    s
}

/// The file name of a note entry: the identifier and the `.md` extension.
pub fn note_file_name(id: &str) -> (r: String)
    ensures
        r@ == id@ + ".md"@,
{
    let mut s = String::from_str(id);
    s.append(".md");
    s
}

/// A decimal digit's character carries exactly its value.
proof fn lemma_digit_char_val(d: int)
    requires
        0 <= d <= 9,
    ensures
        is_digit_char(digit_char(d)),
        digit_val(digit_char(d)) == d,
{
}

/// The four digits of a value below ten thousand recompose to the value.
proof fn lemma_four_digit_split(v: int)
    requires
        0 <= v <= 9999,
    ensures
        v / 1000 <= 9,
        (v / 100) % 10 <= 9,
        (v / 10) % 10 <= 9,
        v % 10 <= 9,
        0 <= v / 1000,
        0 <= (v / 100) % 10,
        0 <= (v / 10) % 10,
        0 <= v % 10,
        (v / 1000) * 1000 + ((v / 100) % 10) * 100 + ((v / 10) % 10) * 10 + v % 10 == v,
{
    lemma_div_is_ordered(v, 9999, 1000);
    lemma_mod_division_less_than_divisor(v / 100, 10);
    lemma_mod_division_less_than_divisor(v / 10, 10);
    lemma_mod_division_less_than_divisor(v, 10);
    lemma_fundamental_div_mod(v, 10);
    lemma_fundamental_div_mod(v / 10, 10);
    lemma_fundamental_div_mod(v / 100, 10);
    lemma_div_denominator(v, 10, 10);
    lemma_div_denominator(v, 100, 10);
    assert((v / 10) / 10 == v / 100);
    assert((v / 100) / 10 == v / 1000);
}

/// The two digits of a value below one hundred recompose to the value.
proof fn lemma_two_digit_split(v: int)
    requires
        0 <= v <= 99,
    ensures
        v / 10 <= 9,
        v % 10 <= 9,
        0 <= v / 10,
        0 <= v % 10,
        (v / 10) * 10 + v % 10 == v,
{
    lemma_div_is_ordered(v, 99, 10);
    lemma_mod_division_less_than_divisor(v, 10);
    lemma_fundamental_div_mod(v, 10);
}

/// A freshly written diary file name parses back to the month it was written
/// for: rendering and parsing round-trip on every well-formed month.
pub proof fn lemma_diary_name_round_trip(y: int, m: int)
    requires
        0 <= y <= 9999,
        1 <= m <= 12,
    ensures
        spec_parse_diary_name(diary_name(y, m)) == Some((y, m)),
{
    reveal_strlit(".md");
    let s = diary_name(y, m);
    lemma_four_digit_split(y);
    lemma_two_digit_split(m);
    lemma_digit_char_val(y / 1000);
    lemma_digit_char_val((y / 100) % 10);
    lemma_digit_char_val((y / 10) % 10);
    lemma_digit_char_val(y % 10);
    lemma_digit_char_val(m / 10);
    lemma_digit_char_val(m % 10);
    assert(s.len() == 9);
    assert(s[0] == digit_char(y / 1000));
    assert(s[1] == digit_char((y / 100) % 10));
    assert(s[2] == digit_char((y / 10) % 10));
    assert(s[3] == digit_char(y % 10));
    assert(s[4] == digit_char(m / 10));
    assert(s[5] == digit_char(m % 10));
    assert forall|i: int| 0 <= i < 6 implies is_digit_char(#[trigger] s[i]) by {
        if i == 0 {
        } else if i == 1 {
        } else if i == 2 {
        } else if i == 3 {
        } else if i == 4 {
        } else {
        }
    }
    assert(year_of_name(s) == y);
    assert(month_of_name(s) == m);
    assert(is_diary_name(s));
}

} // verus!
