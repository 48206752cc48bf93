//! Character-level string utilities: equality, safe character access,
//! taking a prefix of characters, and rendering an unsigned integer
//! as its decimal digits.

use vstd::prelude::*;
use vstd::string::StrSliceExecFns;

verus! {

/// Compares two string slices character by character.
pub fn str_eq(a: &str, b: &str) -> (r: bool)
    ensures
        r == (a@ == b@),
{
    let a_len = a.unicode_len();
    let b_len = b.unicode_len();
    if a_len != b_len {
        return false;
    }
    let mut i: usize = 0;
    while i < a_len
        invariant
            a_len == a@.len(),
            b_len == b@.len(),
            a_len == b_len,
            i <= a_len,
            forall|j: int| 0 <= j < i ==> a@[j] == b@[j],
        decreases a_len - i,
    {
        if a.get_char(i) != b.get_char(i) {
            return false;
        }
        i = i + 1;
    }
    proof {
        assert(a@ =~= b@);
    }
    true
}

/// Returns the character at the given position, or `None` when the
/// position is past the end of the string.
pub fn get_char_at(s: &str, index: usize) -> (r: Option<char>)
    ensures
        index < s@.len() ==> r == Some(s@[index as int]),
        index >= s@.len() ==> r is None,
{
    if index < s.unicode_len() {
        Some(s.get_char(index))
    } else {
        None
    }
}

/// Returns the first character of the text, or `None` when it is empty.
pub fn get_first_char(text: &str) -> (r: Option<char>)
    ensures
        text@.len() > 0 ==> r == Some(text@[0]),
        text@.len() == 0 ==> r is None,
{
    get_char_at(text, 0)
}

/// Returns the second character of the text, or `None` when the text
/// holds fewer than two characters.
pub fn get_second_char(text: &str) -> (r: Option<char>)
    ensures
        text@.len() >= 2 ==> r == Some(text@[1]),
        text@.len() < 2 ==> r is None,
{
    get_char_at(text, 1)
}

/// Returns the first character of the text, or `None` when it is empty.
pub fn get_first_char_with_question_mark(text: &str) -> (r: Option<char>)
    ensures
        text@.len() > 0 ==> r == Some(text@[0]),
        text@.len() == 0 ==> r is None,
{
    match get_char_at(text, 0) {
        Some(c) => Some(c),
        None => None,
    }
}

/// Returns the string made of the first `n` characters of `s`, or all
/// of `s` when it holds fewer than `n` characters.
pub fn take_chars(s: &str, n: usize) -> (r: String)
    ensures
        n <= s@.len() ==> r@ == s@.subrange(0, n as int),
        n > s@.len() ==> r@ == s@,
{
    let len = s.unicode_len();
    let end = if n < len {
        n
    } else {
        len
    };
    let prefix = s.substring_char(0, end);
    proof {
        assert(n > s@.len() ==> prefix@ =~= s@);
    }
    String::from_str(prefix)
}

/// The character for a single decimal digit.
pub open spec fn decimal_digit_char(d: int) -> char {
    if d == 0 {
        '0'
    } else if d == 1 {
        '1'
    } else if d == 2 {
        '2'
    } else if d == 3 {
        '3'
    } else if d == 4 {
        '4'
    } else if d == 5 {
        '5'
    } else if d == 6 {
        '6'
    } else if d == 7 {
        '7'
    } else if d == 8 {
        '8'
    } else {
        '9'
    }
}

/// The decimal digits of a non-negative integer, most significant first,
/// with no leading zeros (a lone zero for `0`).
pub open spec fn decimal_digits(n: int) -> Seq<char>
    recommends
        n >= 0,
    decreases n,
{
    if n < 10 {
        seq![decimal_digit_char(n)]
    } else {
        decimal_digits(n / 10) + seq![decimal_digit_char(n % 10)]
    }
}

fn digit_str(d: u64) -> (r: &'static str)
    requires
        d < 10,
    ensures
        r@ == seq![decimal_digit_char(d as int)],
{
    if d == 0 {
        proof {
            reveal_strlit("0");
            assert("0"@ =~= seq![decimal_digit_char(0)]);
        }
        "0"
    } else if d == 1 {
        proof {
            reveal_strlit("1");
            assert("1"@ =~= seq![decimal_digit_char(1)]);
        }
        "1"
    } else if d == 2 {
        proof {
            reveal_strlit("2");
            assert("2"@ =~= seq![decimal_digit_char(2)]);
        }
        "2"
    } else if d == 3 {
        proof {
            reveal_strlit("3");
            assert("3"@ =~= seq![decimal_digit_char(3)]);
        }
        "3"
    } else if d == 4 {
        proof {
            reveal_strlit("4");
            assert("4"@ =~= seq![decimal_digit_char(4)]);
        }
        "4"
    } else if d == 5 {
        proof {
            reveal_strlit("5");
            assert("5"@ =~= seq![decimal_digit_char(5)]);
        }
        "5"
    } else if d == 6 {
        proof {
            reveal_strlit("6");
            assert("6"@ =~= seq![decimal_digit_char(6)]);
        }
        "6"
    } else if d == 7 {
        proof {
            reveal_strlit("7");
            assert("7"@ =~= seq![decimal_digit_char(7)]);
        }
        "7"
    } else if d == 8 {
        proof {
            reveal_strlit("8");
            assert("8"@ =~= seq![decimal_digit_char(8)]);
        }
        "8"
    } else {
        proof {
            reveal_strlit("9");
            assert("9"@ =~= seq![decimal_digit_char(9)]);
        }
        "9"
    }
}

/// Renders an unsigned integer as its decimal digits.
pub fn u64_to_string(n: u64) -> (r: String)
    ensures
        r@ == decimal_digits(n as int),
    decreases n,
{
    if n < 10 {
        String::from_str(digit_str(n))
    } else {
        let mut prefix = u64_to_string(n / 10);
        prefix.append(digit_str(n % 10));
        prefix
    }
}

} // verus!
