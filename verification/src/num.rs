//! Decimal text for `i32` values: formatting and parsing.
//!
//! The adder route prints `"<a> + <b> = <a+b>"`, and its two query
//! parameters are bound by parsing decimal integers; both directions are
//! implemented and specified here.

use vstd::prelude::*;

verus! {

/// The decimal digit character for a value in `0..=9`.
pub open spec fn spec_digit_char(d: int) -> char {
    if d == 0 {
        '0'
    } else if d == 1 {
        '1'
    } else if d == 2 {
        '2'
    } else if d == 3 {
        '3'
    } else if d == 4 {
        '4'
    } else if d == 5 {
        '5'
    } else if d == 6 {
        '6'
    } else if d == 7 {
        '7'
    } else if d == 8 {
        '8'
    } else {
        '9'
    }
}

/// The decimal digit string of a nonnegative value, most significant digit
/// first, with no leading zero except for the value zero itself.
pub open spec fn spec_nat_digits(n: nat) -> Seq<char>
    decreases n,
{
    if n < 10 {
        seq![spec_digit_char(n as int)]
    } else {
        spec_nat_digits(n / 10).push(spec_digit_char((n % 10) as int))
    }
}

/// The decimal string of a signed value: a `-` sign for negative values,
/// then the digits of the magnitude.
pub open spec fn spec_i32_string(n: int) -> Seq<char> {
    if n < 0 {
        seq!['-'] + spec_nat_digits((-n) as nat)
    } else {
        spec_nat_digits(n as nat)
    }
}

/// The one-character string for a decimal digit.
pub(crate) fn digit_str(d: u32) -> (r: &'static str)
    requires
        d < 10,
    ensures
        r@ == seq![spec_digit_char(d as int)],
{
    proof {
        reveal_strlit("0");
        reveal_strlit("1");
        reveal_strlit("2");
        reveal_strlit("3");
        reveal_strlit("4");
        reveal_strlit("5");
        reveal_strlit("6");
        reveal_strlit("7");
        reveal_strlit("8");
        reveal_strlit("9");
    }
    let r: &'static str = if d == 0 {
        "0"
    } else if d == 1 {
        "1"
    } else if d == 2 {
        "2"
    } else if d == 3 {
        "3"
    } else if d == 4 {
        "4"
    } else if d == 5 {
        "5"
    } else if d == 6 {
        "6"
    } else if d == 7 {
        "7"
    } else if d == 8 {
        "8"
    } else {
        "9"
    };
    proof {
        assert(r@ =~= seq![spec_digit_char(d as int)]);
    }
    r
}

/// Formats a nonnegative value in decimal.
fn u32_to_string(n: u32) -> (r: String)
    ensures
        r@ == spec_nat_digits(n as nat),
    decreases n,
{
    if n < 10 {
        let d = digit_str(n);
        let r = d.to_owned();
        proof {
            assert(r@ =~= spec_nat_digits(n as nat));
        }
        r
    } else {
        let mut r = u32_to_string(n / 10);
        r.append(digit_str(n % 10));
        proof {
            assert(r@ =~= spec_nat_digits(n as nat));
        }
        r
    }
}

/// Formats a signed value in decimal, as the standard formatter prints an
/// `i32`.
pub fn i32_to_string(n: i32) -> (r: String)
    ensures
        r@ == spec_i32_string(n as int),
{
    if n >= 0 {
        u32_to_string(n as u32)
    } else {
        let magnitude: u32 = (-(n as i64)) as u32;
        proof {
            reveal_strlit("-");
        }
        let mut r = String::from_str("-");
        r.append(u32_to_string(magnitude).as_str());
        proof {
            assert(r@ =~= spec_i32_string(n as int));
        }
        r
    }
}

/// Whether a character is a decimal digit.
pub open spec fn spec_is_digit(c: char) -> bool {
    48 <= c as int <= 57
}

/// The value of a decimal digit character.
pub open spec fn spec_digit_val(c: char) -> int {
    c as int - 48
}

/// The value of a sequence of decimal digit characters, most significant
/// first.
pub open spec fn spec_digits_val(s: Seq<char>) -> int
    decreases s.len(),
{
    if s.len() == 0 {
        0
    } else {
        spec_digits_val(s.drop_last()) * 10 + spec_digit_val(s.last())
    }
}

/// Whether every character of a sequence is a decimal digit.
pub open spec fn spec_all_digits(s: Seq<char>) -> bool {
    forall|i: int| 0 <= i < s.len() ==> spec_is_digit(s[i])
}

/// What parsing a string as an `i32` yields: an optional sign, then one or
/// more decimal digits and nothing else, and the signed value must fit.
/// Leading zeros are accepted.
pub open spec fn spec_parse_i32(s: Seq<char>) -> Option<int> {
    let has_sign = s.len() > 0 && (s[0] == '-' || s[0] == '+');
    let negative = s.len() > 0 && s[0] == '-';
    let digits = if has_sign {
        s.drop_first()
    } else {
        s
    };
    if digits.len() > 0 && spec_all_digits(digits) {
        let v = if negative {
            -spec_digits_val(digits)
        } else {
            spec_digits_val(digits)
        };
        if i32::MIN <= v <= i32::MAX {
            Some(v)
        } else {
            None
        }
    } else {
        None
    }
}

/// Parses a string as a decimal `i32`, as the standard `FromStr` for `i32`
/// does: an optional sign, then one or more digits, and the value in range.
pub fn parse_i32(s: &str) -> (r: Option<i32>)
    ensures
        match r {
            Some(v) => spec_parse_i32(s@) == Some(v as int),
            None => spec_parse_i32(s@) is None,
        },
{
    let len = s.unicode_len();
    if len == 0 {
        return None;
    }
    let first = s.get_char(0);
    let negative = first == '-';
    let has_sign = negative || first == '+';
    let start: usize = if has_sign {
        1
    } else {
        0
    };
    if start == len {
        proof {
            assert(s@.drop_first().len() == 0);
        }
        return None;
    }
    let ghost all: Seq<char> = s@.subrange(start as int, len as int);
    proof {
        if has_sign {
            assert(s@.drop_first() =~= all);
        } else {
            assert(s@ =~= all);
        }
    }
    let mut i: usize = start;
    let mut acc: u64 = 0;
    let mut too_big = false;
    while i < len
        invariant
            start <= i <= len,
            start < len,
            len == s@.len(),
            negative == (s@[0] == '-'),
            has_sign == (s@[0] == '-' || s@[0] == '+'),
            all == (if has_sign {
                s@.drop_first()
            } else {
                s@
            }),
            all == s@.subrange(start as int, len as int),
            spec_all_digits(s@.subrange(start as int, i as int)),
            !too_big ==> acc == spec_digits_val(s@.subrange(start as int, i as int)) && acc
                <= 2147483648,
            too_big ==> spec_digits_val(s@.subrange(start as int, i as int)) > 2147483648,
        decreases len - i,
    {
        let ghost done = s@.subrange(start as int, i as int);
        let c = s.get_char(i);
        let code = c as u32;
        if code < 48 || code > 57 {
            proof {
                assert(all[i - start as int] == s@[i as int]);
                assert(!spec_all_digits(all));
            }
            return None;
        }
        let d: u64 = (code - 48) as u64;
        proof {
            assert(s@.subrange(start as int, i as int + 1).drop_last() =~= done);
            assert(s@.subrange(start as int, i as int + 1).last() == c);
            assert(spec_digit_val(c) == d);
        }
        if !too_big {
            let next: u64 = acc * 10 + d;
            if next > 2147483648 {
                too_big = true;
            } else {
                acc = next;
            }
        } else {
            proof {
                assert(spec_digits_val(done) * 10 + spec_digit_val(c) > 2147483648);
            }
        }
        i = i + 1;
        proof {
            assert(spec_all_digits(s@.subrange(start as int, i as int)));
        }
    }
    if too_big {
        return None;
    }
    if negative {
        let v: i64 = -(acc as i64);
        proof {
            assert(i32::MIN <= v <= 0);
        }
        Some(v as i32)
    } else {
        if acc > 2147483647 {
            None
        } else {
            Some(acc as i32)
        }
    }
}

} // verus!
