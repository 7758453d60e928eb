//! JSON string escaping.
//!
//! The service's JSON bodies embed caller-supplied strings (image ids, the
//! `Host` header). A JSON string literal escapes the quote, the backslash and
//! every control character; the common control characters get their short
//! forms and the rest the `\u00XX` form with lowercase hex digits.

use vstd::prelude::*;

verus! {

/// The lowercase hex digit character for a value in `0..=15`.
pub open spec fn spec_hex_char(d: int) -> char {
    if d < 10 {
        crate::num::spec_digit_char(d)
    } else if d == 10 {
        'a'
    } else if d == 11 {
        'b'
    } else if d == 12 {
        'c'
    } else if d == 13 {
        'd'
    } else if d == 14 {
        'e'
    } else {
        'f'
    }
}

/// How a single character appears inside a JSON string literal.
pub open spec fn spec_escape_char(c: char) -> Seq<char> {
    if c == '"' {
        seq!['\\', '"']
    } else if c == '\\' {
        seq!['\\', '\\']
    } else if c == '\u{8}' {
        seq!['\\', 'b']
    } else if c == '\t' {
        seq!['\\', 't']
    } else if c == '\n' {
        seq!['\\', 'n']
    } else if c == '\u{c}' {
        seq!['\\', 'f']
    } else if c == '\r' {
        seq!['\\', 'r']
    } else if (c as int) < 0x20 {
        seq!['\\', 'u', '0', '0', spec_hex_char(c as int / 16), spec_hex_char(c as int % 16)]
    } else {
        seq![c]
    }
}

/// The body of the JSON string literal that denotes `s` (without the
/// surrounding quotes).
pub open spec fn spec_json_escape(s: Seq<char>) -> Seq<char>
    decreases s.len(),
{
    if s.len() == 0 {
        Seq::empty()
    } else {
        spec_json_escape(s.drop_last()) + spec_escape_char(s.last())
    }
}

/// The one-character string for a lowercase hex digit.
fn hex_str(d: u32) -> (r: &'static str)
    requires
        d < 16,
    ensures
        r@ == seq![spec_hex_char(d as int)],
{
    proof {
        reveal_strlit("a");
        reveal_strlit("b");
        reveal_strlit("c");
        reveal_strlit("d");
        reveal_strlit("e");
        reveal_strlit("f");
    }
    if d < 10 {
        crate::num::digit_str(d)
    } else {
        let r: &'static str = if d == 10 {
            "a"
        } else if d == 11 {
            "b"
        } else if d == 12 {
            "c"
        } else if d == 13 {
            "d"
        } else if d == 14 {
            "e"
        } else {
            "f"
        };
        proof {
            assert(r@ =~= seq![spec_hex_char(d as int)]);
        }
        r
    }
}

/// Appends the escaped form of one character.
fn push_escaped(out: &mut String, c: char)
    ensures
        final(out)@ == old(out)@ + spec_escape_char(c),
{
    proof {
        reveal_strlit("\\\"");
        reveal_strlit("\\\\");
        reveal_strlit("\\b");
        reveal_strlit("\\t");
        reveal_strlit("\\n");
        reveal_strlit("\\f");
        reveal_strlit("\\r");
        reveal_strlit("\\u00");
    }
    if c == '"' {
        out.append("\\\"");
        proof {
            assert(out@ =~= old(out)@ + spec_escape_char(c));
        }
    } else if c == '\\' {
        out.append("\\\\");
        proof {
            assert(out@ =~= old(out)@ + spec_escape_char(c));
        }
    } else if c == '\u{8}' {
        out.append("\\b");
        proof {
            assert(out@ =~= old(out)@ + spec_escape_char(c));
        }
    } else if c == '\t' {
        out.append("\\t");
        proof {
            assert(out@ =~= old(out)@ + spec_escape_char(c));
        }
    } else if c == '\n' {
        out.append("\\n");
        proof {
            assert(out@ =~= old(out)@ + spec_escape_char(c));
        }
    } else if c == '\u{c}' {
        out.append("\\f");
        proof {
            assert(out@ =~= old(out)@ + spec_escape_char(c));
        }
    } else if c == '\r' {
        out.append("\\r");
        proof {
            assert(out@ =~= old(out)@ + spec_escape_char(c));
        }
    } else if (c as u32) < 0x20 {
        let code = c as u32;
        out.append("\\u00");
        out.append(hex_str(code / 16));
        out.append(hex_str(code % 16));
        proof {
            assert(out@ =~= old(out)@ + spec_escape_char(c));
        }
    } else {
        crate::text::push_char(out, c);
        proof {
            assert(out@ =~= old(out)@ + spec_escape_char(c));
        }
    }
}

/// Escapes a string for inclusion in a JSON string literal.
pub fn json_escape(s: &str) -> (r: String)
    ensures
        r@ == spec_json_escape(s@),
{
    let len = s.unicode_len();
    let mut out = String::new();
    let mut i: usize = 0;
    while i < len
        invariant
            len == s@.len(),
            i <= len,
            out@ == spec_json_escape(s@.subrange(0, i as int)),
        decreases len - i,
    {
        let ghost done = s@.subrange(0, i as int);
        let c = s.get_char(i);
        push_escaped(&mut out, c);
        i = i + 1;
        proof {
            assert(s@.subrange(0, i as int).drop_last() =~= done);
            assert(s@.subrange(0, i as int).last() == c);
            assert(out@ == spec_json_escape(s@.subrange(0, i as int)));
        }
    }
    proof {
        assert(s@.subrange(0, len as int) =~= s@);
    }
    out
}

} // verus!
