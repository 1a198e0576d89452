//! JSON text framing for the messages the adapters send to the broker:
//! string escaping, quoting, and decimal and hexadecimal number formatting.
//! Every builder states the exact character sequence it produces.

use vstd::prelude::*;
use vstd::string::{StrSliceExecFns, StringExecFns};

verus! {

/// The hexadecimal digit for `n` (lower case), for `0 <= n < 16`.
pub open spec fn hex_digit_char(n: int) -> char {
    if n == 0 {
        '0'
    } else if n == 1 {
        '1'
    } else if n == 2 {
        '2'
    } else if n == 3 {
        '3'
    } else if n == 4 {
        '4'
    } else if n == 5 {
        '5'
    } else if n == 6 {
        '6'
    } else if n == 7 {
        '7'
    } else if n == 8 {
        '8'
    } else if n == 9 {
        '9'
    } else if n == 10 {
        'a'
    } else if n == 11 {
        'b'
    } else if n == 12 {
        'c'
    } else if n == 13 {
        'd'
    } else if n == 14 {
        'e'
    } else {
        'f'
    }
}

/// The decimal digit for `n`, for `0 <= n < 10`.
pub open spec fn dec_digit_char(n: int) -> char {
    if n <= 9 {
        hex_digit_char(n)
    } else {
        '0'
    }
}

/// How one character appears inside a JSON string: quote and backslash are
/// escaped, control characters take the `\u00XX` form, everything else
/// stands as itself.
pub open spec fn json_escaped_char(c: char) -> Seq<char> {
    if c == '"' {
        seq!['\\', '"']
    } else if c == '\\' {
        seq!['\\', '\\']
    } else if (c as u32) < 32 {
        seq![
            '\\',
            'u',
            '0',
            '0',
            hex_digit_char(c as u32 as int / 16),
            hex_digit_char(c as u32 as int % 16),
        ]
    } else {
        seq![c]
    }
}

/// The body of a JSON string holding the text `s`.
pub open spec fn json_escaped(s: Seq<char>) -> Seq<char>
    decreases s.len(),
{
    if s.len() == 0 {
        Seq::empty()
    } else {
        json_escaped(s.drop_last()) + json_escaped_char(s.last())
    }
}

/// The JSON string holding the text `s`, quotes included.
pub open spec fn json_quoted(s: Seq<char>) -> Seq<char> {
    seq!['"'] + json_escaped(s) + seq!['"']
}

/// The decimal digits of `n`, most significant first, no sign and no
/// leading zero (a single `0` for zero).
pub open spec fn dec_str(n: nat) -> Seq<char>
    decreases n,
{
    if n < 10 {
        seq![dec_digit_char(n as int)]
    } else {
        dec_str(n / 10) + seq![dec_digit_char((n % 10) as int)]
    }
}

/// The decimal form of `n` with a leading minus sign when negative.
pub open spec fn dec_str_signed(n: int) -> Seq<char> {
    if n < 0 {
        seq!['-'] + dec_str((-n) as nat)
    } else {
        dec_str(n as nat)
    }
}

/// Two lower-case hexadecimal digits for one byte.
pub open spec fn hex_byte(b: u8) -> Seq<char> {
    seq![hex_digit_char(b as int / 16), hex_digit_char(b as int % 16)]
}

/// The bytes of `bs` in order, two hexadecimal digits each.
pub open spec fn hex_bytes(bs: Seq<u8>) -> Seq<char>
    decreases bs.len(),
{
    if bs.len() == 0 {
        Seq::empty()
    } else {
        hex_bytes(bs.drop_last()) + hex_byte(bs.last())
    }
}

/// One JSON object of a single string member.
pub open spec fn json_object1(key: Seq<char>, value: Seq<char>) -> Seq<char> {
    seq!['{'] + json_quoted(key) + seq![':'] + json_quoted(value) + seq!['}']
}

/// Relies on String::push: appends exactly one character.
#[verifier::external_body]
pub(crate) fn push_char(out: &mut String, c: char)
    ensures
        final(out)@ == old(out)@.push(c),
{
    out.push(c);
}

/// The hexadecimal digit character for `n < 16`.
fn hex_digit(n: u8) -> (c: char)
    requires
        n < 16,
    ensures
        c == hex_digit_char(n as int),
{
    match n {
        0 => '0',
        1 => '1',
        2 => '2',
        3 => '3',
        4 => '4',
        5 => '5',
        6 => '6',
        7 => '7',
        8 => '8',
        9 => '9',
        10 => 'a',
        11 => 'b',
        12 => 'c',
        13 => 'd',
        14 => 'e',
        _ => 'f',
    }
}

/// Appends the escaped body of a JSON string holding `s`.
pub fn append_json_escaped(out: &mut String, s: &str)
    ensures
        final(out)@ == old(out)@ + json_escaped(s@),
{
    let n = s.unicode_len();
    let mut i: usize = 0;
    proof {
        assert(s@.subrange(0, 0) =~= Seq::<char>::empty());
        assert(out@ =~= old(out)@ + json_escaped(s@.subrange(0, 0)));
    }
    while i < n
        invariant
            i <= n,
            n == s@.len(),
            out@ == old(out)@ + json_escaped(s@.subrange(0, i as int)),
        decreases n - i,
    {
        let c = s.get_char(i);
        let ghost prefix = out@;
        if c == '"' {
            out.append("\\\"");
            proof {
                reveal_strlit("\\\"");
                assert(out@ =~= prefix + json_escaped_char(c));
            }
        } else if c == '\\' {
            out.append("\\\\");
            proof {
                reveal_strlit("\\\\");
                assert(out@ =~= prefix + json_escaped_char(c));
            }
        } else if (c as u32) < 32 {
            let code = c as u32;
            out.append("\\u00");
            push_char(out, hex_digit((code / 16) as u8));
            push_char(out, hex_digit((code % 16) as u8));
            proof {
                reveal_strlit("\\u00");
                assert(out@ =~= prefix + json_escaped_char(c));
            }
        } else {
            push_char(out, c);
            proof {
                assert(out@ =~= prefix + json_escaped_char(c));
            }
        }
        proof {
            assert(s@.subrange(0, i + 1).drop_last() =~= s@.subrange(0, i as int));
            assert(s@.subrange(0, i + 1).last() == s@[i as int]);
            assert(out@ =~= old(out)@ + json_escaped(s@.subrange(0, i + 1)));
        }
        i = i + 1;
    }
    proof {
        assert(s@.subrange(0, n as int) =~= s@);
    }
}

/// Appends the JSON string holding `s`, quotes included.
pub fn append_json_quoted(out: &mut String, s: &str)
    ensures
        final(out)@ == old(out)@ + json_quoted(s@),
{
    push_char(out, '"');
    append_json_escaped(out, s);
    push_char(out, '"');
    proof {
        assert(out@ =~= old(out)@ + json_quoted(s@));
    }
}

/// The JSON string holding `s`, quotes included.
pub fn json_quoted_string(s: &str) -> (r: String)
    ensures
        r@ == json_quoted(s@),
{
    let mut out = String::new();
    append_json_quoted(&mut out, s);
    proof {
        assert(out@ =~= json_quoted(s@));
    }
    out
}

/// Appends the decimal digits of `n`.
pub fn append_u64(out: &mut String, n: u64)
    ensures
        final(out)@ == old(out)@ + dec_str(n as nat),
    decreases n,
{
    if n >= 10 {
        append_u64(out, n / 10);
        let d = (n % 10) as u8;
        push_char(out, hex_digit(d));
        proof {
            assert(out@ =~= old(out)@ + dec_str(n as nat));
        }
    } else {
        push_char(out, hex_digit(n as u8));
    }
}

/// Appends the decimal form of `n`, minus sign included when negative.
pub fn append_i64(out: &mut String, n: i64)
    ensures
        final(out)@ == old(out)@ + dec_str_signed(n as int),
{
    if n < 0 {
        push_char(out, '-');
        let magnitude = (-(n as i128)) as u64;
        append_u64(out, magnitude);
        proof {
            assert(out@ =~= old(out)@ + dec_str_signed(n as int));
        }
    } else {
        append_u64(out, n as u64);
    }
}

/// Appends the bytes `bytes[from..to]` as two hexadecimal digits each.
pub fn append_hex_range(out: &mut String, bytes: &Vec<u8>, from: usize, to: usize)
    requires
        from <= to <= bytes@.len(),
    ensures
        final(out)@ == old(out)@ + hex_bytes(bytes@.subrange(from as int, to as int)),
{
    let mut i: usize = from;
    proof {
        assert(bytes@.subrange(from as int, from as int) =~= Seq::<u8>::empty());
        assert(out@ =~= old(out)@ + hex_bytes(bytes@.subrange(from as int, from as int)));
    }
    while i < to
        invariant
            from <= i <= to,
            to <= bytes@.len(),
            out@ == old(out)@ + hex_bytes(bytes@.subrange(from as int, i as int)),
        decreases to - i,
    {
        let b = bytes[i];
        let ghost prefix = out@;
        push_char(out, hex_digit(b / 16));
        push_char(out, hex_digit(b % 16));
        proof {
            assert(out@ =~= prefix + hex_byte(b));
            assert(bytes@.subrange(from as int, i + 1).drop_last() =~= bytes@.subrange(
                from as int,
                i as int,
            ));
            assert(bytes@.subrange(from as int, i + 1).last() == bytes@[i as int]);
            assert(out@ =~= old(out)@ + hex_bytes(bytes@.subrange(from as int, i + 1)));
        }
        i = i + 1;
    }
}

/// One JSON object of a single string member, as text.
pub fn json_object1_string(key: &str, value: &str) -> (r: String)
    ensures
        r@ == json_object1(key@, value@),
{
    let mut out = String::new();
    push_char(&mut out, '{');
    append_json_quoted(&mut out, key);
    push_char(&mut out, ':');
    append_json_quoted(&mut out, value);
    push_char(&mut out, '}');
    proof {
        assert(out@ =~= json_object1(key@, value@));
    }
    out
}

} // verus!
