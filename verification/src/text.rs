//! Character-level text transformations used by the artifact writers:
//! properties-file escaping, JSON string escaping, and decimal rendering of
//! integers.

use vstd::prelude::*;

use crate::trusted::push_char;

verus! {

/// How one character is escaped in a properties file: a backslash doubles,
/// line breaks become `\n` and `\r`, an equals sign gains a backslash, and
/// every other character stands as itself. Escaping character by character is
/// what the ordered whole-string replacements (backslash first, then line
/// breaks, then the equals sign) amount to; a different order would escape
/// the introduced backslashes again.
pub open spec fn spec_prop_escape_char(c: char) -> Seq<char> {
    if c == '\\' {
        seq!['\\', '\\']
    } else if c == '\n' {
        seq!['\\', 'n']
    } else if c == '\r' {
        seq!['\\', 'r']
    } else if c == '=' {
        seq!['\\', '=']
    } else {
        seq![c]
    }
}

/// The properties-file escaping of a whole string.
pub open spec fn spec_prop_escape(s: Seq<char>) -> Seq<char>
    decreases s.len(),
{
    if s.len() == 0 {
        Seq::empty()
    } else {
        spec_prop_escape_char(s[0]) + spec_prop_escape(s.drop_first())
    }
}

/// Appending one character appends its escaping.
proof fn lemma_prop_escape_push(s: Seq<char>, c: char)
    ensures
        spec_prop_escape(s.push(c)) == spec_prop_escape(s) + spec_prop_escape_char(c),
    decreases s.len(),
{
    if s.len() == 0 {
        assert(s.push(c)[0] == c);
        assert(s.push(c).drop_first() =~= Seq::<char>::empty());
        assert(spec_prop_escape(Seq::<char>::empty()) == Seq::<char>::empty());
        assert(spec_prop_escape(s.push(c)) == spec_prop_escape_char(c) + Seq::<char>::empty());
        assert(spec_prop_escape_char(c) + Seq::<char>::empty() =~= spec_prop_escape_char(c));
        assert(spec_prop_escape(s) + spec_prop_escape_char(c) =~= spec_prop_escape_char(c));
    } else {
        lemma_prop_escape_push(s.drop_first(), c);
        assert(s.push(c).drop_first() =~= s.drop_first().push(c));
        assert(s.push(c)[0] == s[0]);
        assert(spec_prop_escape(s.push(c)) == spec_prop_escape_char(s[0]) + spec_prop_escape(
            s.drop_first().push(c),
        ));
        assert(spec_prop_escape(s.push(c)) =~= spec_prop_escape(s) + spec_prop_escape_char(c));
    }
}

/// Escapes a string for use as a key or value in a properties file.
pub fn escape_property_value(s: &str) -> (r: String)
    ensures
        r@ == spec_prop_escape(s@),
{
    let mut r = String::new();
    let len = s.unicode_len();
    assert(s@.take(0) =~= Seq::<char>::empty());
    for i in 0..len
        invariant
            len == s@.len(),
            r@ == spec_prop_escape(s@.take(i as int)),
    {
        let c = s.get_char(i);
        if c == '\\' {
            push_char(&mut r, '\\');
            push_char(&mut r, '\\');
        } else if c == '\n' {
            push_char(&mut r, '\\');
            push_char(&mut r, 'n');
        } else if c == '\r' {
            push_char(&mut r, '\\');
            push_char(&mut r, 'r');
        } else if c == '=' {
            push_char(&mut r, '\\');
            push_char(&mut r, '=');
        } else {
            push_char(&mut r, c);
        }
        proof {
            lemma_prop_escape_push(s@.take(i as int), s@[i as int]);
            assert(s@.take(i + 1) =~= s@.take(i as int).push(s@[i as int]));
            assert(r@ =~= spec_prop_escape(s@.take(i + 1)));
        }
    }
    proof {
        assert(s@.take(len as int) =~= s@);
    }
    r
}

/// The lowercase hexadecimal digit for a value below sixteen.
pub open spec fn spec_hex_char(n: int) -> char {
    if n == 0 {
        '0'
    } else if n == 1 {
        '1'
    } else if n == 2 {
        '2'
    } else if n == 3 {
        '3'
    } else if n == 4 {
        '4'
    } else if n == 5 {
        '5'
    } else if n == 6 {
        '6'
    } else if n == 7 {
        '7'
    } else if n == 8 {
        '8'
    } else if n == 9 {
        '9'
    } else if n == 10 {
        'a'
    } else if n == 11 {
        'b'
    } else if n == 12 {
        'c'
    } else if n == 13 {
        'd'
    } else if n == 14 {
        'e'
    } else {
        'f'
    }
}

/// The decimal digit character for a value below ten.
pub open spec fn spec_digit_char(n: int) -> char {
    spec_hex_char(if 0 <= n < 10 {
        n
    } else {
        0
    })
}

fn digit_char(d: u64) -> (c: char)
    requires
        d < 10,
    ensures
        c == spec_digit_char(d as int),
{
    match d {
        0 => '0',
        1 => '1',
        2 => '2',
        3 => '3',
        4 => '4',
        5 => '5',
        6 => '6',
        7 => '7',
        8 => '8',
        _ => '9',
    }
}

fn hex_char(d: u32) -> (c: char)
    requires
        d < 16,
    ensures
        c == spec_hex_char(d as int),
{
    match d {
        0 => '0',
        1 => '1',
        2 => '2',
        3 => '3',
        4 => '4',
        5 => '5',
        6 => '6',
        7 => '7',
        8 => '8',
        9 => '9',
        10 => 'a',
        11 => 'b',
        12 => 'c',
        13 => 'd',
        14 => 'e',
        _ => 'f',
    }
}

/// The decimal rendering of a nonnegative integer, without a sign.
pub open spec fn spec_dec_nat(n: nat) -> Seq<char>
    decreases n,
{
    if n < 10 {
        seq![spec_digit_char(n as int)]
    } else {
        spec_dec_nat(n / 10).push(spec_digit_char((n % 10) as int))
    }
}

/// The decimal rendering of an integer, with a leading minus sign when
/// negative.
pub open spec fn spec_dec_int(n: int) -> Seq<char> {
    if n < 0 {
        seq!['-'] + spec_dec_nat((-n) as nat)
    } else {
        spec_dec_nat(n as nat)
    }
}

/// Appends the decimal rendering of an unsigned integer.
fn append_dec_u64(out: &mut String, n: u64)
    ensures
        final(out)@ == old(out)@ + spec_dec_nat(n as nat),
    decreases n,
{
    if n < 10 {
        push_char(out, digit_char(n));
    } else {
        append_dec_u64(out, n / 10);
        push_char(out, digit_char(n % 10));
    }
}

/// Appends the decimal rendering of a signed integer.
pub fn append_dec_i64(out: &mut String, n: i64)
    ensures
        final(out)@ == old(out)@ + spec_dec_int(n as int),
{
    if n >= 0 {
        append_dec_u64(out, n as u64);
    } else {
        push_char(out, '-');
        let magnitude: u64 = if n == i64::MIN {
            9223372036854775808u64
        } else {
            (-n) as u64
        };
        assert(magnitude as nat == (-(n as int)) as nat);
        append_dec_u64(out, magnitude);
        assert(old(out)@.push('-') + spec_dec_nat((-(n as int)) as nat) =~= old(out)@ + spec_dec_int(
            n as int,
        ));
    }
}

/// How one character is escaped inside a JSON string literal: quote and
/// backslash gain a backslash, the common control characters use their short
/// forms, the remaining control characters use a `\u00` escape, and every
/// other character stands as itself.
pub open spec fn spec_json_escape_char(c: char) -> Seq<char> {
    if c == '"' {
        seq!['\\', '"']
    } else if c == '\\' {
        seq!['\\', '\\']
    } else if c == '\n' {
        seq!['\\', 'n']
    } else if c == '\r' {
        seq!['\\', 'r']
    } else if c == '\t' {
        seq!['\\', 't']
    } else if (c as u32) < 32 {
        seq!['\\', 'u', '0', '0', spec_hex_char((c as u32) as int / 16), spec_hex_char((c as u32) as int % 16)]
    } else {
        seq![c]
    }
}

/// The JSON escaping of a whole string.
pub open spec fn spec_json_escape(s: Seq<char>) -> Seq<char>
    decreases s.len(),
{
    if s.len() == 0 {
        Seq::empty()
    } else {
        spec_json_escape_char(s[0]) + spec_json_escape(s.drop_first())
    }
}

/// Appending one character appends its escaping.
proof fn lemma_json_escape_push(s: Seq<char>, c: char)
    ensures
        spec_json_escape(s.push(c)) == spec_json_escape(s) + spec_json_escape_char(c),
    decreases s.len(),
{
    if s.len() == 0 {
        assert(s.push(c)[0] == c);
        assert(s.push(c).drop_first() =~= Seq::<char>::empty());
        assert(spec_json_escape(Seq::<char>::empty()) == Seq::<char>::empty());
        assert(spec_json_escape(s.push(c)) == spec_json_escape_char(c) + Seq::<char>::empty());
        assert(spec_json_escape_char(c) + Seq::<char>::empty() =~= spec_json_escape_char(c));
        assert(spec_json_escape(s) + spec_json_escape_char(c) =~= spec_json_escape_char(c));
    } else {
        lemma_json_escape_push(s.drop_first(), c);
        assert(s.push(c).drop_first() =~= s.drop_first().push(c));
        assert(s.push(c)[0] == s[0]);
        assert(spec_json_escape(s.push(c)) == spec_json_escape_char(s[0]) + spec_json_escape(
            s.drop_first().push(c),
        ));
        assert(spec_json_escape(s.push(c)) =~= spec_json_escape(s) + spec_json_escape_char(c));
    }
}

/// Appends the JSON escaping of a string.
pub fn append_json_escaped(out: &mut String, s: &str)
    ensures
        final(out)@ == old(out)@ + spec_json_escape(s@),
{
    let len = s.unicode_len();
    assert(s@.take(0) =~= Seq::<char>::empty());
    assert(old(out)@ + spec_json_escape(s@.take(0)) =~= old(out)@);
    for i in 0..len
        invariant
            len == s@.len(),
            out@ == old(out)@ + spec_json_escape(s@.take(i as int)),
    {
        let c = s.get_char(i);
        if c == '"' {
            push_char(out, '\\');
            push_char(out, '"');
        } else if c == '\\' {
            push_char(out, '\\');
            push_char(out, '\\');
        } else if c == '\n' {
            push_char(out, '\\');
            push_char(out, 'n');
        } else if c == '\r' {
            push_char(out, '\\');
            push_char(out, 'r');
        } else if c == '\t' {
            push_char(out, '\\');
            push_char(out, 't');
        } else {
            let u = c as u32;
            if u < 32 {
                push_char(out, '\\');
                push_char(out, 'u');
                push_char(out, '0');
                push_char(out, '0');
                push_char(out, hex_char(u / 16));
                push_char(out, hex_char(u % 16));
            } else {
                push_char(out, c);
            }
        }
        proof {
            lemma_json_escape_push(s@.take(i as int), s@[i as int]);
            assert(s@.take(i + 1) =~= s@.take(i as int).push(s@[i as int]));
            assert(out@ =~= old(out)@ + spec_json_escape(s@.take(i + 1)));
        }
    }
    proof {
        assert(s@.take(len as int) =~= s@);
    }
}

} // verus!
