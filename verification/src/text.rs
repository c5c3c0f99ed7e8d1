//! Verified text rendering: decimal numbers, hexadecimal digits, and the
//! byte-level string escaping used by the control protocol's JSON framing.

use vstd::prelude::*;
use vstd::string::StringExecFns;

verus! {

/// Relies on String::push: appends exactly the given character to the
/// end of the string.
pub assume_specification[ String::push ](s: &mut String, ch: char)
    ensures
        final(s)@ == old(s)@.push(ch),
;

/// The character for one decimal digit.
pub open spec fn dec_digit_char(d: nat) -> char
    recommends
        d < 10,
{
    if d == 0 { '0' }
    else if d == 1 { '1' }
    else if d == 2 { '2' }
    else if d == 3 { '3' }
    else if d == 4 { '4' }
    else if d == 5 { '5' }
    else if d == 6 { '6' }
    else if d == 7 { '7' }
    else if d == 8 { '8' }
    else { '9' }
}

/// The shortest decimal rendering of a number, most significant digit first.
pub open spec fn spec_dec(n: nat) -> Seq<char>
    decreases n,
{
    if n < 10 {
        seq![dec_digit_char(n)]
    } else {
        spec_dec(n / 10) + seq![dec_digit_char(n % 10)]
    }
}

/// The character for one hexadecimal digit, lower case.
pub open spec fn hex_digit_char(d: nat) -> char
    recommends
        d < 16,
{
    if d < 10 { dec_digit_char(d) }
    else if d == 10 { 'a' }
    else if d == 11 { 'b' }
    else if d == 12 { 'c' }
    else if d == 13 { 'd' }
    else if d == 14 { 'e' }
    else { 'f' }
}

/// A byte as two lower-case hexadecimal digits.
pub open spec fn spec_hex_byte(b: u8) -> Seq<char> {
    seq![hex_digit_char(b as nat / 16), hex_digit_char(b as nat % 16)]
}

fn exec_dec_digit_char(d: u64) -> (c: char)
    requires
        d < 10,
    ensures
        c == dec_digit_char(d as nat),
{
    match d {
        0 => '0',
        1 => '1',
        2 => '2',
        3 => '3',
        4 => '4',
        5 => '5',
        6 => '6',
        7 => '7',
        8 => '8',
        _ => '9',
    }
}

fn exec_hex_digit_char(d: u8) -> (c: char)
    requires
        d < 16,
    ensures
        c == hex_digit_char(d as nat),
{
    match d {
        0 => '0',
        1 => '1',
        2 => '2',
        3 => '3',
        4 => '4',
        5 => '5',
        6 => '6',
        7 => '7',
        8 => '8',
        9 => '9',
        10 => 'a',
        11 => 'b',
        12 => 'c',
        13 => 'd',
        14 => 'e',
        _ => 'f',
    }
}

/// Appends the decimal rendering of `n` to `out`.
pub fn push_dec(out: &mut String, n: u64)
    ensures
        final(out)@ == old(out)@ + spec_dec(n as nat),
    decreases n,
{
    if n < 10 {
        out.push(exec_dec_digit_char(n));
        proof {
            assert(final(out)@ =~= old(out)@ + spec_dec(n as nat));
        }
    } else {
        push_dec(out, n / 10);
        out.push(exec_dec_digit_char(n % 10));
        proof {
            assert(final(out)@ =~= old(out)@ + spec_dec(n as nat));
        }
    }
}

/// The decimal rendering of `n` as a fresh string.
pub fn u32_to_dec(n: u32) -> (r: String)
    ensures
        r@ == spec_dec(n as nat),
{
    let mut s = String::new();
    push_dec(&mut s, n as u64);
    proof {
        assert(s@ =~= spec_dec(n as nat));
    }
    s
}

/// Appends the two-digit hexadecimal rendering of `b` to `out`.
pub fn push_hex_byte(out: &mut String, b: u8)
    ensures
        final(out)@ == old(out)@ + spec_hex_byte(b),
{
    out.push(exec_hex_digit_char(b / 16));
    out.push(exec_hex_digit_char(b % 16));
    proof {
        assert(final(out)@ =~= old(out)@ + spec_hex_byte(b));
    }
}

/// Appends `s` unchanged to `out`.
pub fn push_str_copy(out: &mut String, s: &str)
    ensures
        final(out)@ == old(out)@ + s@,
{
    out.append(s);
}

/// The byte for one decimal or hexadecimal digit, lower case.
pub open spec fn hex_digit_byte(d: nat) -> u8
    recommends
        d < 16,
{
    if d < 10 { (48 + d) as u8 } else { (87 + d) as u8 }
}

fn exec_hex_digit_byte(d: u8) -> (b: u8)
    requires
        d < 16,
    ensures
        b == hex_digit_byte(d as nat),
{
    if d < 10 { 48 + d } else { 87 + d }
}

/// How one byte of a UTF-8 string is written inside a JSON string
/// literal. Bytes of multi-byte characters are at or above 128 and
/// pass through unchanged.
pub open spec fn spec_json_escape_byte(b: u8) -> Seq<u8> {
    if b == 34 {  // quote
        seq![92u8, 34u8]
    } else if b == 92 {  // backslash
        seq![92u8, 92u8]
    } else if b == 10 {  // newline
        seq![92u8, 110u8]
    } else if b == 13 {  // carriage return
        seq![92u8, 114u8]
    } else if b == 9 {  // tab
        seq![92u8, 116u8]
    } else if b < 32 {
        seq![92u8, 117u8, 48u8, 48u8, hex_digit_byte(b as nat / 16), hex_digit_byte(b as nat % 16)]
    } else {
        seq![b]
    }
}

/// A whole UTF-8 string as it is written inside a JSON string literal,
/// without the surrounding quotes.
pub open spec fn spec_json_escape(s: Seq<u8>) -> Seq<u8>
    decreases s.len(),
{
    if s.len() == 0 {
        Seq::empty()
    } else {
        spec_json_escape(s.drop_last()) + spec_json_escape_byte(s.last())
    }
}

/// Appends the bytes of `s` unchanged to `out`.
pub fn push_bytes(out: &mut Vec<u8>, s: &[u8])
    ensures
        final(out)@ == old(out)@ + s@,
{
    let mut i: usize = 0;
    while i < s.len()
        invariant
            i <= s@.len(),
            out@ == old(out)@ + s@.take(i as int),
        decreases s@.len() - i,
    {
        out.push(s[i]);
        i = i + 1;
        proof {
            assert(out@ =~= old(out)@ + s@.take(i as int));
        }
    }
    proof {
        assert(s@.take(s@.len() as int) =~= s@);
    }
}

/// Appends `s` to `out` as it would be written inside a JSON string
/// literal, without the surrounding quotes.
pub fn push_json_escaped(out: &mut Vec<u8>, s: &[u8])
    ensures
        final(out)@ == old(out)@ + spec_json_escape(s@),
{
    let mut i: usize = 0;
    while i < s.len()
        invariant
            i <= s@.len(),
            out@ == old(out)@ + spec_json_escape(s@.take(i as int)),
        decreases s@.len() - i,
    {
        let b = s[i];
        if b == 34 {
            out.push(92);
            out.push(34);
        } else if b == 92 {
            out.push(92);
            out.push(92);
        } else if b == 10 {
            out.push(92);
            out.push(110);
        } else if b == 13 {
            out.push(92);
            out.push(114);
        } else if b == 9 {
            out.push(92);
            out.push(116);
        } else if b < 32 {
            out.push(92);
            out.push(117);
            out.push(48);
            out.push(48);
            out.push(exec_hex_digit_byte(b / 16));
            out.push(exec_hex_digit_byte(b % 16));
        } else {
            out.push(b);
        }
        i = i + 1;
        proof {
            assert(s@.take(i as int).drop_last() =~= s@.take(i - 1));
            assert(s@.take(i as int).last() == b);
            assert(out@ =~= old(out)@ + spec_json_escape(s@.take(i as int)));
        }
    }
    proof {
        assert(s@.take(s@.len() as int) =~= s@);
    }
}

} // verus!
