//! Text-building primitives: decimal, hexadecimal and binary rendering of
//! register values, whitespace trimming of command input, and appending
//! characters to an output `String`.

use vstd::prelude::*;

verus! {

/// Relies on std's `String::push`: appends exactly the given character.
#[verifier::external_body]
pub(crate) fn string_push(s: &mut String, c: char)
    ensures
        final(s)@ == old(s)@.push(c),
{
    s.push(c);
}

/// The character for one decimal digit.
pub open spec fn digit_char(d: nat) -> char {
    if d == 0 {
        '0'
    } else if d == 1 {
        '1'
    } else if d == 2 {
        '2'
    } else if d == 3 {
        '3'
    } else if d == 4 {
        '4'
    } else if d == 5 {
        '5'
    } else if d == 6 {
        '6'
    } else if d == 7 {
        '7'
    } else if d == 8 {
        '8'
    } else {
        '9'
    }
}

/// The decimal rendering of a number, most significant digit first,
/// with no leading zeros (zero itself renders as "0").
pub open spec fn dec_str(n: nat) -> Seq<char>
    decreases n,
{
    if n < 10 {
        seq![digit_char(n)]
    } else {
        dec_str(n / 10).push(digit_char(n % 10))
    }
}

fn dec_digit(d: u16) -> (c: char)
    requires
        d < 10,
    ensures
        c == digit_char(d as nat),
{
    match d {
        0 => '0',
        1 => '1',
        2 => '2',
        3 => '3',
        4 => '4',
        5 => '5',
        6 => '6',
        7 => '7',
        8 => '8',
        _ => '9',
    }
}

/// Appends the decimal rendering of `v` to `out`.
pub fn push_dec(out: &mut String, v: u16)
    ensures
        final(out)@ == old(out)@ + dec_str(v as nat),
    decreases v,
{
    if v >= 10 {
        let q = v / 10;
        assert(q < v) by (nonlinear_arith)
            requires
                v >= 10,
                q == v / 10,
        ;
        push_dec(out, q);
    }
    let c = dec_digit(v % 10);
    string_push(out, c);
    proof {
        if v < 10 {
            assert(v % 10 == v);
            assert(old(out)@ + dec_str(v as nat) =~= old(out)@.push(digit_char(v as nat)));
        } else {
            assert(old(out)@ + dec_str(v as nat) =~= (old(out)@ + dec_str((v / 10) as nat)).push(
                digit_char((v % 10) as nat),
            ));
        }
    }
}

/// The character for one hexadecimal digit, upper case.
pub open spec fn hex_char(d: nat) -> char {
    if d < 10 {
        digit_char(d)
    } else if d == 10 {
        'A'
    } else if d == 11 {
        'B'
    } else if d == 12 {
        'C'
    } else if d == 13 {
        'D'
    } else if d == 14 {
        'E'
    } else {
        'F'
    }
}

/// The two-digit upper-case hexadecimal rendering of a byte.
pub open spec fn hex2_str(v: nat) -> Seq<char> {
    seq![hex_char(v / 16 % 16), hex_char(v % 16)]
}

/// The four-digit upper-case hexadecimal rendering of a 16-bit word.
pub open spec fn hex4_str(v: nat) -> Seq<char> {
    seq![hex_char(v / 4096 % 16), hex_char(v / 256 % 16), hex_char(v / 16 % 16), hex_char(v % 16)]
}

fn hex_digit(d: u16) -> (c: char)
    requires
        d < 16,
    ensures
        c == hex_char(d as nat),
{
    if d < 10 {
        dec_digit(d)
    } else {
        match d {
            10 => 'A',
            11 => 'B',
            12 => 'C',
            13 => 'D',
            14 => 'E',
            _ => 'F',
        }
    }
}

/// Appends the two-digit hexadecimal rendering of `v` to `out`.
pub fn push_hex2(out: &mut String, v: u8)
    ensures
        final(out)@ == old(out)@ + hex2_str(v as nat),
{
    let w = v as u16;
    let c0 = hex_digit(w / 16 % 16);
    let c1 = hex_digit(w % 16);
    string_push(out, c0);
    string_push(out, c1);
    proof {
        assert(old(out)@ + hex2_str(v as nat) =~= old(out)@.push(hex_char((v / 16 % 16) as nat)).push(
            hex_char((v % 16) as nat),
        ));
    }
}

/// Appends the four-digit hexadecimal rendering of `v` to `out`.
pub fn push_hex4(out: &mut String, v: u16)
    ensures
        final(out)@ == old(out)@ + hex4_str(v as nat),
{
    let c0 = hex_digit(v / 4096 % 16);
    let c1 = hex_digit(v / 256 % 16);
    let c2 = hex_digit(v / 16 % 16);
    let c3 = hex_digit(v % 16);
    string_push(out, c0);
    string_push(out, c1);
    string_push(out, c2);
    string_push(out, c3);
    proof {
        assert(old(out)@ + hex4_str(v as nat) =~= old(out)@.push(hex_char((v / 4096 % 16) as nat)).push(
            hex_char((v / 256 % 16) as nat),
        ).push(hex_char((v / 16 % 16) as nat)).push(hex_char((v % 16) as nat)));
    }
}

/// The character for one binary digit.
pub open spec fn bin_char(b: nat) -> char {
    if b == 0 {
        '0'
    } else {
        '1'
    }
}

/// The eight-digit binary rendering of a byte, most significant bit first.
pub open spec fn bin8_str(v: nat) -> Seq<char> {
    seq![
        bin_char(v / 128 % 2),
        bin_char(v / 64 % 2),
        bin_char(v / 32 % 2),
        bin_char(v / 16 % 2),
        bin_char(v / 8 % 2),
        bin_char(v / 4 % 2),
        bin_char(v / 2 % 2),
        bin_char(v % 2),
    ]
}

fn bin_digit(b: u8) -> (c: char)
    requires
        b < 2,
    ensures
        c == bin_char(b as nat),
{
    if b == 0 {
        '0'
    } else {
        '1'
    }
}

/// Appends the eight-digit binary rendering of `v` to `out`.
pub fn push_bin8(out: &mut String, v: u8)
    ensures
        final(out)@ == old(out)@ + bin8_str(v as nat),
{
    let c0 = bin_digit(v / 128 % 2);
    let c1 = bin_digit(v / 64 % 2);
    let c2 = bin_digit(v / 32 % 2);
    let c3 = bin_digit(v / 16 % 2);
    let c4 = bin_digit(v / 8 % 2);
    let c5 = bin_digit(v / 4 % 2);
    let c6 = bin_digit(v / 2 % 2);
    let c7 = bin_digit(v % 2);
    string_push(out, c0);
    string_push(out, c1);
    string_push(out, c2);
    string_push(out, c3);
    string_push(out, c4);
    string_push(out, c5);
    string_push(out, c6);
    string_push(out, c7);
    proof {
        assert(old(out)@ + bin8_str(v as nat) =~= old(out)@.push(bin_char((v / 128 % 2) as nat)).push(
            bin_char((v / 64 % 2) as nat),
        ).push(bin_char((v / 32 % 2) as nat)).push(bin_char((v / 16 % 2) as nat)).push(
            bin_char((v / 8 % 2) as nat),
        ).push(bin_char((v / 4 % 2) as nat)).push(bin_char((v / 2 % 2) as nat)).push(
            bin_char((v % 2) as nat),
        ));
    }
}

/// Appends every character of `v` to `out`, in order.
pub fn push_chars(out: &mut String, v: &Vec<char>)
    ensures
        final(out)@ == old(out)@ + v@,
{
    let mut i: usize = 0;
    while i < v.len()
        invariant
            i <= v.len(),
            out@ == old(out)@ + v@.subrange(0, i as int),
        decreases v.len() - i,
    {
        string_push(out, v[i]);
        i += 1;
        proof {
            assert(v@.subrange(0, i as int) =~= v@.subrange(0, i - 1).push(v@[i - 1]));
            assert(out@ =~= old(out)@ + v@.subrange(0, i as int));
        }
    }
    proof {
        assert(v@.subrange(0, v@.len() as int) =~= v@);
    }
}

/// Whitespace, as command input trimming understands it.
pub open spec fn is_space_char(c: char) -> bool {
    c == ' ' || c == '\t' || c == '\n' || c == '\u{b}' || c == '\u{c}' || c == '\r' || c
        == '\u{85}' || c == '\u{a0}' || c == '\u{1680}' || ('\u{2000}' <= c && c <= '\u{200a}') || c
        == '\u{2028}' || c == '\u{2029}' || c == '\u{202f}' || c == '\u{205f}' || c == '\u{3000}'
}

fn is_space(c: char) -> (r: bool)
    ensures
        r == is_space_char(c),
{
    c == ' ' || c == '\t' || c == '\n' || c == '\u{b}' || c == '\u{c}' || c == '\r' || c
        == '\u{85}' || c == '\u{a0}' || c == '\u{1680}' || ('\u{2000}' <= c && c <= '\u{200a}') || c
        == '\u{2028}' || c == '\u{2029}' || c == '\u{202f}' || c == '\u{205f}' || c == '\u{3000}'
}

/// The text with its leading whitespace removed.
pub open spec fn trim_front(s: Seq<char>) -> Seq<char>
    decreases s.len(),
{
    if s.len() > 0 && is_space_char(s[0]) {
        trim_front(s.drop_first())
    } else {
        s
    }
}

/// The text with its trailing whitespace removed.
pub open spec fn trim_back(s: Seq<char>) -> Seq<char>
    decreases s.len(),
{
    if s.len() > 0 && is_space_char(s.last()) {
        trim_back(s.drop_last())
    } else {
        s
    }
}

/// The text with leading and trailing whitespace removed.
pub open spec fn trim_str(s: Seq<char>) -> Seq<char> {
    trim_back(trim_front(s))
}

/// Removes leading and trailing whitespace from a character buffer.
pub fn trim_chars(s: &Vec<char>) -> (r: Vec<char>)
    ensures
        r@ == trim_str(s@),
{
    let ghost len = s@.len() as int;
    proof {
        assert(s@.subrange(0, len) =~= s@);
    }
    let mut start: usize = 0;
    while start < s.len() && is_space(s[start])
        invariant
            start <= s@.len(),
            trim_front(s@) == trim_front(s@.subrange(start as int, len)),
            len == s@.len(),
        decreases s.len() - start,
    {
        proof {
            let sub = s@.subrange(start as int, len);
            assert(sub[0] == s@[start as int]);
            assert(sub.drop_first() =~= s@.subrange(start as int + 1, len));
        }
        start += 1;
    }
    proof {
        let sub = s@.subrange(start as int, len);
        if start < s@.len() {
            assert(sub[0] == s@[start as int]);
            assert(trim_front(sub) == sub);
        } else {
            assert(sub =~= Seq::<char>::empty());
        }
        assert(trim_front(s@) == s@.subrange(start as int, len));
    }
    let mut end: usize = s.len();
    while end > start && is_space(s[end - 1])
        invariant
            start <= end <= s@.len(),
            len == s@.len(),
            trim_str(s@) == trim_back(s@.subrange(start as int, end as int)),
        decreases end,
    {
        proof {
            let sub = s@.subrange(start as int, end as int);
            assert(sub.last() == s@[end - 1]);
            assert(sub.drop_last() =~= s@.subrange(start as int, end - 1));
        }
        end -= 1;
    }
    proof {
        let sub = s@.subrange(start as int, end as int);
        if end > start {
            assert(sub.last() == s@[end - 1]);
            assert(trim_back(sub) == sub);
        } else {
            assert(sub =~= Seq::<char>::empty());
        }
        assert(trim_str(s@) == s@.subrange(start as int, end as int));
    }
    let mut out: Vec<char> = Vec::new();
    let mut i: usize = start;
    while i < end
        invariant
            start <= i <= end <= s@.len(),
            out@ == s@.subrange(start as int, i as int),
        decreases end - i,
    {
        out.push(s[i]);
        i += 1;
        proof {
            assert(s@.subrange(start as int, i as int) =~= s@.subrange(start as int, i - 1).push(
                s@[i - 1],
            ));
        }
    }
    out
}

} // verus!
