//! Verified text encoders shared by the request builders: decimal integers,
//! percent-encodings for query strings, and JSON string escaping.

use vstd::prelude::*;

verus! {

use vstd::string::StringSliceAdditionalSpecFns;

/// Relies on std's `String::push`: appends exactly the given character.
#[verifier::external_body]
pub(crate) fn push_char(s: &mut String, c: char)
    ensures
        final(s)@ == old(s)@ + seq![c],
{
    s.push(c);
}

/// The decimal digit character for a value below ten.
pub open spec fn spec_digit_char(d: int) -> char
    recommends
        0 <= d < 10,
{
    if d == 0 { '0' }
    else if d == 1 { '1' }
    else if d == 2 { '2' }
    else if d == 3 { '3' }
    else if d == 4 { '4' }
    else if d == 5 { '5' }
    else if d == 6 { '6' }
    else if d == 7 { '7' }
    else if d == 8 { '8' }
    else { '9' }
}

/// Decimal digits of a non-negative integer, most significant first.
pub open spec fn spec_udecimal(n: nat) -> Seq<char>
    decreases n,
{
    if n < 10 {
        seq![spec_digit_char(n as int)]
    } else {
        spec_udecimal(n / 10) + seq![spec_digit_char((n % 10) as int)]
    }
}

/// Decimal rendering of an integer, with a leading minus sign when negative.
pub open spec fn spec_decimal(n: int) -> Seq<char> {
    if n < 0 {
        seq!['-'] + spec_udecimal((-n) as nat)
    } else {
        spec_udecimal(n as nat)
    }
}

fn digit_char(d: u64) -> (c: char)
    requires
        d < 10,
    ensures
        c == spec_digit_char(d as int),
{
    if d == 0 { '0' }
    else if d == 1 { '1' }
    else if d == 2 { '2' }
    else if d == 3 { '3' }
    else if d == 4 { '4' }
    else if d == 5 { '5' }
    else if d == 6 { '6' }
    else if d == 7 { '7' }
    else if d == 8 { '8' }
    else { '9' }
}

/// Renders an unsigned integer in decimal.
pub fn u64_to_string(n: u64) -> (r: String)
    ensures
        r@ == spec_udecimal(n as nat),
    decreases n,
{
    if n < 10 {
        let mut r = String::new();
        push_char(&mut r, digit_char(n));
        r
    } else {
        let mut r = u64_to_string(n / 10);
        push_char(&mut r, digit_char(n % 10));
        r
    }
}

/// Renders a signed integer in decimal.
pub fn i64_to_string(n: i64) -> (r: String)
    ensures
        r@ == spec_decimal(n as int),
{
    if n >= 0 {
        u64_to_string(n as u64)
    } else {
        let mag: u64 = if n == i64::MIN {
            9223372036854775808u64
        } else {
            (-n) as u64
        };
        assert(mag as nat == (-(n as int)) as nat);
        let mut r = String::new();
        push_char(&mut r, '-');
        let digits = u64_to_string(mag);
        r.append(digits.as_str());
        r
    }
}

/// Upper-case hexadecimal digit character for a value below sixteen.
pub open spec fn spec_hex_upper(d: int) -> char
    recommends
        0 <= d < 16,
{
    if d < 10 { spec_digit_char(d) }
    else if d == 10 { 'A' }
    else if d == 11 { 'B' }
    else if d == 12 { 'C' }
    else if d == 13 { 'D' }
    else if d == 14 { 'E' }
    else { 'F' }
}

/// Lower-case hexadecimal digit character for a value below sixteen.
pub open spec fn spec_hex_lower(d: int) -> char
    recommends
        0 <= d < 16,
{
    if d < 10 { spec_digit_char(d) }
    else if d == 10 { 'a' }
    else if d == 11 { 'b' }
    else if d == 12 { 'c' }
    else if d == 13 { 'd' }
    else if d == 14 { 'e' }
    else { 'f' }
}

fn hex_upper_char(d: u8) -> (c: char)
    requires
        d < 16,
    ensures
        c == spec_hex_upper(d as int),
{
    if d < 10 { digit_char(d as u64) }
    else if d == 10 { 'A' }
    else if d == 11 { 'B' }
    else if d == 12 { 'C' }
    else if d == 13 { 'D' }
    else if d == 14 { 'E' }
    else { 'F' }
}

fn hex_lower_char(d: u8) -> (c: char)
    requires
        d < 16,
    ensures
        c == spec_hex_lower(d as int),
{
    if d < 10 { digit_char(d as u64) }
    else if d == 10 { 'a' }
    else if d == 11 { 'b' }
    else if d == 12 { 'c' }
    else if d == 13 { 'd' }
    else if d == 14 { 'e' }
    else { 'f' }
}

/// Bytes that the form-urlencoded query serialization leaves unchanged:
/// ASCII alphanumerics and `*`, `-`, `.`, `_`.
pub open spec fn spec_form_unreserved(b: u8) -> bool {
    (48 <= b <= 57) || (65 <= b <= 90) || (97 <= b <= 122) || b == 42 || b == 45 || b == 46
        || b == 95
}

/// One byte under the form-urlencoded query serialization: space becomes `+`,
/// unreserved bytes stand as themselves, everything else becomes `%XX`.
pub open spec fn spec_form_byte(b: u8) -> Seq<char> {
    if b == 32 {
        seq!['+']
    } else if spec_form_unreserved(b) {
        seq![b as char]
    } else {
        seq!['%', spec_hex_upper(b as int / 16), spec_hex_upper(b as int % 16)]
    }
}

/// Form-urlencoded serialization of a byte string.
pub open spec fn spec_form_encoded(bytes: Seq<u8>) -> Seq<char>
    decreases bytes.len(),
{
    if bytes.len() == 0 {
        Seq::empty()
    } else {
        spec_form_byte(bytes.first()) + spec_form_encoded(bytes.drop_first())
    }
}

fn form_unreserved(b: u8) -> (r: bool)
    ensures
        r == spec_form_unreserved(b),
{
    (48 <= b && b <= 57) || (65 <= b && b <= 90) || (97 <= b && b <= 122) || b == 42 || b == 45
        || b == 46 || b == 95
}

/// Appends the form-urlencoded serialization of the string's UTF-8 bytes.
pub fn form_urlencode_into(out: &mut String, s: &str)
    ensures
        final(out)@ == old(out)@ + spec_form_encoded(s.spec_bytes()),
{
    let bytes = s.as_bytes();
    let n = bytes.len();
    let ghost start = out@;
    assert(bytes@.skip(0) == bytes@);
    for i in 0..n
        invariant
            n == bytes@.len(),
            bytes@ == s.spec_bytes(),
            out@ + spec_form_encoded(bytes@.skip(i as int)) == start + spec_form_encoded(bytes@),
    {
        let b = bytes[i];
        proof {
            assert(bytes@.skip(i as int).first() == b);
            assert(bytes@.skip(i as int).drop_first() =~= bytes@.skip(i + 1));
        }
        if b == 32 {
            push_char(out, '+');
        } else if form_unreserved(b) {
            push_char(out, b as char);
        } else {
            push_char(out, '%');
            assert(b / 16 < 16 && b % 16 < 16);
            push_char(out, hex_upper_char(b / 16));
            push_char(out, hex_upper_char(b % 16));
            assert(seq!['%', spec_hex_upper(b as int / 16)] + seq![spec_hex_upper(b as int % 16)]
                =~= spec_form_byte(b));
        }
        assert(out@ + spec_form_encoded(bytes@.skip(i + 1)) =~= start + spec_form_encoded(bytes@));
    }
    assert(bytes@.skip(n as int) =~= Seq::<u8>::empty());
    assert(out@ =~= start + spec_form_encoded(s.spec_bytes()));
}

/// Form-urlencoded serialization of a string's UTF-8 bytes.
pub fn form_urlencode(s: &str) -> (r: String)
    ensures
        r@ == spec_form_encoded(s.spec_bytes()),
{
    let mut r = String::new();
    form_urlencode_into(&mut r, s);
    r
}

/// Bytes that the path-style percent encoding leaves unchanged: ASCII
/// alphanumerics and `-`, `.`, `_`, `~`.
pub open spec fn spec_percent_unreserved(b: u8) -> bool {
    (48 <= b <= 57) || (65 <= b <= 90) || (97 <= b <= 122) || b == 45 || b == 46 || b == 95
        || b == 126
}

/// One byte under the path-style percent encoding: unreserved bytes stand as
/// themselves, everything else (space included) becomes `%XX`.
pub open spec fn spec_percent_byte(b: u8) -> Seq<char> {
    if spec_percent_unreserved(b) {
        seq![b as char]
    } else {
        seq!['%', spec_hex_upper(b as int / 16), spec_hex_upper(b as int % 16)]
    }
}

/// Path-style percent encoding of a byte string.
pub open spec fn spec_percent_encoded(bytes: Seq<u8>) -> Seq<char>
    decreases bytes.len(),
{
    if bytes.len() == 0 {
        Seq::empty()
    } else {
        spec_percent_byte(bytes.first()) + spec_percent_encoded(bytes.drop_first())
    }
}

fn percent_unreserved(b: u8) -> (r: bool)
    ensures
        r == spec_percent_unreserved(b),
{
    (48 <= b && b <= 57) || (65 <= b && b <= 90) || (97 <= b && b <= 122) || b == 45 || b == 46
        || b == 95 || b == 126
}

/// Appends the path-style percent encoding of the string's UTF-8 bytes.
pub fn percent_encode_into(out: &mut String, s: &str)
    ensures
        final(out)@ == old(out)@ + spec_percent_encoded(s.spec_bytes()),
{
    let bytes = s.as_bytes();
    let n = bytes.len();
    let ghost start = out@;
    assert(bytes@.skip(0) == bytes@);
    for i in 0..n
        invariant
            n == bytes@.len(),
            bytes@ == s.spec_bytes(),
            out@ + spec_percent_encoded(bytes@.skip(i as int)) == start + spec_percent_encoded(
                bytes@,
            ),
    {
        let b = bytes[i];
        proof {
            assert(bytes@.skip(i as int).first() == b);
            assert(bytes@.skip(i as int).drop_first() =~= bytes@.skip(i + 1));
        }
        if percent_unreserved(b) {
            push_char(out, b as char);
        } else {
            push_char(out, '%');
            assert(b / 16 < 16 && b % 16 < 16);
            push_char(out, hex_upper_char(b / 16));
            push_char(out, hex_upper_char(b % 16));
            assert(seq!['%', spec_hex_upper(b as int / 16)] + seq![spec_hex_upper(b as int % 16)]
                =~= spec_percent_byte(b));
        }
        assert(out@ + spec_percent_encoded(bytes@.skip(i + 1)) =~= start + spec_percent_encoded(
            bytes@,
        ));
    }
    assert(bytes@.skip(n as int) =~= Seq::<u8>::empty());
    assert(out@ =~= start + spec_percent_encoded(s.spec_bytes()));
}

/// Path-style percent encoding of a string's UTF-8 bytes.
pub fn percent_encode(s: &str) -> (r: String)
    ensures
        r@ == spec_percent_encoded(s.spec_bytes()),
{
    let mut r = String::new();
    percent_encode_into(&mut r, s);
    r
}

/// One character inside a JSON string literal: quote and backslash take a
/// backslash, control characters their short escapes or `\u00XX` with
/// lower-case hex digits, everything else stands as itself.
pub open spec fn spec_json_char(c: char) -> Seq<char> {
    if c == '"' {
        seq!['\\', '"']
    } else if c == '\\' {
        seq!['\\', '\\']
    } else if (c as int) < 32 {
        if c == '\u{8}' { seq!['\\', 'b'] }
        else if c == '\t' { seq!['\\', 't'] }
        else if c == '\n' { seq!['\\', 'n'] }
        else if c == '\u{c}' { seq!['\\', 'f'] }
        else if c == '\r' { seq!['\\', 'r'] }
        else {
            seq!['\\', 'u', '0', '0', spec_hex_lower(c as int / 16), spec_hex_lower(c as int % 16)]
        }
    } else {
        seq![c]
    }
}

/// The body of a JSON string literal for the given characters.
pub open spec fn spec_json_escaped(s: Seq<char>) -> Seq<char>
    decreases s.len(),
{
    if s.len() == 0 {
        Seq::empty()
    } else {
        spec_json_char(s.first()) + spec_json_escaped(s.drop_first())
    }
}

/// Appends the JSON string-literal body (no surrounding quotes) of a string.
pub fn json_escape_into(out: &mut String, s: &str)
    ensures
        final(out)@ == old(out)@ + spec_json_escaped(s@),
{
    let n = s.unicode_len();
    let ghost start = out@;
    assert(s@.skip(0) == s@);
    for i in 0..n
        invariant
            n == s@.len(),
            out@ + spec_json_escaped(s@.skip(i as int)) == start + spec_json_escaped(s@),
    {
        let c = s.get_char(i);
        proof {
            assert(s@.skip(i as int).first() == c);
            assert(s@.skip(i as int).drop_first() =~= s@.skip(i + 1));
        }
        if c == '"' {
            push_char(out, '\\');
            push_char(out, '"');
        } else if c == '\\' {
            push_char(out, '\\');
            push_char(out, '\\');
        } else if (c as u32) < 32 {
            if c == '\u{8}' {
                push_char(out, '\\');
                push_char(out, 'b');
            } else if c == '\t' {
                push_char(out, '\\');
                push_char(out, 't');
            } else if c == '\n' {
                push_char(out, '\\');
                push_char(out, 'n');
            } else if c == '\u{c}' {
                push_char(out, '\\');
                push_char(out, 'f');
            } else if c == '\r' {
                push_char(out, '\\');
                push_char(out, 'r');
            } else {
                let code = c as u32;
                push_char(out, '\\');
                push_char(out, 'u');
                push_char(out, '0');
                push_char(out, '0');
                push_char(out, hex_lower_char((code / 16) as u8));
                push_char(out, hex_lower_char((code % 16) as u8));
            }
        } else {
            push_char(out, c);
        }
        assert(out@ + spec_json_escaped(s@.skip(i + 1)) =~= start + spec_json_escaped(s@));
    }
    assert(s@.skip(n as int) =~= Seq::<char>::empty());
    assert(out@ =~= start + spec_json_escaped(s@));
}

} // verus!
