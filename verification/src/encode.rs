//! Percent-encoding of query text, with spaces written as `+`.

use vstd::prelude::*;
use vstd::utf8::encode_utf8;
use crate::text::{chars_of, string_of};

verus! {

/// Bytes that percent-encoding leaves as they are: ASCII letters and digits,
/// `-`, `.`, `_` and `~`.
pub open spec fn is_unreserved(b: u8) -> bool {
    (0x30 <= b && b <= 0x39) || (0x41 <= b && b <= 0x5a) || (0x61 <= b && b <= 0x7a) || b == 0x2d
        || b == 0x2e || b == 0x5f || b == 0x7e
}

/// The upper-case hexadecimal digit for `n`, which is below 16.
pub open spec fn hex_digit(n: u8) -> char {
    if n < 10 {
        (0x30 + n) as u8 as char
    } else {
        (0x41 + n - 10) as u8 as char
    }
}

/// One byte, percent-encoded.
pub open spec fn percent_encoded_byte(b: u8) -> Seq<char> {
    if is_unreserved(b) {
        seq![b as char]
    } else {
        seq!['%', hex_digit(b / 16), hex_digit(b % 16)]
    }
}

/// A byte string, percent-encoded byte by byte.
pub open spec fn percent_encoded(bytes: Seq<u8>) -> Seq<char>
    decreases bytes.len(),
{
    if bytes.len() == 0 {
        Seq::empty()
    } else {
        percent_encoded_byte(bytes[0]) + percent_encoded(bytes.drop_first())
    }
}

/// `s` with every `%20` replaced by `+`, reading from the left.
pub open spec fn spaces_as_plus(s: Seq<char>) -> Seq<char>
    decreases s.len(),
{
    if s.len() == 0 {
        s
    } else if s.len() >= 3 && s[0] == '%' && s[1] == '2' && s[2] == '0' {
        seq!['+'] + spaces_as_plus(s.skip(3))
    } else {
        seq![s[0]] + spaces_as_plus(s.skip(1))
    }
}

/// One byte as it stands in a query: a space as `+`, any other byte
/// percent-encoded.
pub open spec fn query_encoded_byte(b: u8) -> Seq<char> {
    if b == 0x20 {
        seq!['+']
    } else {
        percent_encoded_byte(b)
    }
}

/// A byte string as it stands in a query.
pub open spec fn query_encoded(bytes: Seq<u8>) -> Seq<char>
    decreases bytes.len(),
{
    if bytes.len() == 0 {
        Seq::empty()
    } else {
        query_encoded_byte(bytes[0]) + query_encoded(bytes.drop_first())
    }
}

/// `urlencoding::encode` percent-encodes the UTF-8 bytes of `s`: every byte
/// except ASCII letters, digits, `-`, `_`, `.` and `~` becomes `%` and two
/// upper-case hexadecimal digits.
#[verifier::external_body]
fn percent_encode(s: &str) -> (out: String)
    ensures
        out@ == percent_encoded(encode_utf8(s@)),
{
    urlencoding::encode(s).into_owned()
}

/// Replaces every `%20` in `s` by `+`.
pub fn rewrite_spaces(s: &str) -> (out: String)
    ensures
        out@ == spaces_as_plus(s@),
{
    let chars = chars_of(s);
    let n = chars.len();
    let mut out: Vec<char> = Vec::new();
    let mut i: usize = 0;
    assert(chars@.skip(0) =~= chars@);
    while i < n
        invariant
            i <= n,
            n == chars.len(),
            spaces_as_plus(chars@) =~= out@ + spaces_as_plus(chars@.skip(i as int)),
        decreases n - i,
    {
        let ghost rest = chars@.skip(i as int);
        if n - i >= 3 && chars[i] == '%' && chars[i + 1] == '2' && chars[i + 2] == '0' {
            out.push('+');
            i += 3;
            assert(rest.skip(3) =~= chars@.skip(i as int));
        } else {
            out.push(chars[i]);
            i += 1;
            assert(rest.skip(1) =~= chars@.skip(i as int));
        }
    }
    assert(chars@.skip(n as int) =~= Seq::<char>::empty());
    string_of(&out)
}

/// Rewriting `%20` to `+` in a percent-encoded text gives the query form of
/// the bytes: a `%20` stands in such a text only where a space was encoded.
pub proof fn lemma_rewritten_encoding_is_query_encoding(bytes: Seq<u8>)
    ensures
        spaces_as_plus(percent_encoded(bytes)) == query_encoded(bytes),
    decreases bytes.len(),
{
    if bytes.len() > 0 {
        let b = bytes[0];
        let head = percent_encoded_byte(b);
        let rest = percent_encoded(bytes.drop_first());
        let s = head + rest;
        lemma_rewritten_encoding_is_query_encoding(bytes.drop_first());
        if is_unreserved(b) {
            assert(s[0] == b as char);
            assert(s.skip(1) =~= rest);
            assert(spaces_as_plus(s) =~= query_encoded_byte(b) + spaces_as_plus(rest));
        } else if b == 0x20 {
            assert(s[0] == '%' && s[1] == '2' && s[2] == '0');
            assert(s.skip(3) =~= rest);
            assert(spaces_as_plus(s) =~= query_encoded_byte(b) + spaces_as_plus(rest));
        } else {
            let x = hex_digit(b / 16);
            let y = hex_digit(b % 16);
            assert(x != '%' && y != '%');
            assert(!(x == '2' && y == '0'));
            let s1 = s.skip(1);
            let s2 = s1.skip(1);
            assert(s[0] == '%' && s[1] == x && s[2] == y);
            assert(s1[0] == x);
            assert(s2[0] == y);
            assert(s2.skip(1) =~= rest);
            assert(spaces_as_plus(s2) =~= seq![y] + spaces_as_plus(rest));
            assert(spaces_as_plus(s1) =~= seq![x] + spaces_as_plus(s2));
            assert(spaces_as_plus(s) =~= seq!['%'] + spaces_as_plus(s1));
            assert(spaces_as_plus(s) =~= query_encoded_byte(b) + spaces_as_plus(rest));
        }
    } else {
        assert(percent_encoded(bytes) =~= Seq::<char>::empty());
    }
}

/// One component of a query: the UTF-8 bytes of `s` percent-encoded, with
/// each space written as `+`.
pub fn encode_component(s: &str) -> (out: String)
    ensures
        out@ == query_encoded(encode_utf8(s@)),
{
    let encoded = percent_encode(s);
    proof {
        lemma_rewritten_encoding_is_query_encoding(encode_utf8(s@));
    }
    rewrite_spaces(encoded.as_str())
}

/// The characters that a query component is made of: those of the
/// unreserved bytes, `+` and `%`.
pub open spec fn is_component_char(c: char) -> bool {
    c == '+' || c == '%' || exists|b: u8| is_unreserved(b) && c == b as char
}

/// A query component holds no character that could end it or be read as
/// part of the request's structure: no space, `&`, `=`, `?`, `#` or `/`.
pub proof fn lemma_component_chars(bytes: Seq<u8>, i: int)
    requires
        0 <= i < query_encoded(bytes).len(),
    ensures
        is_component_char(query_encoded(bytes)[i]),
        query_encoded(bytes)[i] != ' ',
        query_encoded(bytes)[i] != '&',
        query_encoded(bytes)[i] != '=',
        query_encoded(bytes)[i] != '?',
        query_encoded(bytes)[i] != '#',
        query_encoded(bytes)[i] != '/',
    decreases bytes.len(),
{
    let b = bytes[0];
    let head = query_encoded_byte(b);
    if i < head.len() {
        assert(query_encoded(bytes)[i] == head[i]);
        if b != 0x20 && !is_unreserved(b) {
            let hi = (b / 16) as u8;
            let lo = (b % 16) as u8;
            let x = if hi < 10 { (0x30 + hi) as u8 } else { (0x41 + hi - 10) as u8 };
            let y = if lo < 10 { (0x30 + lo) as u8 } else { (0x41 + lo - 10) as u8 };
            assert(is_unreserved(x) && hex_digit(hi) == x as char);
            assert(is_unreserved(y) && hex_digit(lo) == y as char);
        }
    } else {
        lemma_component_chars(bytes.drop_first(), i - head.len());
        assert(query_encoded(bytes)[i] == query_encoded(bytes.drop_first())[i - head.len()]);
    }
}

/// Encoding goes byte by byte: the component for two texts in a row is the
/// two components in a row.
pub proof fn lemma_query_encoded_concat(a: Seq<u8>, b: Seq<u8>)
    ensures
        query_encoded(a + b) == query_encoded(a) + query_encoded(b),
    decreases a.len(),
{
    if a.len() == 0 {
        assert(a + b =~= b);
        assert(query_encoded(a) + query_encoded(b) =~= query_encoded(b));
    } else {
        assert((a + b).drop_first() =~= a.drop_first() + b);
        lemma_query_encoded_concat(a.drop_first(), b);
        assert(query_encoded(a + b) =~= query_encoded(a) + query_encoded(b));
    }
}

} // verus!
