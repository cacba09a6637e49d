//! Percent-encoding of page titles for query strings, the double-encode
//! correction that protects the result from a second decode downstream, and
//! percent-decoding of log comments.
use vstd::prelude::*;
use vstd::string::*;
use vstd::utf8::*;

use crate::text::{push_char, replace_char, replaced, lemma_replaced_absent};

verus! {

/// A byte that query-string encoding must escape: controls, non-ASCII,
/// space, double quote, hash, and the two angle brackets.
pub open spec fn query_escaped_byte(b: u8) -> bool {
    b < 0x20 || b > 0x7e || b == 0x20 || b == 0x22 || b == 0x23 || b == 0x3c || b == 0x3e
}

/// The digit of one hex nibble, upper case.
pub open spec fn hex_digit_upper(d: int) -> char {
    if d < 10 {
        ((48 + d) as u8) as char
    } else {
        ((55 + d) as u8) as char
    }
}

/// A percent escape: a percent sign and two upper-case hex digits.
pub open spec fn pct_escape(b: u8) -> Seq<char> {
    seq!['%', hex_digit_upper(b as int / 16), hex_digit_upper(b as int % 16)]
}

/// One byte of query-string encoding.
pub open spec fn query_encoded_byte(b: u8) -> Seq<char> {
    if query_escaped_byte(b) {
        pct_escape(b)
    } else {
        seq![b as char]
    }
}

/// The query-string encoding of a byte string.
pub open spec fn query_encoded(bytes: Seq<u8>) -> Seq<char> {
    bytes.flat_map(|b: u8| query_encoded_byte(b))
}

fn hex_digit_upper_char(d: u8) -> (c: char)
    requires
        d < 16,
    ensures
        c == hex_digit_upper(d as int),
{
    if d < 10 {
        (48 + d) as char
    } else {
        (55 + d) as char
    }
}

/// Percent-encodes the UTF-8 bytes of a string for a query-string position.
pub fn urlencode(s: &str) -> (r: String)
    ensures
        r@ == query_encoded(s.spec_bytes()),
{
    let bytes = s.as_bytes();
    let n = bytes.len();
    let mut r = String::new();
    let mut i: usize = 0;
    proof {
        assert(bytes@.take(0).flat_map(|b: u8| query_encoded_byte(b)) =~= Seq::<char>::empty());
    }
    while i < n
        invariant
            n == bytes@.len(),
            i <= n,
            r@ == bytes@.take(i as int).flat_map(|b: u8| query_encoded_byte(b)),
        decreases n - i,
    {
        let b = bytes[i];
        if b < 0x20 || b > 0x7e || b == 0x20 || b == 0x22 || b == 0x23 || b == 0x3c || b == 0x3e {
            push_char(&mut r, '%');
            push_char(&mut r, hex_digit_upper_char(b / 16));
            push_char(&mut r, hex_digit_upper_char(b % 16));
            proof {
                assert(r@ =~= bytes@.take(i as int).flat_map(|b: u8| query_encoded_byte(b))
                    + query_encoded_byte(bytes@[i as int]));
            }
        } else {
            push_char(&mut r, b as char);
            proof {
                assert(r@ =~= bytes@.take(i as int).flat_map(|b: u8| query_encoded_byte(b))
                    + query_encoded_byte(bytes@[i as int]));
            }
        }
        proof {
            bytes@.lemma_flat_map_take_append(|b: u8| query_encoded_byte(b), i as int);
        }
        i = i + 1;
    }
    proof {
        assert(bytes@.take(n as int) =~= bytes@);
    }
    r
}

/// Replaces the percent signs that encoding introduced by their own escape,
/// so that a downstream decode cannot undo the first encoding.
pub fn percent_to_url(orig: &str) -> (r: String)
    ensures
        r@ == replaced(orig@, '%', "%25"@),
{
    replace_char(orig, '%', "%25")
}

/// Escapes the plus sign, the ampersand and the question mark, each by its
/// percent-encoded form.
pub fn plusexclquest_to_url(orig: &str) -> (r: String)
    ensures
        r@ == replaced(replaced(replaced(orig@, '+', "%2b"@), '&', "%26"@), '?', "%3f"@),
{
    let orig_pr = replace_char(orig, '+', "%2b");
    let orig_ar = replace_char(orig_pr.as_str(), '&', "%26");
    replace_char(orig_ar.as_str(), '?', "%3f")
}

/// The whole double-encode correction: the percent sign, the plus sign, the
/// ampersand and the question mark, each replaced by its escape.
pub open spec fn double_encode_corrected(s: Seq<char>) -> Seq<char> {
    replaced(replaced(replaced(replaced(s, '%', "%25"@), '+', "%2b"@), '&', "%26"@), '?', "%3f"@)
}

/// On input free of the four corrected characters, the double-encode
/// correction changes nothing, and is therefore idempotent.
pub proof fn lemma_double_encode_correction_idempotent(s: Seq<char>)
    requires
        !s.contains('%'),
        !s.contains('+'),
        !s.contains('&'),
        !s.contains('?'),
    ensures
        double_encode_corrected(s) == s,
        double_encode_corrected(double_encode_corrected(s)) == double_encode_corrected(s),
{
    lemma_replaced_absent(s, '%', "%25"@);
    lemma_replaced_absent(s, '+', "%2b"@);
    lemma_replaced_absent(s, '&', "%26"@);
    lemma_replaced_absent(s, '?', "%3f"@);
}

/// A hex digit in either case.
pub open spec fn is_hex_digit(b: u8) -> bool {
    (48 <= b && b <= 57) || (65 <= b && b <= 70) || (97 <= b && b <= 102)
}

/// The value of a hex digit.
pub open spec fn hex_val(b: u8) -> int {
    if b <= 57 {
        b - 48
    } else if b <= 70 {
        b - 55
    } else {
        b - 87
    }
}

/// Percent-decoding of a byte string: a percent sign followed by two hex
/// digits yields the encoded byte; anything else passes through unchanged.
pub open spec fn pct_decoded(s: Seq<u8>) -> Seq<u8>
    decreases s.len(),
{
    if s.len() == 0 {
        Seq::empty()
    } else if s[0] == 37 && s.len() >= 3 && is_hex_digit(s[1]) && is_hex_digit(s[2]) {
        seq![(hex_val(s[1]) * 16 + hex_val(s[2])) as u8] + pct_decoded(s.skip(3))
    } else {
        seq![s[0]] + pct_decoded(s.skip(1))
    }
}

fn is_hex_digit_byte(b: u8) -> (r: bool)
    ensures
        r == is_hex_digit(b),
{
    (48 <= b && b <= 57) || (65 <= b && b <= 70) || (97 <= b && b <= 102)
}

fn hex_val_byte(b: u8) -> (r: u8)
    requires
        is_hex_digit(b),
    ensures
        r as int == hex_val(b),
{
    if b <= 57 {
        b - 48
    } else if b <= 70 {
        b - 55
    } else {
        b - 87
    }
}

/// Percent-decodes a byte string.
pub fn percent_decode_bytes(bytes: &[u8]) -> (r: Vec<u8>)
    ensures
        r@ == pct_decoded(bytes@),
{
    let n = bytes.len();
    let mut out: Vec<u8> = Vec::new();
    let mut i: usize = 0;
    proof {
        assert(bytes@.skip(0) =~= bytes@);
        assert(out@ + pct_decoded(bytes@) =~= pct_decoded(bytes@));
    }
    while i < n
        invariant
            n == bytes@.len(),
            i <= n,
            pct_decoded(bytes@) == out@ + pct_decoded(bytes@.skip(i as int)),
        decreases n - i,
    {
        let b = bytes[i];
        if b == 37 && n - i >= 3 && is_hex_digit_byte(bytes[i + 1]) && is_hex_digit_byte(
            bytes[i + 2],
        ) {
            let v = hex_val_byte(bytes[i + 1]) * 16 + hex_val_byte(bytes[i + 2]);
            out.push(v);
            proof {
                let rest = bytes@.skip(i as int);
                assert(rest[0] == bytes@[i as int]);
                assert(rest[1] == bytes@[i as int + 1]);
                assert(rest[2] == bytes@[i as int + 2]);
                assert(rest.skip(3) =~= bytes@.skip(i as int + 3));
                assert(pct_decoded(bytes@) =~= out@ + pct_decoded(bytes@.skip(i as int + 3)));
            }
            i = i + 3;
        } else {
            out.push(b);
            proof {
                let rest = bytes@.skip(i as int);
                assert(rest[0] == bytes@[i as int]);
                assert(rest.len() >= 3 ==> rest[1] == bytes@[i as int + 1] && rest[2]
                    == bytes@[i as int + 2]);
                assert(rest.skip(1) =~= bytes@.skip(i as int + 1));
                assert(pct_decoded(bytes@) =~= out@ + pct_decoded(bytes@.skip(i as int + 1)));
            }
            i = i + 1;
        }
    }
    proof {
        assert(bytes@.skip(n as int) =~= Seq::<u8>::empty());
        assert(out@ =~= pct_decoded(bytes@));
    }
    out
}

/// Relies on String::from_utf8: it succeeds exactly on well-formed UTF-8
/// input and decodes that input.
#[verifier::external_body]
fn utf8_to_string(bytes: Vec<u8>) -> (r: Option<String>)
    ensures
        match r {
            Some(s) => valid_utf8(bytes@) && s@ == decode_utf8(bytes@),
            None => !valid_utf8(bytes@),
        },
{
    String::from_utf8(bytes).ok()
}

/// The percent-decoded form of a byte string, read back as text; a fixed
/// marker where the decoded bytes are not well-formed text.
pub open spec fn spec_urldecoded(bytes: Seq<u8>) -> Seq<char> {
    if valid_utf8(pct_decoded(bytes)) {
        decode_utf8(pct_decoded(bytes))
    } else {
        "<string conversion failed>"@
    }
}

/// Percent-decodes a string's UTF-8 bytes back into text.
pub fn urldecode(s: &str) -> (r: String)
    ensures
        r@ == spec_urldecoded(s.spec_bytes()),
{
    let bytes = s.as_bytes_vec();
    let decoded = percent_decode_bytes(bytes.as_slice());
    match utf8_to_string(decoded) {
        Some(r) => r,
        None => "<string conversion failed>".to_owned(),
    }
}

} // verus!
