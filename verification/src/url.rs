use std::borrow::Cow;

use vstd::prelude::*;
use vstd::string::*;
use vstd::utf8::*;

use crate::text::chars_of;

verus! {

/// Whether a character is an ASCII letter.
pub open spec fn is_ascii_alpha(c: char) -> bool {
    ('a' <= c <= 'z') || ('A' <= c <= 'Z')
}

/// Whether a character may stand in the scheme of a URL: an ASCII letter or digit, `+`, `-` or `.`.
pub open spec fn is_scheme_char(c: char) -> bool {
    is_ascii_alpha(c) || ('0' <= c <= '9') || c == '+' || c == '-' || c == '.'
}

/// Whether a URL starts with a scheme: a letter and at least one more scheme character, then `:`.
/// A single letter is not a scheme, so that a Windows drive letter is not taken for one.
pub open spec fn starts_with_scheme(url: Seq<char>) -> bool {
    exists|i: int|
        #![trigger url[i]]
        1 < i < url.len() && url[i] == ':' && is_ascii_alpha(url[0]) && forall|j: int|
            0 <= j < i ==> is_scheme_char(#[trigger] url[j])
}

fn is_scheme_char_exec(c: char) -> (res: bool)
    ensures
        res == is_scheme_char(c),
{
    ('a' <= c && c <= 'z') || ('A' <= c && c <= 'Z') || ('0' <= c && c <= '9') || c == '+' || c
        == '-' || c == '.'
}

/// Check whether a URL starts with a scheme.
pub fn has_scheme(url: &str) -> (res: bool)
    ensures
        res == starts_with_scheme(url@),
{
    let v = chars_of(url);
    let n = v.len();
    let mut i: usize = 0;
    while i < n && v[i] != ':'
        invariant
            v@ == url@,
            n == v@.len(),
            i <= n,
            forall|j: int| 0 <= j < i ==> v@[j] != ':',
        decreases n - i,
    {
        i += 1;
    }
    if i == n {
        proof {
            assert forall|k: int| 1 < k < url@.len() implies url@[k] != ':' by {}
        }
        return false;
    }
    let mut all_scheme_chars = true;
    let mut j: usize = 0;
    while j < i
        invariant
            v@ == url@,
            n == v@.len(),
            i < n,
            j <= i,
            all_scheme_chars == forall|k: int| 0 <= k < j ==> is_scheme_char(#[trigger] v@[k]),
        decreases i - j,
    {
        if !is_scheme_char_exec(v[j]) {
            all_scheme_chars = false;
        }
        j += 1;
    }
    let res = i > 1 && ('a' <= v[0] && v[0] <= 'z' || 'A' <= v[0] && v[0] <= 'Z') && all_scheme_chars;
    proof {
        if res {
            assert(url@[i as int] == ':');
        } else if starts_with_scheme(url@) {
            let k = choose|k: int|
                #![trigger url@[k]]
                1 < k < url@.len() && url@[k] == ':' && is_ascii_alpha(url@[0]) && forall|j: int|
                    0 <= j < k ==> is_scheme_char(#[trigger] url@[j]);
            if k > i {
                assert(is_scheme_char(url@[i as int]));
            }
            assert(k == i);
        }
    }
    res
}

/// The value of a hexadecimal digit, upper or lower case.
pub open spec fn hex_value(byte: u8) -> Option<u8> {
    if 0x30 <= byte <= 0x39 {
        Some((byte - 0x30) as u8)
    } else if 0x61 <= byte <= 0x66 {
        Some((byte - 0x61 + 10) as u8)
    } else if 0x41 <= byte <= 0x46 {
        Some((byte - 0x41 + 10) as u8)
    } else {
        None
    }
}

/// The byte that a pair of hexadecimal digits stands for.
pub open spec fn hex_octet_value(high: u8, low: u8) -> Option<u8> {
    match (hex_value(high), hex_value(low)) {
        (Some(h), Some(l)) => Some((h * 16 + l) as u8),
        _ => None,
    }
}

/// Decode a hexadecimal digit.
pub fn hex_digit(byte: u8) -> (digit: Option<u8>)
    ensures
        digit == hex_value(byte),
{
    if 0x30 <= byte && byte <= 0x39 {
        Some(byte - 0x30)
    } else if 0x61 <= byte && byte <= 0x66 {
        Some(byte - 0x61 + 10)
    } else if 0x41 <= byte && byte <= 0x46 {
        Some(byte - 0x41 + 10)
    } else {
        None
    }
}

/// Decode a pair of hexadecimal digits into a byte.
pub fn hex_octet(high: u8, low: u8) -> (octet: Option<u8>)
    ensures
        octet == hex_octet_value(high, low),
{
    match hex_digit(high) {
        Some(h) => match hex_digit(low) {
            Some(l) => {
                assert((h << 4u8) | l == h * 16 + l) by (bit_vector)
                    requires
                        h < 16,
                        l < 16,
                ;
                Some((h << 4u8) | l)
            },
            None => None,
        },
        None => None,
    }
}

/// The bytes of a URL with its percent-encoded octets decoded. A `%` which does not start two hexadecimal digits stays as it is.
pub open spec fn percent_decoded(bytes: Seq<u8>) -> Seq<u8>
    decreases bytes.len(),
{
    if bytes.len() == 0 {
        seq![]
    } else if bytes[0] == 0x25 && bytes.len() > 2 && hex_octet_value(bytes[1], bytes[2]) is Some {
        seq![hex_octet_value(bytes[1], bytes[2])->0] + percent_decoded(
            bytes.subrange(3, bytes.len() as int),
        )
    } else {
        seq![bytes[0]] + percent_decoded(bytes.drop_first())
    }
}

/// A URL with its percent-encoded octets decoded, or the URL as it is if the decoded octets are no UTF-8 text.
pub open spec fn percent_decoded_text(url: Seq<char>) -> Seq<char> {
    let decoded = percent_decoded(encode_utf8(url));
    if valid_utf8(decoded) {
        decode_utf8(decoded)
    } else {
        url
    }
}

proof fn lemma_percent_decoded_plain_prefix(bytes: Seq<u8>, k: int)
    requires
        0 <= k <= bytes.len(),
        forall|j: int| 0 <= j < k ==> bytes[j] != 0x25,
    ensures
        percent_decoded(bytes) == bytes.subrange(0, k) + percent_decoded(
            bytes.subrange(k, bytes.len() as int),
        ),
    decreases k,
{
    if k == 0 {
        assert(bytes.subrange(0, 0) + percent_decoded(bytes.subrange(0, bytes.len() as int))
            =~= percent_decoded(bytes)) by {
            assert(bytes.subrange(0, bytes.len() as int) =~= bytes);
        }
    } else {
        let rest = bytes.drop_first();
        lemma_percent_decoded_plain_prefix(rest, k - 1);
        assert(rest.subrange(k - 1, rest.len() as int) =~= bytes.subrange(k, bytes.len() as int));
        assert(seq![bytes[0]] + rest.subrange(0, k - 1) =~= bytes.subrange(0, k));
    }
}

/// Turn UTF-8 bytes into a `String`, or nothing if they are no UTF-8 text.
///
/// Calls `String::from_utf8`, which std documents to succeed exactly on valid UTF-8 and then to hold the decoded characters.
#[verifier::external_body]
fn string_from_utf8(bytes: Vec<u8>) -> (text: Option<String>)
    ensures
        text is Some <==> valid_utf8(bytes@),
        text matches Some(t) ==> t@ == decode_utf8(bytes@),
{
    String::from_utf8(bytes).ok()
}

/// Whether a percent-encoded octet starts at the `i`-th byte: a `%` followed by two hexadecimal digits.
pub open spec fn escape_at(bytes: Seq<u8>, i: int) -> bool {
    0 <= i && i + 2 < bytes.len() && bytes[i] == 0x25 && hex_octet_value(bytes[i + 1], bytes[i + 2]) is Some
}

/// Whether some bytes hold a percent-encoded octet, so that decoding them changes something.
pub open spec fn has_escape(bytes: Seq<u8>) -> bool {
    exists|i: int| #[trigger] escape_at(bytes, i)
}

/// Bytes which hold no percent-encoded octet are decoded into themselves.
pub proof fn lemma_percent_decoded_without_escape(bytes: Seq<u8>)
    requires
        !has_escape(bytes),
    ensures
        percent_decoded(bytes) == bytes,
    decreases bytes.len(),
{
    if bytes.len() > 0 {
        let rest = bytes.drop_first();
        assert(!escape_at(bytes, 0));
        assert forall|i: int| !#[trigger] escape_at(rest, i) by {
            assert(!escape_at(bytes, i + 1));
            if escape_at(rest, i) {
                assert(escape_at(bytes, i + 1));
            }
        }
        lemma_percent_decoded_without_escape(rest);
        assert(seq![bytes[0]] + rest =~= bytes);
    }
}

/// Decode the percent-encoded octets of a URL. A URL which has nothing to decode is borrowed as-is.
pub fn percent_decode(url: &str) -> (decoded: Cow<'_, str>)
    ensures
        decoded@ == percent_decoded_text(url@),
        decoded is Borrowed <==> (!has_escape(url.spec_bytes()) || !valid_utf8(
            percent_decoded(url.spec_bytes()),
        )),
{
    let bytes = url.as_bytes();
    let n = bytes.len();
    let mut start: usize = 0;
    while start < n && bytes[start] != 0x25
        invariant
            n == bytes@.len(),
            start <= n,
            forall|j: int| 0 <= j < start ==> bytes@[j] != 0x25,
        decreases n - start,
    {
        start += 1;
    }
    proof {
        lemma_percent_decoded_plain_prefix(bytes@, start as int);
        encode_utf8_decode_utf8(url@);
        encode_utf8_valid_utf8(url@);
    }
    if start == n {
        assert forall|i: int| !#[trigger] escape_at(bytes@, i) by {
            if escape_at(bytes@, i) {
                assert(bytes@[i] == 0x25);
            }
        }
        proof {
            lemma_percent_decoded_without_escape(bytes@);
        }
        return Cow::Borrowed(url);
    }
    let mut decoded: Vec<u8> = Vec::new();
    let mut k: usize = 0;
    while k < start
        invariant
            start < n == bytes@.len(),
            k <= start,
            decoded@ == bytes@.subrange(0, k as int),
        decreases start - k,
    {
        decoded.push(bytes[k]);
        assert(decoded@ =~= bytes@.subrange(0, k + 1));
        k += 1;
    }
    let mut index: usize = start;
    let mut decoded_any = false;
    while index < n
        invariant
            n == bytes@.len(),
            start <= index <= n,
            forall|j: int| 0 <= j < start ==> bytes@[j] != 0x25,
            decoded@ + percent_decoded(bytes@.subrange(index as int, n as int)) == percent_decoded(
                bytes@,
            ),
            decoded_any ==> has_escape(bytes@),
            !decoded_any ==> forall|i: int| 0 <= i < index ==> !#[trigger] escape_at(bytes@, i),
        decreases n - index,
    {
        let ghost rest = bytes@.subrange(index as int, n as int);
        if bytes[index] == 0x25 && 2 < n - index {
            match hex_octet(bytes[index + 1], bytes[index + 2]) {
                Some(byte) => {
                    assert(escape_at(bytes@, index as int));
                    assert(rest.subrange(3, rest.len() as int) =~= bytes@.subrange(
                        index + 3,
                        n as int,
                    ));
                    decoded.push(byte);
                    assert(decoded@ + percent_decoded(bytes@.subrange(index + 3, n as int))
                        =~= percent_decoded(bytes@));
                    index += 3;
                    decoded_any = true;
                },
                None => {
                    assert(!escape_at(bytes@, index as int));
                    assert(rest.drop_first() =~= bytes@.subrange(index + 1, n as int));
                    decoded.push(0x25);
                    assert(decoded@ + percent_decoded(bytes@.subrange(index + 1, n as int))
                        =~= percent_decoded(bytes@));
                    index += 1;
                },
            }
        } else {
            assert(!escape_at(bytes@, index as int));
            assert(rest.drop_first() =~= bytes@.subrange(index + 1, n as int));
            decoded.push(bytes[index]);
            assert(decoded@ + percent_decoded(bytes@.subrange(index + 1, n as int))
                =~= percent_decoded(bytes@));
            index += 1;
        }
    }
    assert(decoded@ =~= percent_decoded(bytes@)) by {
        assert(bytes@.subrange(n as int, n as int) =~= Seq::<u8>::empty());
    }
    if !decoded_any {
        // Nothing was decoded, so the URL itself is the result.
        assert forall|i: int| !#[trigger] escape_at(bytes@, i) by {
            if escape_at(bytes@, i) {
                assert(0 <= i < n);
            }
        }
        proof {
            lemma_percent_decoded_without_escape(bytes@);
        }
        return Cow::Borrowed(url);
    }
    match string_from_utf8(decoded) {
        Some(text) => Cow::Owned(text),
        None => Cow::Borrowed(url),
    }
}

} // verus!
