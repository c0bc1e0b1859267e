//! Authentication of a webhook: a keyed digest of the raw body, compared
//! with the one that the sender put in a header.

use crate::error::{Error, ErrorView};
use axum::http::header::{HeaderMap, HeaderValue, ToStrError};
use hmac::digest::InvalidLength;
use hmac::{Hmac, Mac};
use sha2::Sha256;
use vstd::prelude::*;
use vstd::string::{StrSliceExecFns, StringExecFns, StringSliceAdditionalSpecFns};
use vstd::utf8::encode_utf8_decode_utf8;

verus! {

#[verifier::external_type_specification]
#[verifier::external_body]
#[verifier::reject_recursive_types(T)]
pub struct ExHeaderMap<T>(HeaderMap<T>);

#[verifier::external_type_specification]
#[verifier::external_body]
pub struct ExHeaderValue(HeaderValue);

#[verifier::external_type_specification]
#[verifier::external_body]
pub struct ExInvalidLength(InvalidLength);

/// The header that carries the sender's digest.
pub const SIGNATURE_HEADER: &'static str = "sentry-hook-signature";

/// The bytes that `http` lets a header value show as text: printable ASCII
/// and the tab.
pub open spec fn visible_ascii_byte(byte: u8) -> bool {
    32 <= byte < 127 || byte == 9
}

pub open spec fn visible_ascii(bytes: Seq<u8>) -> bool {
    forall|at: int| 0 <= at < bytes.len() ==> visible_ascii_byte(#[trigger] bytes[at])
}

/// ASCII bytes as characters.
pub open spec fn ascii_text(bytes: Seq<u8>) -> Seq<char> {
    Seq::new(bytes.len(), |at: int| bytes[at] as char)
}

/// ASCII characters as bytes.
pub open spec fn ascii_bytes(text: Seq<char>) -> Seq<u8> {
    Seq::new(text.len(), |at: int| text[at] as u8)
}

/// The lower-case hexadecimal digit of a number below sixteen: `0` to `9`,
/// then `a` to `f`.
pub open spec fn hex_digit(nibble: int) -> char {
    if nibble < 10 {
        ('0' as u8 + nibble) as u8 as char
    } else {
        ('a' as u8 + nibble - 10) as u8 as char
    }
}

/// Two lower-case hexadecimal digits for each byte, the high one first.
pub open spec fn hex_lower(bytes: Seq<u8>) -> Seq<char> {
    Seq::new(
        2 * bytes.len(),
        |at: int|
            if at % 2 == 0 {
                hex_digit(bytes[at / 2] as int / 16)
            } else {
                hex_digit(bytes[at / 2] as int % 16)
            },
    )
}

/// A header name that `http` looks up as it is written: lower-case letters,
/// digits and hyphens, at most 64 of them.
pub open spec fn plain_name(name: Seq<char>) -> bool {
    &&& 1 <= name.len() <= 64
    &&& forall|at: int|
        0 <= at < name.len() ==> {
            let c = #[trigger] name[at];
            'a' <= c <= 'z' || '0' <= c <= '9' || c == '-'
        }
}

/// What authentication says of a request, given the first value of each of
/// its headers: whether the digest in the signature header is the one of
/// the body under the secret, or why that cannot be told.
pub open spec fn signature_verdict(
    entries: Map<Seq<char>, Seq<u8>>,
    body: Seq<u8>,
    secret: Seq<u8>,
) -> Result<bool, ErrorView> {
    if !entries.contains_key(SIGNATURE_HEADER@) {
        Err(ErrorView::MissingHeaderEntry(SIGNATURE_HEADER@))
    } else if !visible_ascii(entries[SIGNATURE_HEADER@]) {
        Err(ErrorView::ToStr(SIGNATURE_HEADER@))
    } else {
        match keyed_digest(secret, body) {
            None => Err(ErrorView::InvalidSecret),
            Some(digest) => Ok(ascii_text(entries[SIGNATURE_HEADER@]) == hex_lower(digest)),
        }
    }
}

/// The mathematical value of an authentication's outcome.
pub open spec fn verdict_view(outcome: Result<bool, Error>) -> Result<bool, ErrorView> {
    match outcome {
        Ok(genuine) => Ok(genuine),
        Err(e) => Err(e@),
    }
}

/// Hexadecimal text is visible ASCII, and is the text of its own bytes.
pub proof fn lemma_hex_is_visible(bytes: Seq<u8>)
    ensures
        visible_ascii(ascii_bytes(hex_lower(bytes))),
        ascii_text(ascii_bytes(hex_lower(bytes))) == hex_lower(bytes),
{
    let text = hex_lower(bytes);
    assert forall|at: int| 0 <= at < text.len() implies 48 <= text[at] as u8 <= 102
        && text[at] as u8 as char == text[at] by {
        let byte = bytes[at / 2];
        assert(0 <= byte as int / 16 < 16 && 0 <= byte as int % 16 < 16);
    }
    assert(ascii_text(ascii_bytes(text)) =~= text);
}

/// Different bytes have different hexadecimal text.
pub proof fn lemma_hex_is_injective(left: Seq<u8>, right: Seq<u8>)
    requires
        hex_lower(left) == hex_lower(right),
    ensures
        left == right,
{
    assert(hex_lower(left).len() == 2 * left.len());
    assert(hex_lower(right).len() == 2 * right.len());
    assert forall|at: int| 0 <= at < left.len() implies left[at] == right[at] by {
        let (l, r) = (left[at] as int, right[at] as int);
        assert(hex_lower(left)[2 * at] == hex_digit(l / 16));
        assert(hex_lower(right)[2 * at] == hex_digit(r / 16));
        assert(hex_lower(left)[2 * at + 1] == hex_digit(l % 16));
        assert(hex_lower(right)[2 * at + 1] == hex_digit(r % 16));
        assert(0 <= l / 16 < 16 && 0 <= l % 16 < 16);
        assert(0 <= r / 16 < 16 && 0 <= r % 16 < 16);
        assert(hex_digit(l / 16) as u8 == (if l / 16 < 10 { 48 + l / 16 } else { 87 + l / 16 }));
        assert(hex_digit(r / 16) as u8 == (if r / 16 < 10 { 48 + r / 16 } else { 87 + r / 16 }));
        assert(hex_digit(l % 16) as u8 == (if l % 16 < 10 { 48 + l % 16 } else { 87 + l % 16 }));
        assert(hex_digit(r % 16) as u8 == (if r % 16 < 10 { 48 + r % 16 } else { 87 + r % 16 }));
    }
    assert(left =~= right);
}

/// A request verifies where its signature header carries, in lower-case
/// hexadecimal, the digest of its body under the secret.
pub proof fn law_genuine_signature_verifies(
    entries: Map<Seq<char>, Seq<u8>>,
    body: Seq<u8>,
    secret: Seq<u8>,
    digest: Seq<u8>,
)
    requires
        entries.contains_key(SIGNATURE_HEADER@),
        entries[SIGNATURE_HEADER@] == ascii_bytes(hex_lower(digest)),
    ensures
        keyed_digest(secret, body) == Some(digest) ==> signature_verdict(entries, body, secret)
            == Ok::<bool, ErrorView>(true),
{
    lemma_hex_is_visible(digest);
}

/// A request does not verify where its signature header carries the digest
/// of another body: one whose digest differs from that of the body sent.
pub proof fn law_altered_body_is_rejected(
    entries: Map<Seq<char>, Seq<u8>>,
    altered: Seq<u8>,
    secret: Seq<u8>,
    digest: Seq<u8>,
)
    requires
        entries.contains_key(SIGNATURE_HEADER@),
        entries[SIGNATURE_HEADER@] == ascii_bytes(hex_lower(digest)),
    ensures
        keyed_digest(secret, altered) is Some && keyed_digest(secret, altered) != Some(digest)
            ==> signature_verdict(entries, altered, secret) == Ok::<bool, ErrorView>(false),
{
    lemma_hex_is_visible(digest);
    if keyed_digest(secret, altered) is Some {
        let other = keyed_digest(secret, altered).unwrap();
        if hex_lower(other) == hex_lower(digest) {
            lemma_hex_is_injective(other, digest);
        }
    }
}

/// Without a signature header a request is refused as lacking it, whatever
/// its body and the secret.
pub proof fn law_missing_signature_is_an_error(
    entries: Map<Seq<char>, Seq<u8>>,
    body: Seq<u8>,
    secret: Seq<u8>,
)
    requires
        !entries.contains_key(SIGNATURE_HEADER@),
    ensures
        signature_verdict(entries, body, secret) == Err::<bool, ErrorView>(
            ErrorView::MissingHeaderEntry(SIGNATURE_HEADER@),
        ),
{
}

proof fn lemma_signature_header_is_plain()
    ensures
        plain_name(SIGNATURE_HEADER@),
{
    reveal_strlit("sentry-hook-signature");
}

/// Whether two byte strings are equal. Strings of one length are compared
/// to their end, wherever they first differ, so that the time taken does not
/// tell how much of a guess was right.
pub fn same_bytes(left: &[u8], right: &[u8]) -> (same: bool)
    ensures
        same == (left@ == right@),
{
    if left.len() != right.len() {
        return false;
    }
    let mut difference: u8 = 0;
    let mut at: usize = 0;
    while at < left.len()
        invariant
            at <= left.len(),
            left.len() == right.len(),
            difference == 0 <==> left@.take(at as int) =~= right@.take(at as int),
        decreases left.len() - at,
    {
        let (l, r) = (left[at], right[at]);
        proof {
            let previous = difference;
            assert((previous | (l ^ r)) == 0 <==> previous == 0 && l == r) by (bit_vector);
            assert(left@.take(at + 1).drop_last() == left@.take(at as int));
            assert(right@.take(at + 1).drop_last() == right@.take(at as int));
            assert(left@.take(at + 1).last() == l && right@.take(at + 1).last() == r);
            if left@.take(at as int) =~= right@.take(at as int) && l == r {
                assert(left@.take(at + 1) =~= right@.take(at + 1));
            }
        }
        difference = difference | (l ^ r);
        at = at + 1;
    }
    proof {
        assert(left@.take(at as int) =~= left@ && right@.take(at as int) =~= right@);
    }
    difference == 0
}

/// The sixteen hexadecimal digits, in order.
const HEX_DIGITS: &'static str = "0123456789abcdef";

/// The text of one hexadecimal digit.
fn hex_digit_text(nibble: u8) -> (text: &'static str)
    requires
        nibble < 16,
    ensures
        text@ == seq![hex_digit(nibble as int)],
{
    proof {
        reveal_strlit("0123456789abcdef");
        let digits = HEX_DIGITS@;
        assert(digits[0] == hex_digit(0) && digits[1] == hex_digit(1));
        assert(digits[2] == hex_digit(2) && digits[3] == hex_digit(3));
        assert(digits[4] == hex_digit(4) && digits[5] == hex_digit(5));
        assert(digits[6] == hex_digit(6) && digits[7] == hex_digit(7));
        assert(digits[8] == hex_digit(8) && digits[9] == hex_digit(9));
        assert(digits[10] == hex_digit(10) && digits[11] == hex_digit(11));
        assert(digits[12] == hex_digit(12) && digits[13] == hex_digit(13));
        assert(digits[14] == hex_digit(14) && digits[15] == hex_digit(15));
        assert(digits.subrange(nibble as int, nibble + 1) =~= seq![hex_digit(nibble as int)]);
    }
    HEX_DIGITS.substring_ascii(nibble as usize, nibble as usize + 1)
}

/// Writes bytes in lower-case hexadecimal.
pub fn hex_encode(bytes: &[u8]) -> (text: String)
    ensures
        text@ == hex_lower(bytes@),
{
    let mut text = String::new();
    let mut at: usize = 0;
    while at < bytes.len()
        invariant
            at <= bytes.len(),
            text@ == hex_lower(bytes@.take(at as int)),
        decreases bytes.len() - at,
    {
        let byte = bytes[at];
        let ghost before = text@;
        text.append(hex_digit_text(byte / 16));
        text.append(hex_digit_text(byte % 16));
        proof {
            let shorter = bytes@.take(at as int);
            let longer = bytes@.take(at + 1);
            assert(longer.len() == at + 1 && longer[at as int] == byte);
            assert forall|i: int| 0 <= i < 2 * at implies hex_lower(longer)[i] == before[i] by {
                assert(longer[i / 2] == shorter[i / 2]);
            }
            assert(text@ =~= hex_lower(longer));
        }
        at = at + 1;
    }
    proof {
        assert(bytes@.take(at as int) =~= bytes@);
    }
    text
}

/// Whether a header's text is the lower-case hexadecimal form of a digest.
/// The comparison is case-sensitive.
pub fn digest_matches(expected: &str, digest: &[u8]) -> (same: bool)
    ensures
        same == (expected@ == hex_lower(digest@)),
{
    let computed = hex_encode(digest);
    proof {
        encode_utf8_decode_utf8(expected@);
        encode_utf8_decode_utf8(computed@);
    }
    same_bytes(expected.as_bytes(), computed.as_str().as_bytes())
}

/// Authenticates a request. A missing or unreadable signature is an error,
/// not a verdict; so would be a key that the digest refuses, but HMAC-SHA256
/// takes every key. Its tag has 32 bytes, so that only a signature of 64
/// characters can be genuine.
pub fn verify_hmac(headers: &HeaderMap, body: &[u8], secret: &[u8]) -> (outcome: Result<
    bool,
    Error,
>)
    ensures
        verdict_view(outcome) == signature_verdict(header_values(*headers), body@, secret@),
        verdict_view(outcome) != Err::<bool, ErrorView>(ErrorView::InvalidSecret),
        verdict_view(outcome) == Ok::<bool, ErrorView>(true) ==> header_values(
            *headers,
        )[SIGNATURE_HEADER@].len() == 64,
{
    proof {
        lemma_signature_header_is_plain();
    }
    let value = match header_get(headers, SIGNATURE_HEADER) {
        Some(value) => value,
        None => {
            return Err(Error::MissingHeaderEntry(SIGNATURE_HEADER));
        },
    };
    let expected = match header_text(value) {
        Ok(text) => text,
        Err(e) => {
            return Err(Error::ToStr(SIGNATURE_HEADER, e));
        },
    };
    let digest = match hmac_sha256(secret, body) {
        Ok(digest) => digest,
        Err(_) => {
            return Err(Error::InvalidSecret);
        },
    };
    let genuine = digest_matches(expected, digest.as_slice());
    proof {
        assert(hex_lower(digest@).len() == 64);
        assert(expected@.len() == header_values(*headers)[SIGNATURE_HEADER@].len());
    }
    Ok(genuine)
}

/// The bytes of the first value that a header map holds under each name,
/// the names as `http` keeps them: in lower case.
pub uninterp spec fn header_values(headers: HeaderMap) -> Map<Seq<char>, Seq<u8>>;

/// The bytes of a header value.
pub uninterp spec fn header_bytes(value: HeaderValue) -> Seq<u8>;

/// The HMAC-SHA256 tag of `data` under `key`, or `None` where the `hmac`
/// crate refuses the key.
pub uninterp spec fn keyed_digest(key: Seq<u8>, data: Seq<u8>) -> Option<Seq<u8>>;

/// `HeaderMap::get` with a string for the name. Trusted: for a name in lower
/// case it returns the first value stored under that name, or `None` where
/// there is none. Nothing is said of other names, which `http` first
/// normalises or refuses.
#[verifier::external_body]
fn header_get<'a>(headers: &'a HeaderMap, name: &str) -> (found: Option<&'a HeaderValue>)
    ensures
        plain_name(name@) ==> match found {
            Some(value) => header_values(*headers).contains_key(name@) && header_values(
                *headers,
            )[name@] == header_bytes(*value),
            None => !header_values(*headers).contains_key(name@),
        },
{
    headers.get(name)
}

/// `HeaderValue::to_str`. Trusted: it succeeds exactly where every byte is
/// visible ASCII, and then hands the bytes back as text.
#[verifier::external_body]
fn header_text(value: &HeaderValue) -> (outcome: Result<&str, ToStrError>)
    ensures
        match outcome {
            Ok(text) => visible_ascii(header_bytes(*value)) && text@ == ascii_text(
                header_bytes(*value),
            ),
            Err(_) => !visible_ascii(header_bytes(*value)),
        },
{
    value.to_str()
}

/// One HMAC-SHA256 computation with the `hmac` and `sha2` crates:
/// `new_from_slice` keys the digest, `update` feeds it the data, `finalize`
/// gives the tag. Trusted: the tag is named, not described; it depends on
/// the key and the data alone. `Hmac<Sha256>` takes a key of any length, so
/// the computation succeeds, and a SHA-256 tag has 32 bytes.
#[verifier::external_body]
fn hmac_sha256(key: &[u8], data: &[u8]) -> (outcome: Result<Vec<u8>, InvalidLength>)
    ensures
        outcome is Ok,
        match outcome {
            Ok(tag) => keyed_digest(key@, data@) == Some(tag@) && tag@.len() == 32,
            Err(_) => keyed_digest(key@, data@) is None,
        },
{
    let mut mac = Hmac::<Sha256>::new_from_slice(key)?;
    mac.update(data);
    Ok(mac.finalize().into_bytes().to_vec())
}

} // verus!
