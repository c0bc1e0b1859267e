use axum::http::header::{HeaderMap, HeaderName, HeaderValue};
use hmac::{Hmac, Mac};
use sentry_mattermost::error::Error;
use sentry_mattermost::signature::{
    digest_matches, hex_encode, same_bytes, verify_hmac, SIGNATURE_HEADER,
};
use sha2::Sha256;

const FOX: &[u8] = b"The quick brown fox jumps over the lazy dog";
const FOX_TAG: &str = "f7bc83f430538424b13298e6aa6fb143ef4d59a14946175997479dbc2d1a3cd8";

fn signed_with(signature: &str) -> HeaderMap {
    let mut headers = HeaderMap::new();
    headers.insert(SIGNATURE_HEADER, HeaderValue::from_str(signature).unwrap());
    headers
}

fn sign(secret: &[u8], body: &[u8]) -> String {
    let mut mac = Hmac::<Sha256>::new_from_slice(secret).unwrap();
    mac.update(body);
    hex::encode(mac.finalize().into_bytes())
}

#[test]
fn signature_header_name() {
    assert_eq!(SIGNATURE_HEADER, "sentry-hook-signature");
}

#[test]
fn known_tag_verifies() {
    let outcome = verify_hmac(&signed_with(FOX_TAG), FOX, b"key");
    assert!(matches!(outcome, Ok(true)));
}

#[test]
fn own_digest_verifies() {
    let bodies: [&[u8]; 4] = [b"", b"{}", b"{\"action\":\"created\"}", &[0u8, 255, 7, 128]];
    let secrets: [&[u8]; 3] = [b"", b"s3cr3t", &[9u8; 200]];
    for secret in secrets {
        for body in bodies {
            let headers = signed_with(&sign(secret, body));
            assert!(matches!(verify_hmac(&headers, body, secret), Ok(true)));
        }
    }
}

#[test]
fn flipped_byte_does_not_verify() {
    let mut body = FOX.to_vec();
    for at in 0..body.len() {
        body[at] ^= 1;
        let outcome = verify_hmac(&signed_with(FOX_TAG), &body, b"key");
        assert!(matches!(outcome, Ok(false)));
        body[at] ^= 1;
    }
}

#[test]
fn other_secret_does_not_verify() {
    let outcome = verify_hmac(&signed_with(FOX_TAG), FOX, b"kez");
    assert!(matches!(outcome, Ok(false)));
}

#[test]
fn upper_case_digest_does_not_verify() {
    let headers = signed_with(&FOX_TAG.to_uppercase());
    assert!(matches!(verify_hmac(&headers, FOX, b"key"), Ok(false)));
}

#[test]
fn padded_digest_does_not_verify() {
    let headers = signed_with(&format!(" {}", FOX_TAG));
    assert!(matches!(verify_hmac(&headers, FOX, b"key"), Ok(false)));
    let headers = signed_with("");
    assert!(matches!(verify_hmac(&headers, FOX, b"key"), Ok(false)));
}

#[test]
fn missing_header_is_an_error() {
    let bodies: [&[u8]; 3] = [b"", FOX, b"{\"a\":1}"];
    for body in bodies {
        let outcome = verify_hmac(&HeaderMap::new(), body, b"key");
        assert!(matches!(outcome, Err(Error::MissingHeaderEntry("sentry-hook-signature"))));
    }
}

#[test]
fn other_headers_do_not_count() {
    let mut headers = HeaderMap::new();
    headers.insert("x-hook-signature", HeaderValue::from_static(FOX_TAG));
    let outcome = verify_hmac(&headers, FOX, b"key");
    assert!(matches!(outcome, Err(Error::MissingHeaderEntry(_))));
}

#[test]
fn opaque_header_is_an_error() {
    let mut headers = HeaderMap::new();
    headers.insert(SIGNATURE_HEADER, HeaderValue::from_bytes(&[0xf7, 0xbc]).unwrap());
    let outcome = verify_hmac(&headers, FOX, b"key");
    assert!(matches!(outcome, Err(Error::ToStr("sentry-hook-signature", _))));
}

#[test]
fn header_name_is_found_in_any_case() {
    let mut headers = HeaderMap::new();
    let name = HeaderName::from_bytes(b"Sentry-Hook-Signature").unwrap();
    headers.insert(name, HeaderValue::from_static(FOX_TAG));
    assert!(matches!(verify_hmac(&headers, FOX, b"key"), Ok(true)));
}

#[test]
fn first_of_several_signatures_counts() {
    let mut headers = HeaderMap::new();
    headers.append(SIGNATURE_HEADER, HeaderValue::from_static(FOX_TAG));
    headers.append(SIGNATURE_HEADER, HeaderValue::from_static("00"));
    assert!(matches!(verify_hmac(&headers, FOX, b"key"), Ok(true)));
    let mut headers = HeaderMap::new();
    headers.append(SIGNATURE_HEADER, HeaderValue::from_static("00"));
    headers.append(SIGNATURE_HEADER, HeaderValue::from_static(FOX_TAG));
    assert!(matches!(verify_hmac(&headers, FOX, b"key"), Ok(false)));
}

#[test]
fn digest_is_compared_in_lower_case_hex() {
    assert!(digest_matches("0102030f10", &[1, 2, 3, 15, 16]));
    assert!(digest_matches("00ff7f80", &[0, 255, 127, 128]));
    assert!(digest_matches("", &[]));
    assert!(!digest_matches("0102030F10", &[1, 2, 3, 15, 16]));
    assert!(!digest_matches("0102030f", &[1, 2, 3, 15, 16]));
    assert!(!digest_matches("0102030f1000", &[1, 2, 3, 15, 16]));
    assert!(!digest_matches("\u{1}\u{2}", &[1, 2]));
}

#[test]
fn bytes_are_the_same_where_all_of_them_are() {
    assert!(same_bytes(b"", b""));
    assert!(same_bytes(b"a", b"a"));
    assert!(same_bytes(&[0, 255, 128], &[0, 255, 128]));
    assert!(!same_bytes(b"a", b""));
    assert!(!same_bytes(b"", b"a"));
    assert!(!same_bytes(b"ab", b"abc"));
    assert!(!same_bytes(b"abc", b"abd"));
    assert!(!same_bytes(b"xbc", b"abc"));
    assert!(!same_bytes(b"abc", b"aBc"));
    assert!(!same_bytes(&[0x01, 0x10], &[0x10, 0x01]));
    let left = [0x5au8; 64];
    for at in 0..64 {
        for bit in 0..8 {
            let mut right = left;
            right[at] ^= 1 << bit;
            assert!(!same_bytes(&left, &right));
        }
    }
}

#[test]
fn hex_encode_writes_two_digits_a_byte() {
    assert_eq!(hex_encode(&[]), "");
    assert_eq!(hex_encode(&[0]), "00");
    assert_eq!(hex_encode(&[1, 2, 3, 15, 16]), "0102030f10");
    assert_eq!(hex_encode(&[0x9a, 0xbc, 0xde, 0xf0, 0xff]), "9abcdef0ff");
    assert_eq!(hex_encode(b"Hello world!"), "48656c6c6f20776f726c6421");
}

#[test]
fn hex_encode_agrees_with_the_hex_crate() {
    let all: Vec<u8> = (0..=255).collect();
    assert_eq!(hex_encode(&all), hex::encode(&all));
    for byte in 0..=255u8 {
        assert_eq!(hex_encode(&[byte]), format!("{:02x}", byte));
    }
}

#[test]
fn no_secret_is_refused() {
    let secrets: [&[u8]; 5] = [b"", b"k", &[0u8; 64], &[1u8; 65], &[2u8; 4096]];
    for secret in secrets {
        let outcome = verify_hmac(&signed_with(FOX_TAG), FOX, secret);
        assert!(matches!(outcome, Ok(false)));
    }
}

#[test]
fn signature_of_another_length_does_not_verify() {
    for length in [0usize, 1, 32, 63, 65, 128] {
        let headers = signed_with(&"0".repeat(length));
        assert!(matches!(verify_hmac(&headers, FOX, b"key"), Ok(false)));
    }
    let headers = signed_with(&FOX_TAG[..63]);
    assert!(matches!(verify_hmac(&headers, FOX, b"key"), Ok(false)));
}
