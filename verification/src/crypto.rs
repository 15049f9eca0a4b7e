//! Hashes, signatures and the encodings around them, as the outside crates give them.

use vstd::prelude::*;
use vstd::string::*;

verus! {

// ── Hexadecimal ─────────────────────────────────────────────────────────────

pub open spec fn hex_digit(n: int) -> char {
    if n < 10 {
        ('0' as int + n) as char
    } else {
        ('a' as int + (n - 10)) as char
    }
}

/// Two lower-case hexadecimal digits for each byte, the high half first.
pub open spec fn hex_text(bytes: Seq<u8>) -> Seq<char> {
    Seq::new(
        2 * bytes.len(),
        |i: int|
            if i % 2 == 0 {
                hex_digit(bytes[i / 2] as int / 16)
            } else {
                hex_digit(bytes[i / 2] as int % 16)
            },
    )
}

/// The value of a hexadecimal digit, in either case.
pub open spec fn hex_value(c: char) -> Option<int> {
    if '0' <= c <= '9' {
        Some(c as int - '0' as int)
    } else if 'a' <= c <= 'f' {
        Some(c as int - 'a' as int + 10)
    } else if 'A' <= c <= 'F' {
        Some(c as int - 'A' as int + 10)
    } else {
        None
    }
}

/// The bytes that a text of hexadecimal digits stands for: nothing if it has an odd
/// number of them or holds anything else.
pub open spec fn hex_bytes(text: Seq<char>) -> Option<Seq<u8>> {
    if text.len() % 2 == 0 && forall|i: int|
        0 <= i < text.len() ==> hex_value(#[trigger] text[i]) is Some {
        Some(
            Seq::new(
                text.len() / 2,
                |i: int| (16 * hex_value(text[2 * i])->0 + hex_value(text[2 * i + 1])->0) as u8,
            ),
        )
    } else {
        None
    }
}

/// What the hex crate reports of a text that it cannot decode.
pub uninterp spec fn hex_error(text: Seq<char>) -> Seq<char>;

/// `hex::encode`: two lower-case digits for each byte.
#[verifier::external_body]
pub(crate) fn hex_encode(bytes: &[u8]) -> (r: String)
    ensures
        r@ == hex_text(bytes@),
{
    hex::encode(bytes)
}

/// `hex::decode`: the bytes that the digits stand for, upper and lower case alike;
/// an error exactly where the number of digits is odd or another character occurs. The
/// error's text depends on the decoded text alone.
#[verifier::external_body]
pub(crate) fn hex_decode(text: &str) -> (r: Result<Vec<u8>, String>)
    ensures
        match r {
            Ok(bytes) => hex_bytes(text@) == Some(bytes@),
            Err(e) => hex_bytes(text@) is None && e@ == hex_error(text@),
        },
{
    hex::decode(text).map_err(|e| e.to_string())
}

/// Decoding undoes encoding.
pub proof fn law_hex_round_trip(bytes: Seq<u8>)
    ensures
        hex_bytes(hex_text(bytes)) == Some(bytes),
{
    let text = hex_text(bytes);
    assert forall|i: int| 0 <= i < text.len() implies hex_value(#[trigger] text[i]) is Some by {
        assert(0 <= bytes[i / 2] < 256);
    }
    let back = hex_bytes(text)->0;
    assert(back.len() == bytes.len());
    assert forall|i: int| 0 <= i < bytes.len() implies back[i] == bytes[i] by {
        let b = bytes[i] as int;
        assert((2 * i) / 2 == i);
        assert((2 * i + 1) / 2 == i);
        assert((2 * i) % 2 == 0);
        assert((2 * i + 1) % 2 == 1);
        assert(text[2 * i] == hex_digit(b / 16));
        assert(text[2 * i + 1] == hex_digit(b % 16));
        assert(hex_value(hex_digit(b / 16)) == Some(b / 16));
        assert(hex_value(hex_digit(b % 16)) == Some(b % 16));
        assert(16 * (b / 16) + b % 16 == b);
    }
    assert(back =~= bytes);
}

// ── SHA-256 ─────────────────────────────────────────────────────────────────

/// The SHA-256 digest of a message.
pub uninterp spec fn sha256_of(message: Seq<u8>) -> Seq<u8>;

/// `sha2::Sha256::digest`: the digest, which depends on the message alone and is 32 bytes
/// long.
#[verifier::external_body]
pub(crate) fn sha256(message: &[u8]) -> (r: Vec<u8>)
    ensures
        r@ == sha256_of(message@),
        r@.len() == 32,
{
    <sha2::Sha256 as sha2::Digest>::digest(message).to_vec()
}

// ── Schnorr signatures over secp256k1 ───────────────────────────────────────

/// The bytes are the x coordinate of a point on the curve.
pub uninterp spec fn is_xonly_key(key: Seq<u8>) -> bool;

/// The signature is valid for the message digest under the x-only key.
pub uninterp spec fn schnorr_verifies(signature: Seq<u8>, digest: Seq<u8>, key: Seq<u8>) -> bool;

/// `secp256k1::XOnlyPublicKey::from_slice`: whether the bytes are an x-only public
/// key, which depends on them alone. Only 32 bytes can be one.
#[verifier::external_body]
pub(crate) fn xonly_key_accepted(key: &[u8]) -> (r: bool)
    ensures
        r == is_xonly_key(key@),
        r ==> key@.len() == 32,
{
    secp256k1::XOnlyPublicKey::from_slice(key).is_ok()
}

/// `secp256k1::Secp256k1::verify_schnorr`, on a signature, a digest and a key given
/// as bytes: whether the signature is valid, which depends on the three alone. Bytes
/// that are no signature of 64 bytes, no digest of 32 or no x-only key verify nothing.
#[verifier::external_body]
pub(crate) fn schnorr_verified(signature: &[u8], digest: &[u8], key: &[u8]) -> (r: bool)
    ensures
        r == schnorr_verifies(signature@, digest@, key@),
        r ==> signature@.len() == 64 && digest@.len() == 32 && is_xonly_key(key@),
{
    let signature = secp256k1::schnorr::Signature::from_slice(signature);
    let digest = secp256k1::Message::from_digest_slice(digest);
    let key = secp256k1::XOnlyPublicKey::from_slice(key);
    match (signature, digest, key) {
        (Ok(s), Ok(d), Ok(k)) => {
            secp256k1::Secp256k1::verification_only().verify_schnorr(&s, &d, &k).is_ok()
        },
        _ => false,
    }
}

// ── Bech32 ──────────────────────────────────────────────────────────────────

/// The Bech32 text of some data under a human-readable prefix, or why there is none.
pub uninterp spec fn bech32_text(prefix: Seq<char>, data: Seq<u8>) -> Result<Seq<char>, Seq<char>>;

/// `bech32::encode::<Bech32>`, with the prefix read by `bech32::Hrp::parse`: the encoded
/// text, or the error's text of whichever of the two fails. Both depend on the prefix
/// and the data alone.
#[verifier::external_body]
pub(crate) fn bech32_encode(prefix: &str, data: &[u8]) -> (r: Result<String, String>)
    ensures
        match r {
            Ok(text) => bech32_text(prefix@, data@) == Ok::<Seq<char>, Seq<char>>(text@),
            Err(e) => bech32_text(prefix@, data@) == Err::<Seq<char>, Seq<char>>(e@),
        },
{
    let hrp = bech32::Hrp::parse(prefix).map_err(|e| e.to_string())?;
    bech32::encode::<bech32::Bech32>(hrp, data).map_err(|e| e.to_string())
}

// ── Base64 ──────────────────────────────────────────────────────────────────

/// The bytes that a text in standard, padded Base64 stands for, if it is one.
pub uninterp spec fn base64_bytes(text: Seq<char>) -> Option<Seq<u8>>;

/// The text of some bytes in unpadded Base64 for URLs.
pub uninterp spec fn base64url_text(bytes: Seq<u8>) -> Seq<char>;

/// The bytes that a text in unpadded Base64 for URLs stands for, or why it is none.
pub uninterp spec fn base64url_bytes(text: Seq<char>) -> Result<Seq<u8>, Seq<char>>;

/// `decode` of base64's `STANDARD` engine: the bytes that the text stands for, or nothing
/// where the engine reports an error. Both depend on the text alone.
#[verifier::external_body]
pub(crate) fn base64_decode(text: &str) -> (r: Option<Vec<u8>>)
    ensures
        match r {
            Some(bytes) => base64_bytes(text@) == Some(bytes@),
            None => base64_bytes(text@) is None,
        },
{
    base64::Engine::decode(&base64::engine::general_purpose::STANDARD, text).ok()
}

/// `encode` of base64's `URL_SAFE_NO_PAD` engine: the text of the bytes, which depends on
/// them alone.
#[verifier::external_body]
pub(crate) fn base64url_encode(bytes: &[u8]) -> (r: String)
    ensures
        r@ == base64url_text(bytes@),
{
    base64::Engine::encode(&base64::engine::general_purpose::URL_SAFE_NO_PAD, bytes)
}

/// `decode` of base64's `URL_SAFE_NO_PAD` engine: the bytes that the text stands for, or
/// the error's text. Both depend on the text alone.
#[verifier::external_body]
pub(crate) fn base64url_decode(text: &str) -> (r: Result<Vec<u8>, String>)
    ensures
        match r {
            Ok(bytes) => base64url_bytes(text@) == Ok::<Seq<u8>, Seq<char>>(bytes@),
            Err(e) => base64url_bytes(text@) == Err::<Seq<u8>, Seq<char>>(e@),
        },
{
    base64::Engine::decode(&base64::engine::general_purpose::URL_SAFE_NO_PAD, text)
        .map_err(|e| e.to_string())
}

// ── ECDSA over P-256 ────────────────────────────────────────────────────────

/// The deterministic ECDSA signature of a message under a secret key, or why there
/// is none.
pub uninterp spec fn es256_signature(key: Seq<u8>, message: Seq<u8>) -> Result<Seq<u8>, Seq<char>>;

/// `p256::ecdsa::SigningKey::try_sign` under the key that `p256::SecretKey::from_slice`
/// reads: the signature, or the error's text of whichever of the two fails. The nonce
/// comes from the key and the message, so both are functions of the two. A signature is
/// 64 bytes long.
#[verifier::external_body]
pub(crate) fn es256_sign(key: &[u8], message: &[u8]) -> (r: Result<Vec<u8>, String>)
    ensures
        match r {
            Ok(s) => es256_signature(key@, message@) == Ok::<Seq<u8>, Seq<char>>(s@) && s@.len()
                == 64,
            Err(e) => es256_signature(key@, message@) == Err::<Seq<u8>, Seq<char>>(e@),
        },
{
    let secret = p256::SecretKey::from_slice(key).map_err(|e| e.to_string())?;
    let signing_key = p256::ecdsa::SigningKey::from(secret);
    let signed: Result<p256::ecdsa::Signature, p256::ecdsa::Error> =
        p256::ecdsa::signature::Signer::try_sign(&signing_key, message);
    signed.map(|s| s.to_bytes().to_vec()).map_err(|e| e.to_string())
}

} // verus!
