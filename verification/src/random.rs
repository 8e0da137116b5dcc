//! Random tokens and the digests under which they are kept.
use vstd::prelude::*;

use crate::hex::{encode_hex, hex_digit, hex_reads_as_its_bytes, hex_text, hex_value};

use argon2::password_hash::rand_core::RngCore;
use sha2::Digest;

verus! {

/// The SHA-256 digest of a byte string.
pub uninterp spec fn sha256_digest(data: Seq<u8>) -> Seq<u8>;

/// `OsRng::fill_bytes`: overwrites every byte with one from the operating
/// system's generator and leaves the length alone. It panics where the
/// generator fails; which bytes come is left to chance.
#[verifier::external_body]
fn fill_random(bytes: &mut Vec<u8>)
    ensures
        final(bytes)@.len() == old(bytes)@.len(),
{
    argon2::password_hash::rand_core::OsRng.fill_bytes(bytes)
}

/// `sha2::Sha256::digest`: the SHA-256 digest of the data, 32 bytes long.
#[verifier::external_body]
pub(crate) fn sha256(data: &[u8]) -> (r: Vec<u8>)
    ensures
        r@ == sha256_digest(data@),
        r@.len() == 32,
{
    sha2::Sha256::digest(data).to_vec()
}

/// The text under which a token is kept: its SHA-256 digest in hexadecimal
/// notation.
pub open spec fn token_hash(token: Seq<char>) -> Seq<char> {
    hex_text(sha256_digest(vstd::utf8::encode_utf8(token)), false)
}

/// Whether a text is the hexadecimal notation of so many bytes.
pub open spec fn is_opaque_token(text: Seq<char>, byte_len: nat) -> bool {
    exists|bytes: Seq<u8>| bytes.len() == byte_len && text == #[trigger] hex_text(bytes, false)
}

/// Holds of a token of so many bytes that was drawn at random.
pub open spec fn is_random_token(text: Seq<char>, byte_len: usize) -> bool {
    exists|drawn: String| #[trigger]
        call_ensures(generate_opaque_token, (byte_len,), drawn) && drawn@ == text
}

/// A random token in hexadecimal notation, used for user ids, refresh tokens
/// and the `jti` of access tokens. These are never chosen by people, so no
/// slow hash is needed to keep them. The text has to fit in memory.
pub fn generate_opaque_token(byte_len: usize) -> (r: String)
    requires
        2 * byte_len <= isize::MAX,
    ensures
        is_opaque_token(r@, byte_len as nat),
        r@.len() == 2 * byte_len,
{
    let mut bytes: Vec<u8> = vec![0u8; byte_len];
    fill_random(&mut bytes);
    encode_hex(&bytes, false)
}

/// The digest under which a random token is kept. SHA-256 is enough: the
/// input is already random and cannot be guessed from a dictionary.
pub fn hash_token(token: &str) -> (r: String)
    ensures
        r@ == token_hash(token@),
        r@.len() == 64,
{
    let digest = sha256(token.as_bytes());
    encode_hex(&digest, false)
}

/// The text under which a token is kept spells the SHA-256 digest of its bytes
/// in lower case, byte by byte.
pub proof fn tokens_are_kept_by_their_digest(token: Seq<char>, i: int)
    requires
        0 <= i < sha256_digest(vstd::utf8::encode_utf8(token)).len(),
    ensures
        ({
            let digest = sha256_digest(vstd::utf8::encode_utf8(token));
            let kept = token_hash(token);
            &&& kept.len() == 2 * digest.len()
            &&& 16 * hex_value(kept[2 * i]) + hex_value(kept[2 * i + 1]) == digest[i]
            &&& '0' <= kept[2 * i] <= '9' || 'a' <= kept[2 * i] <= 'f'
            &&& '0' <= kept[2 * i + 1] <= '9' || 'a' <= kept[2 * i + 1] <= 'f'
        }),
{
    hex_reads_as_its_bytes(sha256_digest(vstd::utf8::encode_utf8(token)), false);
}

/// Two tokens are kept under the same text exactly where their digests are the
/// same.
pub proof fn tokens_are_told_apart_by_their_digest(one: Seq<char>, other: Seq<char>)
    ensures
        token_hash(one) == token_hash(other) <==> sha256_digest(vstd::utf8::encode_utf8(one))
            == sha256_digest(vstd::utf8::encode_utf8(other)),
{
    let (a, b) = (
        sha256_digest(vstd::utf8::encode_utf8(one)),
        sha256_digest(vstd::utf8::encode_utf8(other)),
    );
    hex_reads_as_its_bytes(a, false);
    hex_reads_as_its_bytes(b, false);
    if token_hash(one) == token_hash(other) {
        assert forall|i: int| 0 <= i < a.len() implies a[i] == b[i] by {
            assert(a[i] == 16 * hex_value(token_hash(one)[2 * i]) + hex_value(
                token_hash(one)[2 * i + 1],
            ));
            assert(b[i] == 16 * hex_value(token_hash(other)[2 * i]) + hex_value(
                token_hash(other)[2 * i + 1],
            ));
        }
        assert(a =~= b);
    }
}

/// A random token of so many bytes may be any text of twice as many digits in
/// lower case, and is no other.
pub proof fn random_tokens_are_lower_hex(text: Seq<char>, byte_len: nat)
    ensures
        is_opaque_token(text, byte_len) <==> {
            &&& text.len() == 2 * byte_len
            &&& forall|i: int|
                0 <= i < text.len() ==> '0' <= #[trigger] text[i] <= '9' || 'a' <= text[i] <= 'f'
        },
{
    if is_opaque_token(text, byte_len) {
        let bytes = choose|bytes: Seq<u8>|
            bytes.len() == byte_len && text == #[trigger] hex_text(bytes, false);
        hex_reads_as_its_bytes(bytes, false);
    }
    if text.len() == 2 * byte_len && forall|i: int|
        0 <= i < text.len() ==> '0' <= #[trigger] text[i] <= '9' || 'a' <= text[i] <= 'f' {
        let bytes = Seq::new(
            byte_len,
            |i: int| (16 * hex_value(text[2 * i]) + hex_value(text[2 * i + 1])) as u8,
        );
        let read = hex_text(bytes, false);
        assert forall|i: int| 0 <= i < text.len() implies text[i] == read[i] by {
            let k = i / 2;
            assert(text[2 * k] == text[2 * k] && text[2 * k + 1] == text[2 * k + 1]);
            let (high, low) = (hex_value(text[2 * k]), hex_value(text[2 * k + 1]));
            assert(0 <= high < 16 && 0 <= low < 16);
            assert(bytes[k] == 16 * high + low);
            assert((16 * high + low) / 16 == high && (16 * high + low) % 16 == low);
            assert(i == 2 * k || i == 2 * k + 1);
            assert((2 * k) / 2 == k && (2 * k) % 2 == 0);
            assert((2 * k + 1) / 2 == k && (2 * k + 1) % 2 == 1);
            assert(hex_digit(high, false) == text[2 * k]);
            assert(hex_digit(low, false) == text[2 * k + 1]);
        }
        assert(read =~= text);
    }
}

} // verus!
