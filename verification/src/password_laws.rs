//! What holds of password hashes and of the check against known breaches.
use vstd::prelude::*;

use crate::hex::{hex_reads_as_its_bytes, hex_value};
use crate::password::{
    argon2_fits, argon2id_text, ascii_lowercase, breach_digest, hashed, is_hash_text,
    is_password_hash, is_salt, leads_line, lists_suffix, long_lanes_at, names_too_many_lanes,
    password_fits, salt_drawn, same_ignoring_ascii_case, sha1_digest, PasswordError,
    HASH_HEAD,
};

verus! {

/// The hash that is kept of a password is one that the password fits: Argon2id
/// over 19 MiB, in two iterations and one lane, of thirty-two bytes. It names
/// its cost in front, and fails for passwords of four gigabytes and more alone.
pub proof fn passwords_fit_their_hashes(
    password: Seq<char>,
    result: Result<String, PasswordError>,
)
    requires
        hashed(password, result),
    ensures
        result is Ok <==> vstd::utf8::encode_utf8(password).len() <= 0xffff_ffff,
        result matches Ok(hash) ==> {
            &&& is_hash_text(hash@)
            &&& argon2_fits(password, hash@)
            &&& password_fits(password, hash@) == Some(true)
            &&& "$argon2id$v=19$m=19456,t=2,p=1$"@.is_prefix_of(hash@)
            &&& exists|salt: Seq<char>|
                salt.len() == 22 && salt_drawn(salt) && #[trigger] argon2id_text(
                    password,
                    salt,
                    19456,
                    2,
                    1,
                    32,
                ) == Some(hash@)
        },
{
    if result is Ok {
        let hash = result->Ok_0@;
        let salt = choose|salt: Seq<char>|
            {
                &&& is_salt(salt)
                &&& salt_drawn(salt)
                &&& #[trigger] is_password_hash(password, salt, hash)
                &&& (HASH_HEAD@ + salt + "$"@).is_prefix_of(hash)
            };
        assert(argon2id_text(password, salt, 19456, 2, 1, 32) == Some(hash));
    }
}

/// Argon2 alone decides whether a password fits a hash, for every password and
/// every text that is a hash, unless the text names a number of lanes with nine
/// digits or more: no password fits such a one.
pub proof fn argon2_decides_whether_a_password_fits(password: Seq<char>, hash: Seq<char>)
    ensures
        password_fits(password, hash) is None <==> !is_hash_text(hash),
        is_hash_text(hash) && (forall|i: int|
            #![trigger hash[i]]
            0 <= i && i + 11 <= hash.len() && hash[i] == 'p' && hash[i + 1] == '=' ==> exists|j: int|
                i + 2 <= j < i + 11 && !('0' <= #[trigger] hash[j] <= '9')) ==> password_fits(
            password,
            hash,
        ) == Some(argon2_fits(password, hash)),
        password_fits(password, hash) == Some(true) ==> argon2_fits(password, hash),
        is_hash_text(hash) && (exists|i: int|
            #![trigger hash[i]]
            0 <= i && i + 11 <= hash.len() && hash[i] == 'p' && hash[i + 1] == '=' && forall|j: int|
                i + 2 <= j < i + 11 ==> '0' <= #[trigger] hash[j] <= '9') ==> password_fits(
            password,
            hash,
        ) == Some(false),
{
    if exists|i: int|
        #![trigger hash[i]]
        0 <= i && i + 11 <= hash.len() && hash[i] == 'p' && hash[i + 1] == '=' && forall|j: int|
            i + 2 <= j < i + 11 ==> '0' <= #[trigger] hash[j] <= '9' {
        let i = choose|i: int|
            #![trigger hash[i]]
            0 <= i && i + 11 <= hash.len() && hash[i] == 'p' && hash[i + 1] == '=' && forall|j: int|
                i + 2 <= j < i + 11 ==> '0' <= #[trigger] hash[j] <= '9';
        assert(long_lanes_at(hash, i));
    }
    if is_hash_text(hash) && names_too_many_lanes(hash) {
        let i = choose|i: int| long_lanes_at(hash, i);
        assert(hash[i] == 'p');
    }
}

/// The digest by which breached passwords are listed spells the SHA-1 digest of
/// the password's bytes in upper case, byte by byte.
pub proof fn breaches_are_listed_by_digest(password: Seq<char>, i: int)
    requires
        0 <= i < sha1_digest(vstd::utf8::encode_utf8(password)).len(),
    ensures
        ({
            let digest = sha1_digest(vstd::utf8::encode_utf8(password));
            let text = breach_digest(password);
            &&& text.len() == 2 * digest.len()
            &&& 16 * hex_value(text[2 * i]) + hex_value(text[2 * i + 1]) == digest[i]
            &&& '0' <= text[2 * i] <= '9' || 'A' <= text[2 * i] <= 'F'
            &&& '0' <= text[2 * i + 1] <= '9' || 'A' <= text[2 * i + 1] <= 'F'
        }),
{
    hex_reads_as_its_bytes(sha1_digest(vstd::utf8::encode_utf8(password)), true);
}

/// Holds of two characters that are the same, or the same letter of ASCII in
/// two cases.
pub open spec fn same_letter(a: char, b: char) -> bool {
    ||| a == b
    ||| 'A' <= a <= 'Z' && b as int == a as int + 32
    ||| 'A' <= b <= 'Z' && a as int == b as int + 32
}

/// Two characters have the same lower case where they are the same letter.
proof fn letters_share_their_lower_case(a: char, b: char)
    ensures
        ascii_lowercase(a) == ascii_lowercase(b) <==> same_letter(a, b),
{
}

/// An answer that has the suffix, in either case, before the first colon of
/// some line lists it, whichever line that is and whatever follows the colon.
pub proof fn listed_suffixes_are_found(
    before: Seq<char>,
    head: Seq<char>,
    after: Seq<char>,
    suffix: Seq<char>,
)
    requires
        before.len() > 0 ==> before.last() == '\n',
        !head.contains('\n'),
        !head.contains(':'),
        head.len() == suffix.len(),
        forall|i: int| 0 <= i < head.len() ==> same_letter(#[trigger] head[i], suffix[i]),
    ensures
        lists_suffix(before + head + seq![':'] + after, suffix),
{
    let body = before + head + seq![':'] + after;
    let start = before.len() as int;
    let colon = start + head.len();
    assert(body.subrange(start, colon) =~= head);
    assert forall|i: int| start <= i < colon implies #[trigger] body[i] != '\n' && body[i]
        != ':' by {
        assert(body[i] == head[i - start]);
        assert(head.contains(head[i - start]));
    }
    assert(start > 0 ==> body[start - 1] == before.last());
    assert(leads_line(body, start, colon));
    assert forall|i: int| 0 <= i < head.len() implies ascii_lowercase(#[trigger] head[i])
        == ascii_lowercase(suffix[i]) by {
        letters_share_their_lower_case(head[i], suffix[i]);
    }
    assert(same_ignoring_ascii_case(body.subrange(start, colon), suffix));
}

/// Holds where a line begins at that place with the suffix, in either case, and
/// has its first colon right behind it.
pub open spec fn begins_line(body: Seq<char>, start: int, suffix: Seq<char>) -> bool {
    &&& 0 <= start
    &&& start + suffix.len() < body.len()
    &&& start == 0 || body[start - 1] == '\n'
    &&& body[start + suffix.len()] == ':'
    &&& forall|i: int|
        0 <= i < suffix.len() ==> {
            &&& same_letter(body[start + i], #[trigger] suffix[i])
            &&& body[start + i] != '\n'
            &&& body[start + i] != ':'
        }
}

/// An answer lists nothing else: where it lists a suffix, some line begins with
/// it, in either case, and has its first colon right behind it.
pub proof fn only_listed_suffixes_are_found(body: Seq<char>, suffix: Seq<char>)
    requires
        lists_suffix(body, suffix),
    ensures
        exists|start: int| begins_line(body, start, suffix),
{
    let (start, colon) = choose|start: int, colon: int| #[trigger]
        leads_line(body, start, colon) && same_ignoring_ascii_case(
            body.subrange(start, colon),
            suffix,
        );
    let head = body.subrange(start, colon);
    assert forall|i: int| 0 <= i < suffix.len() implies same_letter(
        body[start + i],
        #[trigger] suffix[i],
    ) && body[start + i] != '\n' && body[start + i] != ':' by {
        assert(head[i] == body[start + i]);
        letters_share_their_lower_case(head[i], suffix[i]);
    }
    assert(begins_line(body, start, suffix));
}

} // verus!
