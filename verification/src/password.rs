//! Password hashes, and the check of a password against known breaches.
use vstd::prelude::*;

use crate::hex::{encode_hex, hex_text};
use crate::text::{decimal, from_chars, to_chars};

use argon2::password_hash::{PasswordHasher, PasswordVerifier};
use sha1::Digest;

verus! {

// Argon2id at the OWASP baseline: 19 MiB, two iterations, one lane. Memory
// pressure grows with the cost times the number of concurrent requests.
pub const ARGON2_MEMORY_KIB: u32 = 19456;

pub const ARGON2_ITERATIONS: u32 = 2;

pub const ARGON2_PARALLELISM: u32 = 1;

pub const ARGON2_OUTPUT_LEN: usize = 32;

/// What every hash of this service begins with, up to the salt.
pub const HASH_HEAD: &'static str = "$argon2id$v=19$m=19456,t=2,p=1$";

/// The address that lists breached passwords by the first digits of their
/// digest.
pub const HIBP_RANGE_URL: &'static str = "https://api.pwnedpasswords.com/range/";

/// How long to wait for that list, in seconds.
pub const HIBP_TIMEOUT_SECS: u64 = 3;

/// The number of digits of the digest that leave this process.
pub const HIBP_PREFIX_LEN: usize = 5;

/// What hashing a password costs.
pub struct Argon2Cost {
    pub memory_kib: u32,
    pub iterations: u32,
    pub parallelism: u32,
    pub output_len: usize,
}

impl Argon2Cost {
    /// Holds of the costs that Argon2 and the text form of its hashes take.
    pub open spec fn accepted(self) -> bool {
        &&& 1 <= self.parallelism <= 0xff_ffff
        &&& 8 * self.parallelism <= self.memory_kib
        &&& 1 <= self.iterations
        &&& 10 <= self.output_len <= 64
    }
}

/// A password could not be hashed, or a stored hash could not be read.
#[derive(Debug)]
pub struct PasswordError;

#[verifier::external_type_specification]
#[verifier::external_body]
pub struct ExPasswordHashError(argon2::password_hash::Error);

/// The text form of the Argon2id hash of a password, for a salt and a memory
/// cost in KiB, a number of iterations, a number of lanes and an output
/// length; nothing where one of them is not accepted.
pub uninterp spec fn argon2id_text(
    password: Seq<char>,
    salt: Seq<char>,
    memory_kib: u32,
    iterations: u32,
    parallelism: u32,
    output_len: usize,
) -> Option<Seq<char>>;

/// Whether a text has the form of a password hash.
pub uninterp spec fn is_hash_text(text: Seq<char>) -> bool;

/// Whether a password fits a hash in text form.
pub uninterp spec fn argon2_fits(password: Seq<char>, hash: Seq<char>) -> bool;

/// The SHA-1 digest of a byte string.
pub uninterp spec fn sha1_digest(data: Seq<u8>) -> Seq<u8>;

/// What stands before the output in the text form of an Argon2id hash: the
/// algorithm, the version, the cost and the salt.
pub open spec fn hash_head(cost: Argon2Cost, salt: Seq<char>) -> Seq<char> {
    "$argon2id$v=19$m="@ + decimal(cost.memory_kib as nat) + ",t="@ + decimal(
        cost.iterations as nat,
    ) + ",p="@ + decimal(cost.parallelism as nat) + "$"@ + salt + "$"@
}

/// Holds of a salt of sixteen bytes in unpadded base64. The last digit stands
/// for two bits only, so that the other four are zero.
pub open spec fn is_salt(text: Seq<char>) -> bool {
    &&& text.len() == 22
    &&& text[21] == 'A' || text[21] == 'Q' || text[21] == 'g' || text[21] == 'w'
    &&& forall|i: int|
        0 <= i < text.len() ==> {
            ||| 'a' <= #[trigger] text[i] <= 'z'
            ||| 'A' <= text[i] <= 'Z'
            ||| '0' <= text[i] <= '9'
            ||| text[i] == '+'
            ||| text[i] == '/'
        }
}

/// `SaltString::generate` with the operating system's generator: sixteen
/// random bytes in unpadded base64. It panics where the generator fails;
/// which bytes come is left to chance.
#[verifier::external_body]
fn random_salt() -> (r: String)
    ensures
        is_salt(r@),
{
    let mut rng = argon2::password_hash::rand_core::OsRng;
    argon2::password_hash::SaltString::generate(&mut rng).as_str().to_string()
}

/// Holds of a salt that was drawn at random.
pub closed spec fn salt_drawn(salt: Seq<char>) -> bool {
    exists|drawn: String| #[trigger] call_ensures(random_salt, (), drawn) && drawn@ == salt
}

/// `Argon2::hash_password` with Argon2id, version 19, and the given cost. It
/// succeeds on an accepted cost and a generated salt exactly where the
/// password's length in bytes fits in 32 bits. The text it returns names the
/// algorithm, the version, the cost and the salt before the output, with eight
/// digits at most for the lanes. It has the form of a hash, and the password
/// fits it.
#[verifier::external_body]
fn argon2id_hash(password: &str, salt: &str, cost: &Argon2Cost) -> (r: Result<
    String,
    argon2::password_hash::Error,
>)
    requires
        cost.parallelism <= 0xff_ffff,
    ensures
        (match argon2id_text(
            password@,
            salt@,
            cost.memory_kib,
            cost.iterations,
            cost.parallelism,
            cost.output_len,
        ) {
            Some(text) => r is Ok && r->Ok_0@ == text,
            None => r is Err,
        }),
        cost.accepted() && is_salt(salt@) ==> (r is Ok <==> vstd::utf8::encode_utf8(
            password@,
        ).len() <= 0xffff_ffff),
        r matches Ok(hash) ==> hash_head(*cost, salt@).is_prefix_of(hash@),
        r matches Ok(hash) ==> is_hash_text(hash@) && argon2_fits(password@, hash@),
        r matches Ok(hash) ==> !names_too_many_lanes(hash@),
{
    let salt = argon2::password_hash::SaltString::from_b64(salt)?;
    let output_len = Some(cost.output_len);
    let params = argon2::Params::new(
        cost.memory_kib,
        cost.iterations,
        cost.parallelism,
        output_len,
    )?;
    let argon2 = argon2::Argon2::new(argon2::Algorithm::Argon2id, argon2::Version::V0x13, params);
    let hash = argon2.hash_password(password.as_bytes(), &salt)?;
    Ok(hash.to_string())
}

/// `PasswordHash::new`: an error where the text does not have the form of a
/// password hash.
#[verifier::external_body]
fn read_hash(hash: &str) -> (r: Result<(), argon2::password_hash::Error>)
    ensures
        r is Ok <==> is_hash_text(hash@),
{
    argon2::password_hash::PasswordHash::new(hash)?;
    Ok(())
}

/// `Argon2::verify_password` on a hash in text form: whether the password fits
/// it. Algorithm, version and cost are the ones that the text names. Whether
/// the text can be read does not depend on the password. Memory that the text
/// asks for and that cannot be had ends the process.
#[verifier::external_body]
fn argon2_verify(password: &str, hash: &str) -> (r: Result<bool, argon2::password_hash::Error>)
    requires
        !names_too_many_lanes(hash@),
    ensures
        r is Ok <==> is_hash_text(hash@),
        r matches Ok(fits) ==> fits == argon2_fits(password@, hash@),
{
    let parsed = argon2::password_hash::PasswordHash::new(hash)?;
    Ok(argon2::Argon2::default().verify_password(password.as_bytes(), &parsed).is_ok())
}

/// `sha1::Sha1::digest`: the SHA-1 digest of the data, 20 bytes long.
#[verifier::external_body]
fn sha1(data: &[u8]) -> (r: Vec<u8>)
    ensures
        r@ == sha1_digest(data@),
        r@.len() == 20,
{
    sha1::Sha1::digest(data).to_vec()
}

/// Holds at a place of a text where a number of lanes with nine digits or
/// more is named.
pub open spec fn long_lanes_at(hash: Seq<char>, i: int) -> bool {
    &&& 0 <= i
    &&& i + 11 <= hash.len()
    &&& hash[i] == 'p'
    &&& hash[i + 1] == '='
    &&& forall|j: int| i + 2 <= j < i + 11 ==> '0' <= #[trigger] hash[j] <= '9'
}

/// Holds of a hash whose number of lanes is beyond what Argon2 has, and may be
/// so large that computing with it overflows. No password fits such a hash.
pub open spec fn names_too_many_lanes(hash: Seq<char>) -> bool {
    exists|i: int| long_lanes_at(hash, i)
}

fn too_many_lanes(hash: &str) -> (r: bool)
    ensures
        r == names_too_many_lanes(hash@),
{
    let chars = to_chars(hash);
    let mut i: usize = 0;
    while i < chars.len()
        invariant
            i <= chars@.len(),
            chars@ == hash@,
            forall|k: int| 0 <= k < i ==> !long_lanes_at(hash@, k),
        decreases chars@.len() - i,
    {
        if chars.len() - i >= 11 && chars[i] == 'p' && chars[i + 1] == '=' {
            let stop: usize = i + 11;
            let mut j: usize = i + 2;
            while j < stop && '0' <= chars[j] && chars[j] <= '9'
                invariant
                    stop == i + 11,
                    i + 2 <= j <= stop <= chars@.len(),
                    chars@ == hash@,
                    forall|k: int| i + 2 <= k < j ==> '0' <= #[trigger] hash@[k] <= '9',
                decreases stop - j,
            {
                j = j + 1;
            }
            if j == stop {
                assert(long_lanes_at(hash@, i as int));
                return true;
            }
            assert(!('0' <= hash@[j as int] <= '9'));
            assert(!long_lanes_at(hash@, i as int));
        }
        i = i + 1;
    }
    false
}

/// What hashing a password costs in this service. Fixed policy, not a matter
/// of deployment.
pub fn argon2() -> (r: Argon2Cost)
    ensures
        r.memory_kib == ARGON2_MEMORY_KIB && r.memory_kib == 19_456,
        r.iterations == ARGON2_ITERATIONS && r.iterations == 2,
        r.parallelism == ARGON2_PARALLELISM && r.parallelism == 1,
        r.output_len == ARGON2_OUTPUT_LEN && r.output_len == 32,
        r.accepted(),
{
    Argon2Cost {
        memory_kib: ARGON2_MEMORY_KIB,
        iterations: ARGON2_ITERATIONS,
        parallelism: ARGON2_PARALLELISM,
        output_len: ARGON2_OUTPUT_LEN,
    }
}

/// Holds of a hash of the password, for some salt, at this service's cost.
pub open spec fn is_password_hash(password: Seq<char>, salt: Seq<char>, hash: Seq<char>) -> bool {
    argon2id_text(
        password,
        salt,
        ARGON2_MEMORY_KIB,
        ARGON2_ITERATIONS,
        ARGON2_PARALLELISM,
        ARGON2_OUTPUT_LEN,
    ) == Some(hash)
}

/// Holds of what hashing a password may yield.
pub open spec fn hashed(password: Seq<char>, result: Result<String, PasswordError>) -> bool {
    &&& result is Ok <==> vstd::utf8::encode_utf8(password).len() <= 0xffff_ffff
    &&& result matches Ok(hash) ==> {
        &&& exists|salt: Seq<char>|
            {
                &&& is_salt(salt)
                &&& salt_drawn(salt)
                &&& #[trigger] is_password_hash(password, salt, hash@)
                &&& (HASH_HEAD@ + salt + "$"@).is_prefix_of(hash@)
            }
        &&& HASH_HEAD@.is_prefix_of(hash@)
        &&& is_hash_text(hash@)
        &&& password_fits(password, hash@) == Some(true)
    }
}

/// At this service's cost a hash begins with the fixed head.
proof fn head_is_fixed(cost: Argon2Cost, salt: Seq<char>)
    requires
        cost.memory_kib == ARGON2_MEMORY_KIB,
        cost.iterations == ARGON2_ITERATIONS,
        cost.parallelism == ARGON2_PARALLELISM,
    ensures
        hash_head(cost, salt) == HASH_HEAD@ + salt + "$"@,
{
    reveal_strlit("$argon2id$v=19$m=");
    reveal_strlit(",t=");
    reveal_strlit(",p=");
    reveal_strlit("$");
    reveal_strlit("$argon2id$v=19$m=19456,t=2,p=1$");
    assert(decimal(1) =~= seq!['1']);
    assert(decimal(2) =~= seq!['2']);
    assert(decimal(19) =~= seq!['1', '9']);
    assert(decimal(194) =~= seq!['1', '9', '4']);
    assert(decimal(1945) =~= seq!['1', '9', '4', '5']);
    assert(decimal(19456) =~= seq!['1', '9', '4', '5', '6']);
    assert("$argon2id$v=19$m="@ + decimal(19456) + ",t="@ + decimal(2) + ",p="@ + decimal(1) + "$"@
        =~= HASH_HEAD@);
}

/// The hash under which a password is kept: Argon2id with a random salt. It
/// fails on passwords longer than Argon2 takes, and on no others; the
/// password fits the hash.
pub fn hash_password(password: &str) -> (r: Result<String, PasswordError>)
    ensures
        hashed(password@, r),
{
    let salt = random_salt();
    assert(salt_drawn(salt@));
    let cost = argon2();
    match argon2id_hash(password, salt.as_str(), &cost) {
        Ok(hash) => {
            assert(is_password_hash(password@, salt@, hash@));
            proof {
                head_is_fixed(cost, salt@);
                assert(HASH_HEAD@ + salt@ + "$"@ =~= HASH_HEAD@ + (salt@ + "$"@));
                assert(hash@.subrange(0, HASH_HEAD@.len() as int) =~= HASH_HEAD@);
            }
            Ok(hash)
        },
        Err(_) => Err(PasswordError),
    }
}

/// Whether a password fits a hash; nothing where the text is no hash. That
/// does not depend on the password.
pub open spec fn password_fits(password: Seq<char>, hash: Seq<char>) -> Option<bool> {
    if !is_hash_text(hash) {
        None
    } else if names_too_many_lanes(hash) {
        Some(false)
    } else {
        Some(argon2_fits(password, hash))
    }
}

/// Whether a password fits the hash that is kept of it. An error where the
/// kept text is no hash.
pub fn verify_password(password: &str, hash: &str) -> (r: Result<bool, PasswordError>)
    ensures
        r == (match password_fits(password@, hash@) {
            Some(fits) => Ok(fits),
            None => Err(PasswordError),
        }),
{
    if read_hash(hash).is_err() {
        return Err(PasswordError);
    }
    if too_many_lanes(hash) {
        return Ok(false);
    }
    match argon2_verify(password, hash) {
        Ok(fits) => Ok(fits),
        Err(_) => Err(PasswordError),
    }
}

/// The digest of a password, parted into what is sent to the service that
/// knows breached passwords and what is looked for in its answer.
pub struct BreachQuery {
    pub prefix: String,
    pub suffix: String,
}

/// The digest by which breached passwords are listed.
pub open spec fn breach_digest(password: Seq<char>) -> Seq<char> {
    hex_text(sha1_digest(vstd::utf8::encode_utf8(password)), true)
}

/// What to ask for, and what to look for, in order to tell whether a password
/// has been breached. Only the prefix may leave this process.
pub fn breach_query(password: &str) -> (r: BreachQuery)
    ensures
        r.prefix@ == breach_digest(password@).take(HIBP_PREFIX_LEN as int),
        r.suffix@ == breach_digest(password@).skip(HIBP_PREFIX_LEN as int),
        r.prefix@.len() == HIBP_PREFIX_LEN,
        r.suffix@.len() == 35,
        r.prefix@ + r.suffix@ == breach_digest(password@),
{
    let digest = sha1(password.as_bytes());
    let hex = encode_hex(&digest, true);
    let chars = to_chars(hex.as_str());
    proof {
        let all = breach_digest(password@);
        assert(all.subrange(0, HIBP_PREFIX_LEN as int) == all.take(HIBP_PREFIX_LEN as int));
        assert(all.subrange(HIBP_PREFIX_LEN as int, 40) == all.skip(HIBP_PREFIX_LEN as int));
        assert(all.take(HIBP_PREFIX_LEN as int) + all.skip(HIBP_PREFIX_LEN as int) =~= all);
    }
    BreachQuery {
        prefix: from_chars(&chars, 0, HIBP_PREFIX_LEN),
        suffix: from_chars(&chars, HIBP_PREFIX_LEN, chars.len()),
    }
}

/// The address to fetch for a query.
pub fn breach_range_url(query: &BreachQuery) -> (r: String)
    ensures
        r@ == HIBP_RANGE_URL@ + query.prefix@,
        r@ == "https://api.pwnedpasswords.com/range/"@ + query.prefix@,
{
    let mut url = HIBP_RANGE_URL.to_string();
    url.append(query.prefix.as_str());
    url
}

/// The character in lower case, if it is one of the letters of ASCII.
pub open spec fn ascii_lowercase(c: char) -> char {
    if 'A' <= c <= 'Z' {
        (c as u32 + 32) as char
    } else {
        c
    }
}

/// Whether two texts differ at most in the case of ASCII letters.
pub open spec fn same_ignoring_ascii_case(a: Seq<char>, b: Seq<char>) -> bool {
    &&& a.len() == b.len()
    &&& forall|i: int| 0 <= i < a.len() ==> ascii_lowercase(#[trigger] a[i]) == ascii_lowercase(b[i])
}

/// Holds where the part `start..colon` of a text begins a line and ends
/// before the first colon of that line.
pub open spec fn leads_line(body: Seq<char>, start: int, colon: int) -> bool {
    &&& 0 <= start <= colon < body.len()
    &&& start == 0 || body[start - 1] == '\n'
    &&& body[colon] == ':'
    &&& forall|i: int| start <= i < colon ==> #[trigger] body[i] != '\n' && body[i] != ':'
}

/// Whether an answer of the breach service lists a suffix: some line has it,
/// in either case, before its first colon.
pub open spec fn lists_suffix(body: Seq<char>, suffix: Seq<char>) -> bool {
    exists|start: int, colon: int| #[trigger]
        leads_line(body, start, colon) && same_ignoring_ascii_case(
            body.subrange(start, colon),
            suffix,
        )
}

fn lowercase_ascii(c: char) -> (r: char)
    ensures
        r == ascii_lowercase(c),
{
    if 'A' <= c && c <= 'Z' {
        let code: u8 = c as u8 + 32;
        code as char
    } else {
        c
    }
}

fn part_equals(body: &Vec<char>, start: usize, end: usize, other: &Vec<char>) -> (r: bool)
    requires
        start <= end <= body@.len(),
    ensures
        r == same_ignoring_ascii_case(body@.subrange(start as int, end as int), other@),
{
    if end - start != other.len() {
        return false;
    }
    let ghost part = body@.subrange(start as int, end as int);
    let mut i: usize = 0;
    while i < other.len()
        invariant
            start <= end <= body@.len(),
            end - start == other@.len(),
            part == body@.subrange(start as int, end as int),
            i <= other@.len(),
            forall|k: int|
                0 <= k < i ==> ascii_lowercase(#[trigger] part[k]) == ascii_lowercase(other@[k]),
        decreases other@.len() - i,
    {
        assert(part[i as int] == body@[start + i]);
        if lowercase_ascii(body[start + i]) != lowercase_ascii(other[i]) {
            return false;
        }
        i = i + 1;
    }
    true
}

/// Whether an answer of the breach service lists the suffix of a query.
pub fn range_lists_suffix(body: &str, suffix: &str) -> (r: bool)
    ensures
        r == lists_suffix(body@, suffix@),
{
    let text = to_chars(body);
    let wanted = to_chars(suffix);
    let mut start: usize = 0;
    let mut past_colon: bool = false;
    let mut i: usize = 0;
    while i < text.len()
        invariant
            text@ == body@,
            wanted@ == suffix@,
            start <= i <= text@.len(),
            start == 0 || body@[start - 1] == '\n',
            forall|k: int| start <= k < i ==> #[trigger] body@[k] != '\n',
            past_colon <==> exists|k: int| start <= k < i && #[trigger] body@[k] == ':',
            forall|a: int, k: int|
                #![trigger leads_line(body@, a, k)]
                k < i && leads_line(body@, a, k) ==> !same_ignoring_ascii_case(
                    body@.subrange(a, k),
                    suffix@,
                ),
        decreases text@.len() - i,
    {
        let c = text[i];
        let ghost old_start = start as int;
        if c == ':' && !past_colon {
            assert(leads_line(body@, start as int, i as int));
            if part_equals(&text, start, i, &wanted) {
                return true;
            }
        }
        proof {
            assert forall|a: int| leads_line(body@, a, i as int) implies !past_colon && a
                == old_start && c == ':' by {
                if a > old_start {
                    assert(body@[a - 1] != '\n');
                }
                if a < old_start {
                    assert(body@[old_start - 1] != '\n');
                }
            }
        }
        if c == '\n' {
            start = i + 1;
            past_colon = false;
        } else if c == ':' {
            assert(body@[i as int] == ':');
            past_colon = true;
        }
        i = i + 1;
    }
    false
}

} // verus!
