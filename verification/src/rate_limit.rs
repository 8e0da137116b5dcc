//! Limits on the rate of requests from one address.
//!
//! The front end appends exactly two entries to `X-Forwarded-For`: the address
//! of the client and its own. Whatever stands before them comes from the
//! client and is not to be trusted; the client's address is always the last
//! but one.
use vstd::prelude::*;

use crate::error::{
    error_response, internal_error, is_error, is_plain_error, ApiResponse, INTERNAL_SERVER_ERROR,
    TOO_MANY_REQUESTS,
};
use crate::text::{decimal, to_chars, to_decimal, trim_part, trimmed};

verus! {

/// The address of a network peer.
#[derive(Debug, Clone, Copy, PartialEq, Eq, Hash, Structural)]
pub enum IpAddress {
    V4(u32),
    V6(u128),
}

/// What requests are counted under. `Unknown` is one bucket that all requests
/// share for which no address is known.
#[derive(Debug, Clone, Copy, PartialEq, Eq, Hash, Structural)]
pub enum RateLimitKey {
    Ip(IpAddress),
    Unknown,
}

/// How many requests may come at once, and how many seconds it takes for one
/// more to be allowed.
#[derive(Debug, Clone, Copy, PartialEq, Eq, Structural)]
pub struct RateLimitConfig {
    pub burst_size: u32,
    pub per_second: u64,
}

/// What a limiter reports.
pub enum RateLimitError {
    /// Too many requests; the next one is allowed in so many seconds.
    TooManyRequests { wait_time: u64 },
    Other,
}

/// The last place where a character stands in a text; before its beginning
/// where it does not.
pub open spec fn last_place(text: Seq<char>, c: char) -> int
    decreases text.len(),
{
    if text.len() == 0 {
        -1
    } else if text.last() == c {
        text.len() - 1
    } else {
        last_place(text.drop_last(), c)
    }
}

/// The last entry but one of a list that is separated by commas, without the
/// white space around it; nothing where there are fewer than two.
pub open spec fn last_but_one(list: Seq<char>) -> Option<Seq<char>> {
    let end = last_place(list, ',');
    if end < 0 {
        None
    } else {
        Some(trimmed(list.subrange(last_place(list.take(end), ',') + 1, end)))
    }
}

/// The number of characters before the last comma among the first `len`, and
/// the comma; zero where there is none.
fn after_last_comma(chars: &Vec<char>, len: usize) -> (r: usize)
    requires
        len <= chars@.len(),
    ensures
        r == last_place(chars@.take(len as int), ',') + 1,
        r <= len,
{
    let mut i: usize = len;
    while i > 0 && chars[i - 1] != ','
        invariant
            i <= len <= chars@.len(),
            last_place(chars@.take(len as int), ',') == last_place(chars@.take(i as int), ','),
        decreases i,
    {
        proof {
            assert(chars@.take(i as int).drop_last() =~= chars@.take(i - 1));
            assert(chars@.take(i as int).last() == chars@[i - 1]);
        }
        i = i - 1;
    }
    proof {
        if i > 0 {
            assert(chars@.take(i as int).last() == chars@[i - 1]);
        }
    }
    i
}

/// The entry of an `X-Forwarded-For` header that names the client; nothing
/// where the header does not come from the front end.
pub fn forwarded_client(header: &str) -> (r: Option<String>)
    ensures
        (match last_but_one(header@) {
            Some(entry) => r is Some && r->0@ == entry,
            None => r is None,
        }),
{
    let chars = to_chars(header);
    assert(chars@.take(chars@.len() as int) =~= header@);
    let after_end: usize = after_last_comma(&chars, chars.len());
    if after_end == 0 {
        return None;
    }
    let end: usize = after_end - 1;
    let start: usize = after_last_comma(&chars, end);
    Some(trim_part(&chars, start, end))
}

/// What a request is counted under, given the address that its forwarding
/// header names and the one of its peer. Where neither is known it is counted
/// all the same, so that the limiter itself turns nobody away.
pub fn extract(forwarded: Option<IpAddress>, peer: Option<IpAddress>) -> (r: RateLimitKey)
    ensures
        r == (match (forwarded, peer) {
            (Some(ip), _) => RateLimitKey::Ip(ip),
            (None, Some(ip)) => RateLimitKey::Ip(ip),
            (None, None) => RateLimitKey::Unknown,
        }),
{
    match forwarded {
        Some(ip) => RateLimitKey::Ip(ip),
        None => match peer {
            Some(ip) => RateLimitKey::Ip(ip),
            None => RateLimitKey::Unknown,
        },
    }
}

/// A limiter lets nothing through, or cannot be made, with a burst or a period
/// of zero.
fn build(burst_size: u32, per_second: u64) -> (r: RateLimitConfig)
    requires
        burst_size > 0,
        per_second > 0,
    ensures
        r.burst_size == burst_size,
        r.per_second == per_second,
{
    RateLimitConfig { burst_size, per_second }
}

/// Accounts are created rarely: a small burst and a low rate.
pub fn register_config() -> (r: RateLimitConfig)
    ensures
        r == (RateLimitConfig { burst_size: 5, per_second: 60 }),
{
    build(5, 60)
}

/// The burst is well above the threshold of the lockout, so that an address
/// that guesses at one account meets the lockout first.
pub fn login_config() -> (r: RateLimitConfig)
    ensures
        r == (RateLimitConfig { burst_size: 20, per_second: 30 }),
        r.burst_size > crate::store::login_attempts::LOGIN_FAILURE_THRESHOLD,
{
    build(20, 30)
}

/// Several devices behind one address refresh more often than people log in.
pub fn refresh_config() -> (r: RateLimitConfig)
    ensures
        r == (RateLimitConfig { burst_size: 20, per_second: 12 }),
{
    build(20, 12)
}

/// The response to what a limiter reports.
pub fn rate_limit_error_handler(err: RateLimitError) -> (r: ApiResponse)
    ensures
        (match err {
            RateLimitError::TooManyRequests { wait_time } => {
                &&& r.status == 429
                &&& is_error(
                    r,
                    TOO_MANY_REQUESTS,
                    "rate_limited"@,
                    "too many requests; retry in "@ + decimal(wait_time as nat) + "s"@,
                )
                &&& r.retry_after is Some
                &&& r.retry_after->0@ == decimal(wait_time as nat)
            },
            RateLimitError::Other => is_plain_error(
                r,
                INTERNAL_SERVER_ERROR,
                "internal_error"@,
                "failed to process rate limiting"@,
            ),
        }),
{
    match err {
        RateLimitError::TooManyRequests { wait_time } => {
            let seconds = to_decimal(wait_time);
            let mut message = "too many requests; retry in ".to_string();
            message.append(seconds.as_str());
            message.append("s");
            let mut response = error_response(TOO_MANY_REQUESTS, "rate_limited", message.as_str());
            response.retry_after = Some(seconds);
            response
        },
        RateLimitError::Other => internal_error("failed to process rate limiting"),
    }
}

/// What a client puts in front of the entries that the front end appends does
/// not change which entry counts as the client's.
pub proof fn forged_entries_are_ignored(forged: Seq<char>, client: Seq<char>, front_end: Seq<char>)
    requires
        !client.contains(','),
        !front_end.contains(','),
    ensures
        last_but_one(client + seq![','] + front_end) == Some(trimmed(client)),
        last_but_one(forged + seq![','] + client + seq![','] + front_end) == Some(trimmed(client)),
{
    let plain = client + seq![','] + front_end;
    last_place_before(client, front_end);
    assert(plain.take(client.len() as int) =~= client);
    no_last_place(client);
    assert(plain.subrange(0, client.len() as int) =~= client);
    let prefix = forged + seq![','] + client;
    let whole = forged + seq![','] + client + seq![','] + front_end;
    last_place_before(prefix, front_end);
    assert(whole.take(prefix.len() as int) =~= prefix);
    last_place_before(forged, client);
    assert(whole.subrange(forged.len() as int + 1, prefix.len() as int) =~= client);
}

/// A header without a comma does not come from the front end, and names no
/// client.
pub proof fn single_entries_name_no_client(header: Seq<char>)
    ensures
        last_but_one(header) is None <==> !header.contains(','),
{
    if !header.contains(',') {
        no_last_place(header);
    } else {
        some_last_place(header);
    }
}

/// Where a comma stands there is a last one.
proof fn some_last_place(text: Seq<char>)
    requires
        text.contains(','),
    ensures
        last_place(text, ',') >= 0,
    decreases text.len(),
{
    if text.last() != ',' {
        let i = choose|i: int| 0 <= i < text.len() && text[i] == ',';
        assert(text.drop_last()[i] == ',');
        some_last_place(text.drop_last());
    }
}

/// Where no comma stands there is no last one.
proof fn no_last_place(text: Seq<char>)
    requires
        !text.contains(','),
    ensures
        last_place(text, ',') == -1,
    decreases text.len(),
{
    if text.len() > 0 {
        assert(text.contains(text.last()));
        assert(!text.drop_last().contains(',')) by {
            if text.drop_last().contains(',') {
                let i = choose|i: int| 0 <= i < text.drop_last().len() && text.drop_last()[i] == ',';
                assert(text[i] == ',');
            }
        }
        no_last_place(text.drop_last());
    }
}

/// The last comma is the one behind which none stands.
proof fn last_place_before(before: Seq<char>, after: Seq<char>)
    requires
        !after.contains(','),
    ensures
        last_place(before + seq![','] + after, ',') == before.len(),
    decreases after.len(),
{
    let text = before + seq![','] + after;
    if after.len() > 0 {
        assert(after.contains(after.last()));
        assert(text.last() == after.last());
        assert(!after.drop_last().contains(',')) by {
            if after.drop_last().contains(',') {
                let i = choose|i: int|
                    0 <= i < after.drop_last().len() && after.drop_last()[i] == ',';
                assert(after[i] == ',');
            }
        }
        assert(text.drop_last() =~= before + seq![','] + after.drop_last());
        last_place_before(before, after.drop_last());
    }
}

} // verus!
