//! Plain text: trimming, normalising, decimal numbers.
use vstd::prelude::*;

verus! {

/// `str::to_lowercase` on a text.
pub uninterp spec fn lowercase(text: Seq<char>) -> Seq<char>;

/// `String::push`: the character stands behind the text.
pub assume_specification[ String::push ](s: &mut String, c: char)
    ensures
        final(s)@ == old(s)@.push(c),
;

/// Holds of white space: the characters with the Unicode property
/// `White_Space`.
pub open spec fn whitespace(c: char) -> bool {
    ||| '\u{9}' <= c <= '\u{d}'
    ||| c == ' '
    ||| c == '\u{85}'
    ||| c == '\u{a0}'
    ||| c == '\u{1680}'
    ||| '\u{2000}' <= c <= '\u{200a}'
    ||| c == '\u{2028}'
    ||| c == '\u{2029}'
    ||| c == '\u{202f}'
    ||| c == '\u{205f}'
    ||| c == '\u{3000}'
}

fn is_whitespace(c: char) -> (r: bool)
    ensures
        r == whitespace(c),
{
    ('\u{9}' <= c && c <= '\u{d}') || c == ' ' || c == '\u{85}' || c == '\u{a0}' || c
        == '\u{1680}' || ('\u{2000}' <= c && c <= '\u{200a}') || c == '\u{2028}' || c
        == '\u{2029}' || c == '\u{202f}' || c == '\u{205f}' || c == '\u{3000}'
}

/// `str::to_lowercase`: the lower case of the text, which depends on the text
/// alone.
#[verifier::external_body]
fn to_lowercase(text: &str) -> (r: String)
    ensures
        r@ == lowercase(text@),
{
    text.to_lowercase()
}

/// The characters of a text, one by one.
pub(crate) fn to_chars(text: &str) -> (r: Vec<char>)
    ensures
        r@ == text@,
{
    let mut chars: Vec<char> = Vec::new();
    for c in it: text.chars()
        invariant
            it.seq() == text@,
            chars@ == text@.take(it.index()),
    {
        chars.push(c);
    }
    assert(text@.take(text@.len() as int) == text@);
    chars
}

/// The text made of characters `from..to`.
pub(crate) fn from_chars(chars: &Vec<char>, from: usize, to: usize) -> (r: String)
    requires
        from <= to <= chars@.len(),
    ensures
        r@ == chars@.subrange(from as int, to as int),
{
    let mut text = String::new();
    let mut i: usize = from;
    while i < to
        invariant
            from <= i <= to <= chars@.len(),
            text@ == chars@.subrange(from as int, i as int),
        decreases to - i,
    {
        text.push(chars[i]);
        i = i + 1;
    }
    text
}

/// The text without the white space that it begins with.
pub open spec fn trim_start(text: Seq<char>) -> Seq<char>
    decreases text.len(),
{
    if text.len() > 0 && whitespace(text[0]) {
        trim_start(text.skip(1))
    } else {
        text
    }
}

/// The text without the white space that it ends with.
pub open spec fn trim_end(text: Seq<char>) -> Seq<char>
    decreases text.len(),
{
    if text.len() > 0 && whitespace(text.last()) {
        trim_end(text.drop_last())
    } else {
        text
    }
}

/// The text without white space at either end.
pub open spec fn trimmed(text: Seq<char>) -> Seq<char> {
    trim_end(trim_start(text))
}

/// Trims the part `from..to` of a text.
pub(crate) fn trim_part(chars: &Vec<char>, from: usize, to: usize) -> (r: String)
    requires
        from <= to <= chars@.len(),
    ensures
        r@ == trimmed(chars@.subrange(from as int, to as int)),
{
    let ghost whole = chars@.subrange(from as int, to as int);
    let mut start: usize = from;
    while start < to && is_whitespace(chars[start])
        invariant
            from <= start <= to <= chars@.len(),
            whole == chars@.subrange(from as int, to as int),
            trim_start(whole) == trim_start(chars@.subrange(start as int, to as int)),
        ensures
            from <= start <= to,
            trim_start(whole) == chars@.subrange(start as int, to as int),
        decreases to - start,
    {
        proof {
            let rest = chars@.subrange(start as int, to as int);
            assert(rest.skip(1) == chars@.subrange(start + 1, to as int));
        }
        start = start + 1;
    }
    let ghost rest = chars@.subrange(start as int, to as int);
    let mut end: usize = to;
    while start < end && is_whitespace(chars[end - 1])
        invariant
            start <= end <= to <= chars@.len(),
            rest == chars@.subrange(start as int, to as int),
            trim_end(rest) == trim_end(chars@.subrange(start as int, end as int)),
        ensures
            start <= end <= to,
            trim_end(rest) == chars@.subrange(start as int, end as int),
        decreases end - start,
    {
        proof {
            let shrinking = chars@.subrange(start as int, end as int);
            assert(shrinking.drop_last() == chars@.subrange(start as int, end - 1));
        }
        end = end - 1;
    }
    from_chars(chars, start, end)
}

/// The text without white space at either end.
pub fn trim(text: &str) -> (r: String)
    ensures
        r@ == trimmed(text@),
{
    let chars = to_chars(text);
    assert(chars@.subrange(0, chars@.len() as int) == text@);
    trim_part(&chars, 0, chars.len())
}

/// The form of an email address under which an account is kept: trimmed and
/// in lower case.
pub open spec fn normalized_email(email: Seq<char>) -> Seq<char> {
    lowercase(trimmed(email))
}

pub fn normalize_email(email: &str) -> (r: String)
    ensures
        r@ == normalized_email(email@),
{
    to_lowercase(&trim(email))
}

/// The decimal digit of a number below ten.
pub open spec fn decimal_digit(n: int) -> char {
    ('0' as u32 + n) as char
}

/// The decimal notation of a number.
pub open spec fn decimal(n: nat) -> Seq<char>
    decreases n,
{
    if n < 10 {
        seq![decimal_digit(n as int)]
    } else {
        decimal(n / 10).push(decimal_digit((n % 10) as int))
    }
}

fn digit(n: u64) -> (r: char)
    requires
        n < 10,
    ensures
        r == decimal_digit(n as int),
{
    if n == 0 {
        '0'
    } else if n == 1 {
        '1'
    } else if n == 2 {
        '2'
    } else if n == 3 {
        '3'
    } else if n == 4 {
        '4'
    } else if n == 5 {
        '5'
    } else if n == 6 {
        '6'
    } else if n == 7 {
        '7'
    } else if n == 8 {
        '8'
    } else {
        '9'
    }
}

/// Writes a number in decimal notation.
pub fn to_decimal(n: u64) -> (r: String)
    ensures
        r@ == decimal(n as nat),
    decreases n,
{
    if n < 10 {
        let mut text = String::new();
        text.push(digit(n));
        assert(text@ == decimal(n as nat));
        text
    } else {
        let mut text = to_decimal(n / 10);
        text.push(digit(n % 10));
        text
    }
}

/// Whether a character stands somewhere in a text.
pub fn contains_char(text: &str, wanted: char) -> (r: bool)
    ensures
        r == text@.contains(wanted),
{
    let chars = to_chars(text);
    let mut i: usize = 0;
    while i < chars.len()
        invariant
            i <= chars@.len(),
            chars@ == text@,
            forall|j: int| 0 <= j < i ==> chars@[j] != wanted,
        decreases chars@.len() - i,
    {
        if chars[i] == wanted {
            assert(text@[i as int] == wanted);
            return true;
        }
        i = i + 1;
    }
    false
}

/// Holds of a text of white space alone.
pub open spec fn is_blank(text: Seq<char>) -> bool {
    forall|i: int| 0 <= i < text.len() ==> whitespace(#[trigger] text[i])
}

/// White space is these characters, and no others.
pub proof fn white_space_is_a_fixed_set(c: char)
    ensures
        whitespace(c) <==> set![
            '\u{9}', '\u{a}', '\u{b}', '\u{c}', '\u{d}', '\u{20}', '\u{85}', '\u{a0}', '\u{1680}',
            '\u{2000}', '\u{2001}', '\u{2002}', '\u{2003}', '\u{2004}', '\u{2005}', '\u{2006}',
            '\u{2007}', '\u{2008}', '\u{2009}', '\u{200a}', '\u{2028}', '\u{2029}', '\u{202f}',
            '\u{205f}', '\u{3000}'
        ].contains(c),
{
}

/// What stands before a first character that is no white space goes.
proof fn blank_start_goes(before: Seq<char>, rest: Seq<char>)
    requires
        is_blank(before),
        rest.len() > 0 ==> !whitespace(rest[0]),
    ensures
        trim_start(before + rest) == rest,
    decreases before.len(),
{
    let text = before + rest;
    if before.len() == 0 {
        assert(text =~= rest);
    } else {
        assert(text[0] == before[0]);
        let fewer = before.skip(1);
        assert forall|i: int| 0 <= i < fewer.len() implies whitespace(#[trigger] fewer[i]) by {
            assert(fewer[i] == before[i + 1]);
        }
        assert(text.skip(1) =~= fewer + rest);
        blank_start_goes(fewer, rest);
    }
}

/// What stands behind a last character that is no white space goes.
proof fn blank_end_goes(rest: Seq<char>, after: Seq<char>)
    requires
        is_blank(after),
        rest.len() > 0 ==> !whitespace(rest.last()),
    ensures
        trim_end(rest + after) == rest,
    decreases after.len(),
{
    let text = rest + after;
    if after.len() == 0 {
        assert(text =~= rest);
    } else {
        assert(text.last() == after.last());
        let fewer = after.drop_last();
        assert forall|i: int| 0 <= i < fewer.len() implies whitespace(#[trigger] fewer[i]) by {
            assert(fewer[i] == after[i]);
        }
        assert(text.drop_last() =~= rest + fewer);
        blank_end_goes(rest, fewer);
    }
}

/// Trimming takes the white space around a text, however much there is, and
/// leaves the white space within it.
pub proof fn trimming_takes_the_ends(before: Seq<char>, core: Seq<char>, after: Seq<char>)
    requires
        is_blank(before),
        is_blank(after),
        core.len() > 0 ==> !whitespace(core[0]) && !whitespace(core.last()),
    ensures
        trimmed(before + core + after) == core,
{
    let text = before + core + after;
    if core.len() == 0 {
        let all = before + after;
        assert(text =~= all + core);
        assert forall|i: int| 0 <= i < all.len() implies whitespace(#[trigger] all[i]) by {
            if i < before.len() {
                assert(all[i] == before[i]);
            } else {
                assert(all[i] == after[i - before.len()]);
            }
        }
        blank_start_goes(all, core);
        assert(trim_end(core) == core);
    } else {
        assert(text =~= before + (core + after));
        assert((core + after)[0] == core[0]);
        blank_start_goes(before, core + after);
        blank_end_goes(core, after);
    }
}

/// Every text has a part that is left of it by trimming: it begins and ends
/// with other characters than white space, and only white space stands before
/// and behind it.
pub proof fn every_text_has_a_core(text: Seq<char>)
    ensures
        exists|from: int, to: int|
            {
                &&& 0 <= from <= to <= text.len()
                &&& trimmed(text) == #[trigger] text.subrange(from, to)
                &&& is_blank(text.subrange(0, from))
                &&& is_blank(text.subrange(to, text.len() as int))
                &&& from < to ==> !whitespace(text[from]) && !whitespace(text[to - 1])
            },
{
    let from = first_solid(text, 0);
    let to = last_solid(text, from, text.len() as int);
    let (before, core, after) = (
        text.subrange(0, from),
        text.subrange(from, to),
        text.subrange(to, text.len() as int),
    );
    assert(before + core + after =~= text);
    trimming_takes_the_ends(before, core, after);
}

/// The place of the first character from `from` on that is no white space.
proof fn first_solid(text: Seq<char>, from: int) -> (r: int)
    requires
        0 <= from <= text.len(),
        is_blank(text.subrange(0, from)),
    ensures
        from <= r <= text.len(),
        is_blank(text.subrange(0, r)),
        r < text.len() ==> !whitespace(text[r]),
    decreases text.len() - from,
{
    if from < text.len() && whitespace(text[from]) {
        let more = text.subrange(0, from + 1);
        assert forall|i: int| 0 <= i < more.len() implies whitespace(#[trigger] more[i]) by {
            if i < from {
                assert(more[i] == text.subrange(0, from)[i]);
            }
        }
        first_solid(text, from + 1)
    } else {
        from
    }
}

/// The place behind the last character before `to` that is no white space.
proof fn last_solid(text: Seq<char>, from: int, to: int) -> (r: int)
    requires
        0 <= from <= to <= text.len(),
        is_blank(text.subrange(to, text.len() as int)),
    ensures
        from <= r <= to,
        is_blank(text.subrange(r, text.len() as int)),
        from < r ==> !whitespace(text[r - 1]),
    decreases to - from,
{
    if from < to && whitespace(text[to - 1]) {
        let more = text.subrange(to - 1, text.len() as int);
        assert forall|i: int| 0 <= i < more.len() implies whitespace(#[trigger] more[i]) by {
            if i > 0 {
                assert(more[i] == text.subrange(to, text.len() as int)[i - 1]);
            }
        }
        last_solid(text, from, to - 1)
    } else {
        to
    }
}

/// An account is kept under the lower case of its address, whether or not
/// there is white space around the address, and however much.
pub proof fn addresses_are_kept_in_lower_case(
    before: Seq<char>,
    core: Seq<char>,
    after: Seq<char>,
)
    requires
        is_blank(before),
        is_blank(after),
        core.len() > 0 ==> !whitespace(core[0]) && !whitespace(core.last()),
    ensures
        normalized_email(before + core + after) == lowercase(core),
        normalized_email(core) == lowercase(core),
{
    trimming_takes_the_ends(before, core, after);
    let empty = Seq::<char>::empty();
    trimming_takes_the_ends(empty, core, empty);
    assert(empty + core + empty =~= core);
}

/// Two spellings of an address lead to the same account wherever they have the
/// same lower case once the white space around them is gone.
pub proof fn spellings_share_an_account(one: Seq<char>, other: Seq<char>)
    requires
        lowercase(trimmed(one)) == lowercase(trimmed(other)),
    ensures
        normalized_email(one) == normalized_email(other),
        normalized_email(one) == lowercase(trimmed(one)),
{
}

/// The number that a text of decimal digits stands for.
pub open spec fn decimal_value(text: Seq<char>) -> int
    decreases text.len(),
{
    if text.len() == 0 {
        0
    } else {
        10 * decimal_value(text.drop_last()) + (text.last() as int - '0' as int)
    }
}

/// A number in decimal notation reads as that number again, and is written
/// with digits alone and without zeros in front.
pub proof fn decimals_read_as_their_number(n: nat)
    ensures
        decimal_value(decimal(n)) == n,
        decimal(n).len() > 0,
        forall|i: int| 0 <= i < decimal(n).len() ==> '0' <= #[trigger] decimal(n)[i] <= '9',
        n > 0 ==> decimal(n)[0] != '0',
        n == 0 ==> decimal(n) == seq!['0'],
    decreases n,
{
    if n < 10 {
        assert(decimal(n).drop_last() =~= Seq::empty());
        assert(decimal_value(decimal(n).drop_last()) == 0);
        assert(decimal(n).last() == decimal_digit(n as int));
    } else {
        decimals_read_as_their_number(n / 10);
        let last = decimal_digit((n % 10) as int);
        assert(decimal(n).drop_last() =~= decimal(n / 10));
        assert(decimal(n).last() == last);
        assert forall|i: int| 0 <= i < decimal(n).len() implies '0' <= #[trigger] decimal(n)[i]
            <= '9' by {
            if i < decimal(n / 10).len() {
                assert(decimal(n)[i] == decimal(n / 10)[i]);
            }
        }
        assert(decimal(n)[0] == decimal(n / 10)[0]);
    }
}

} // verus!
