//! What holds of the addresses, passwords and codes that people choose or are
//! given.
use vstd::prelude::*;

use crate::hex::{hex_text, hex_text_is_lower_hex, is_lower_hex};
use crate::random::{is_opaque_token, is_random_token, token_hash};
use crate::register::{
    are_recovery_codes, email_fault, grouped, is_recovery_code, is_valid_email, parted_at,
    password_fault, RequestFault, RECOVERY_CODE_BYTE_LEN, RECOVERY_CODE_GROUP_LEN,
};
use crate::text::{
    every_text_has_a_core, is_blank, trimmed, trimming_takes_the_ends, whitespace,
};

verus! {

/// An address without an `@` is told so, and no other is.
pub proof fn addresses_need_an_at(email: Seq<char>)
    ensures
        email_fault(email) == Some(RequestFault::EmailWithoutAt) <==> forall|i: int|
            0 <= i < email.len() ==> #[trigger] email[i] != '@',
{
    if email.contains('@') {
        let i = choose|i: int| 0 <= i < email.len() && email[i] == '@';
        assert(email[i] == '@');
    }
}

/// An address has no fault exactly where something stands before its first
/// `@`, whatever that is, and a dot somewhere behind it.
pub proof fn addresses_need_a_name_and_a_dot(local: Seq<char>, domain: Seq<char>)
    requires
        !local.contains('@'),
    ensures
        email_fault(local + seq!['@'] + domain) is None <==> local.len() > 0 && domain.contains(
            '.',
        ),
        email_fault(local + seq!['@'] + domain) == Some(RequestFault::EmailInvalid) <==> local.len()
            == 0 || !domain.contains('.'),
{
    let email = local + seq!['@'] + domain;
    let at = local.len() as int;
    assert(email[at] == '@');
    assert(email.contains('@'));
    assert forall|i: int| 0 <= i < at implies #[trigger] email[i] != '@' by {
        assert(local.contains(local[i]));
    }
    assert(parted_at(email, at));
    assert(email.skip(at + 1) =~= domain);
    assert forall|other: int| #[trigger] parted_at(email, other) implies other == at by {
        if at < other {
            assert(email[at] != '@');
        }
    }
    if local.len() > 0 && domain.contains('.') {
        assert(is_valid_email(email));
    }
}

/// Nothing but white space is left by trimming exactly where there was nothing
/// else.
proof fn blank_texts_trim_to_nothing(text: Seq<char>)
    ensures
        trimmed(text).len() == 0 <==> is_blank(text),
{
    let empty = Seq::<char>::empty();
    if is_blank(text) {
        trimming_takes_the_ends(text, empty, empty);
        assert(text + empty + empty =~= text);
    }
    every_text_has_a_core(text);
    let (from, to) = choose|from: int, to: int|
        {
            &&& 0 <= from <= to <= text.len()
            &&& trimmed(text) == #[trigger] text.subrange(from, to)
            &&& is_blank(text.subrange(0, from))
            &&& is_blank(text.subrange(to, text.len() as int))
            &&& from < to ==> !whitespace(text[from]) && !whitespace(text[to - 1])
        };
    if trimmed(text).len() == 0 {
        assert forall|i: int| 0 <= i < text.len() implies whitespace(#[trigger] text[i]) by {
            if i < from {
                assert(text[i] == text.subrange(0, from)[i]);
            } else {
                assert(text[i] == text.subrange(to, text.len() as int)[i - to]);
            }
        }
    }
}

/// A password will do exactly where it is twelve to two hundred and fifty-six
/// characters long, white space included, and not white space alone. Which
/// characters it is made of is not looked at.
pub proof fn passwords_are_held_to_their_length(password: Seq<char>)
    ensures
        password_fault(password) is None <==> 12 <= password.len() <= 256 && !is_blank(password),
        password_fault(password) == Some(RequestFault::PasswordEmpty) <==> is_blank(password),
        password_fault(password) == Some(RequestFault::PasswordTooShort) <==> !is_blank(password)
            && password.len() < 12,
        password_fault(password) == Some(RequestFault::PasswordTooLong) <==> !is_blank(password)
            && password.len() > 256,
{
    blank_texts_trim_to_nothing(password);
}

/// Grouping leaves every character where it was, but for one hyphen behind
/// each full group that something follows.
proof fn groups_of_five(text: Seq<char>)
    ensures
        text.len() > 0 ==> grouped(text, 5).len() == text.len() + (text.len() - 1) / 5,
        text.len() == 0 ==> grouped(text, 5).len() == 0,
        forall|p: int|
            0 <= p < text.len() ==> grouped(text, 5)[p + p / 5] == #[trigger] text[p],
        forall|g: int|
            #![trigger grouped(text, 5)[6 * g + 5]]
            0 <= g && 5 * g + 5 < text.len() ==> grouped(text, 5)[6 * g + 5] == '-',
    decreases text.len(),
{
    let all = grouped(text, 5);
    if text.len() > 5 {
        let rest = text.skip(5);
        groups_of_five(rest);
        let tail = grouped(rest, 5);
        let head = text.take(5) + seq!['-'];
        assert(all =~= head + tail);
        assert forall|p: int| 0 <= p < text.len() implies all[p + p / 5] == #[trigger] text[p] by {
            if p >= 5 {
                let q = p - 5;
                assert(rest[q] == text[p]);
                assert(q + q / 5 + 6 == p + p / 5);
                assert(0 <= q + q / 5 < tail.len());
                assert(all[p + p / 5] == tail[q + q / 5]);
            }
        }
        assert forall|g: int| 0 <= g && 5 * g + 5 < text.len() implies #[trigger] all[6 * g + 5]
            == '-' by {
            if g > 0 {
                let h = g - 1;
                assert(tail[6 * h + 5] == '-');
                assert(6 * h + 5 < tail.len());
                assert(all[6 * g + 5] == tail[6 * h + 5]);
            }
        }
    }
}

/// A code is shown with a hyphen behind every fifth digit that another one
/// follows, and is otherwise unchanged.
pub proof fn codes_are_shown_in_fives(raw: Seq<char>)
    ensures
        ({
            let shown = grouped(raw, RECOVERY_CODE_GROUP_LEN as nat);
            &&& raw.len() > 0 ==> shown.len() == raw.len() + (raw.len() - 1) / 5
            &&& raw.len() == 0 ==> shown.len() == 0
            &&& forall|p: int| 0 <= p < raw.len() ==> shown[p + p / 5] == #[trigger] raw[p]
            &&& forall|g: int|
                #![trigger shown[6 * g + 5]]
                0 <= g && 5 * g + 5 < raw.len() ==> shown[6 * g + 5] == '-'
        }),
{
    groups_of_five(raw);
}

/// Holds of five hexadecimal digits, a hyphen, and five more.
pub open spec fn is_two_fives(code: Seq<char>) -> bool {
    &&& code.len() == 11
    &&& code[5] == '-'
    &&& forall|i: int|
        0 <= i < 11 && i != 5 ==> '0' <= #[trigger] code[i] <= '9' || 'a' <= code[i] <= 'f'
}

/// A recovery code has ten digits, with a hyphen in their middle.
proof fn recovery_codes_are_two_fives(code: Seq<char>)
    requires
        is_recovery_code(code),
    ensures
        is_two_fives(code),
{
    let raw = choose|raw: Seq<char>|
        is_random_token(raw, RECOVERY_CODE_BYTE_LEN) && is_opaque_token(
            raw,
            RECOVERY_CODE_BYTE_LEN as nat,
        ) && code == #[trigger] grouped(raw, RECOVERY_CODE_GROUP_LEN as nat);
    let bytes = choose|bytes: Seq<u8>|
        bytes.len() == RECOVERY_CODE_BYTE_LEN && raw == #[trigger] hex_text(
            bytes,
            false,
        );
    hex_text_is_lower_hex(bytes);
    codes_are_shown_in_fives(raw);
    assert(raw.len() == 10);
    let first: int = 0;
    assert(code[6 * first + 5] == '-');
    assert forall|i: int| 0 <= i < 11 && i != 5 implies '0' <= #[trigger] code[i] <= '9' || 'a'
        <= code[i] <= 'f' by {
        let p = if i < 5 {
            i
        } else {
            i - 1
        };
        assert(is_lower_hex(hex_text(bytes, false)[p]));
        assert(raw[p] == code[p + p / 5]);
    }
}

/// An account gets ten recovery codes of ten digits each, and as many hashes,
/// in the same order.
pub proof fn accounts_get_ten_codes(codes: Seq<String>, hashes: Seq<String>)
    requires
        are_recovery_codes(codes, hashes),
    ensures
        codes.len() == 10,
        hashes.len() == 10,
        forall|i: int| 0 <= i < 10 ==> is_two_fives((#[trigger] codes[i])@),
        forall|i: int|
            0 <= i < 10 ==> (#[trigger] hashes[i])@ == token_hash(codes[i]@),
{
    assert forall|i: int| 0 <= i < 10 implies is_two_fives((#[trigger] codes[i])@) by {
        recovery_codes_are_two_fives(codes[i]@);
    }
    assert forall|i: int| 0 <= i < 10 implies (#[trigger] hashes[i])@ == token_hash(
        codes[i]@,
    ) by {
        assert(is_recovery_code(codes[i]@));
    }
}

} // verus!
