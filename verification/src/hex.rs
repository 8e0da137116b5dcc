//! Hexadecimal notation of bytes.
use vstd::prelude::*;

verus! {

/// The hexadecimal digit of a number below sixteen.
pub open spec fn hex_digit(n: int, upper: bool) -> char {
    if n < 10 {
        ('0' as u32 + n) as char
    } else if upper {
        ('A' as u32 + (n - 10)) as char
    } else {
        ('a' as u32 + (n - 10)) as char
    }
}

/// Two hexadecimal digits for each byte, the high one first.
pub open spec fn hex_text(bytes: Seq<u8>, upper: bool) -> Seq<char> {
    Seq::new(
        2 * bytes.len(),
        |i: int|
            if i % 2 == 0 {
                hex_digit(bytes[i / 2] as int / 16, upper)
            } else {
                hex_digit(bytes[i / 2] as int % 16, upper)
            },
    )
}

/// Holds of the sixteen digits that lower-case hexadecimal notation uses.
pub open spec fn is_lower_hex(c: char) -> bool {
    '0' <= c <= '9' || 'a' <= c <= 'f'
}

fn digit(n: u8, upper: bool) -> (r: char)
    requires
        n < 16,
    ensures
        r == hex_digit(n as int, upper),
{
    if n < 10 {
        let code: u8 = 48 + n;
        code as char
    } else if upper {
        let code: u8 = 55 + n;
        code as char
    } else {
        let code: u8 = 87 + n;
        code as char
    }
}

/// Writes bytes in hexadecimal notation.
pub fn encode_hex(bytes: &[u8], upper: bool) -> (r: String)
    ensures
        r@ == hex_text(bytes@, upper),
{
    let mut text = String::new();
    let mut i: usize = 0;
    while i < bytes.len()
        invariant
            i <= bytes@.len(),
            text@ == hex_text(bytes@.take(i as int), upper),
        decreases bytes@.len() - i,
    {
        let byte: u8 = bytes[i];
        text.push(digit(byte / 16, upper));
        text.push(digit(byte % 16, upper));
        proof {
            let before = bytes@.take(i as int);
            let after = bytes@.take(i + 1);
            assert(hex_text(after, upper) =~= hex_text(before, upper).push(
                hex_digit(byte as int / 16, upper),
            ).push(hex_digit(byte as int % 16, upper)));
        }
        i = i + 1;
    }
    assert(bytes@.take(bytes@.len() as int) == bytes@);
    text
}

/// Lower-case hexadecimal notation holds hexadecimal digits only.
pub proof fn hex_text_is_lower_hex(bytes: Seq<u8>)
    ensures
        forall|i: int|
            0 <= i < hex_text(bytes, false).len() ==> is_lower_hex(
                #[trigger] hex_text(bytes, false)[i],
            ),
{
}

/// The value of a hexadecimal digit, in either case.
pub open spec fn hex_value(c: char) -> int {
    if '0' <= c <= '9' {
        c as int - '0' as int
    } else if 'a' <= c <= 'f' {
        c as int - 'a' as int + 10
    } else {
        c as int - 'A' as int + 10
    }
}

/// From hexadecimal notation every byte can be read again. Its letters are of
/// the case that was asked for.
pub proof fn hex_reads_as_its_bytes(bytes: Seq<u8>, upper: bool)
    ensures
        hex_text(bytes, upper).len() == 2 * bytes.len(),
        forall|i: int|
            0 <= i < bytes.len() ==> 16 * hex_value(hex_text(bytes, upper)[2 * i]) + hex_value(
                hex_text(bytes, upper)[2 * i + 1],
            ) == #[trigger] bytes[i],
        forall|i: int|
            0 <= i < 2 * bytes.len() ==> {
                ||| '0' <= #[trigger] hex_text(bytes, upper)[i] <= '9'
                ||| upper && 'A' <= hex_text(bytes, upper)[i] <= 'F'
                ||| !upper && 'a' <= hex_text(bytes, upper)[i] <= 'f'
            },
{
    assert forall|i: int| 0 <= i < bytes.len() implies 16 * hex_value(
        hex_text(bytes, upper)[2 * i],
    ) + hex_value(hex_text(bytes, upper)[2 * i + 1]) == #[trigger] bytes[i] by {
        let byte = bytes[i] as int;
        assert((2 * i) / 2 == i && (2 * i) % 2 == 0);
        assert((2 * i + 1) / 2 == i && (2 * i + 1) % 2 == 1);
        assert(hex_value(hex_digit(byte / 16, upper)) == byte / 16);
        assert(hex_value(hex_digit(byte % 16, upper)) == byte % 16);
    }
}

} // verus!
