//! Hexadecimal text.
use vstd::prelude::*;

verus! {

/// The decode error of the hex codec (`hex::FromHexError`), carried through
/// unopened.
#[verifier::external_type_specification]
#[verifier::external_body]
pub struct ExFromHexError(hex::FromHexError);

/// The lower-case hexadecimal digit of a number below sixteen.
pub open spec fn hex_digit(n: nat) -> char {
    if n < 10 {
        (48 + n) as char
    } else {
        (87 + n) as char
    }
}

/// The value of a hexadecimal digit, of either case.
pub open spec fn hex_value(c: char) -> Option<nat> {
    if '0' <= c <= '9' {
        Some((c as int - 48) as nat)
    } else if 'a' <= c <= 'f' {
        Some((c as int - 87) as nat)
    } else if 'A' <= c <= 'F' {
        Some((c as int - 55) as nat)
    } else {
        None
    }
}

/// Bytes in lower-case hexadecimal: two digits each, the high one first.
pub open spec fn hex_text(bytes: Seq<u8>) -> Seq<char>
    decreases bytes.len(),
{
    if bytes.len() == 0 {
        Seq::empty()
    } else {
        hex_text(bytes.drop_last()).push(hex_digit((bytes.last() / 16) as nat)).push(
            hex_digit((bytes.last() % 16) as nat),
        )
    }
}

/// The bytes that a hexadecimal text stands for, or `None` where it holds another
/// character or an odd number of digits.
pub open spec fn hex_bytes(text: Seq<char>) -> Option<Seq<u8>>
    decreases text.len(),
{
    if text.len() == 0 {
        Some(Seq::empty())
    } else if text.len() == 1 {
        None
    } else {
        let n = text.len();
        match (hex_bytes(text.take(n - 2)), hex_value(text[n - 2]), hex_value(text[n - 1])) {
            (Some(before), Some(high), Some(low)) => Some(before.push((high * 16 + low) as u8)),
            _ => None,
        }
    }
}

/// Encodes bytes in lower-case hexadecimal (`hex::encode`): two digits for each
/// byte, the high one first.
#[verifier::external_body]
pub(crate) fn encode(data: &[u8]) -> (s: String)
    ensures
        s@ == hex_text(data@),
{
    hex::encode(data)
}

/// Decodes hexadecimal text (`hex::decode`): digits of either case, an even number
/// of them, and nothing else.
#[verifier::external_body]
pub(crate) fn decode(text: &str) -> (r: Result<Vec<u8>, hex::FromHexError>)
    ensures
        match r {
            Ok(bytes) => hex_bytes(text@) == Some(bytes@),
            Err(_) => hex_bytes(text@) is None,
        },
{
    hex::decode(text)
}

/// Encoded bytes decode back, and take two characters each.
pub proof fn hex_reads_back(bytes: Seq<u8>)
    ensures
        hex_bytes(hex_text(bytes)) == Some(bytes),
        hex_text(bytes).len() == 2 * bytes.len(),
    decreases bytes.len(),
{
    if bytes.len() > 0 {
        let head = bytes.drop_last();
        let b = bytes.last();
        hex_reads_back(head);
        let t = hex_text(bytes);
        assert(t.take(t.len() - 2) =~= hex_text(head));
        assert(hex_value(hex_digit((b / 16) as nat)) == Some((b / 16) as nat));
        assert(hex_value(hex_digit((b % 16) as nat)) == Some((b % 16) as nat));
        assert(head.push(b) =~= bytes);
    }
}

/// Two different byte strings have different texts.
pub proof fn hex_text_is_injective(a: Seq<u8>, b: Seq<u8>)
    ensures
        hex_text(a) == hex_text(b) <==> a == b,
{
    hex_reads_back(a);
    hex_reads_back(b);
}

/// Every character of an encoding is a hexadecimal digit.
pub proof fn hex_text_characters(bytes: Seq<u8>, i: int)
    requires
        0 <= i < hex_text(bytes).len(),
    ensures
        hex_value(hex_text(bytes)[i]) is Some,
    decreases bytes.len(),
{
    if bytes.len() > 0 {
        let head = bytes.drop_last();
        if i < hex_text(head).len() {
            hex_text_characters(head, i);
            assert(hex_text(bytes)[i] == hex_text(head)[i]);
        }
    }
}

} // verus!
