//! What hexadecimal text is: two digits per byte, high half first.

use vstd::prelude::*;

verus! {

/// The sixteen digits that hex text is written with, in order of value.
pub open spec fn hex_digits() -> Seq<char> {
    seq!['0', '1', '2', '3', '4', '5', '6', '7', '8', '9', 'a', 'b', 'c', 'd', 'e', 'f']
}

/// The value of a hex digit, of either case; `None` for any other character.
pub open spec fn hex_value(c: char) -> Option<int> {
    if '0' <= c <= '9' {
        Some(c as int - '0' as int)
    } else if 'a' <= c <= 'f' {
        Some(c as int - 'a' as int + 10)
    } else if 'A' <= c <= 'F' {
        Some(c as int - 'A' as int + 10)
    } else {
        None
    }
}

/// Hex text of `bytes`: for each byte its high and then its low half, in
/// lowercase digits.
pub open spec fn hex_text(bytes: Seq<u8>) -> Seq<char> {
    Seq::new(
        2 * bytes.len(),
        |i: int|
            if i % 2 == 0 {
                hex_digits()[bytes[i / 2] as int / 16]
            } else {
                hex_digits()[bytes[i / 2] as int % 16]
            },
    )
}

/// Text that stands for bytes: an even number of hex digits.
pub open spec fn is_hex_text(text: Seq<char>) -> bool {
    &&& text.len() % 2 == 0
    &&& forall|i: int| 0 <= i < text.len() ==> hex_value(#[trigger] text[i]) is Some
}

/// The bytes that hex text stands for.
pub open spec fn hex_bytes(text: Seq<char>) -> Seq<u8> {
    Seq::new(
        text.len() / 2,
        |i: int| (16 * hex_value(text[2 * i])->0 + hex_value(text[2 * i + 1])->0) as u8,
    )
}

/// Each of the sixteen digits has its position as value.
pub proof fn lemma_digit_value(n: int)
    requires
        0 <= n < 16,
    ensures
        hex_value(hex_digits()[n]) == Some(n),
{
}

/// Hex text has two characters per byte, each a lowercase digit, and so is
/// text that stands for bytes.
pub proof fn lemma_hex_text_shape(bytes: Seq<u8>)
    ensures
        hex_text(bytes).len() == 2 * bytes.len(),
        forall|i: int|
            0 <= i < hex_text(bytes).len() ==> hex_digits().contains(#[trigger] hex_text(bytes)[i]),
        is_hex_text(hex_text(bytes)),
{
    let text = hex_text(bytes);
    assert forall|i: int| 0 <= i < text.len() implies hex_digits().contains(#[trigger] text[i])
        && hex_value(text[i]) is Some by {
        let byte = bytes[i / 2] as int;
        let n = if i % 2 == 0 {
            byte / 16
        } else {
            byte % 16
        };
        assert(text[i] == hex_digits()[n]);
        lemma_digit_value(n);
    }
}

/// Round trip: the bytes that the hex text of `bytes` stands for are `bytes`.
pub proof fn lemma_hex_round_trip(bytes: Seq<u8>)
    ensures
        is_hex_text(hex_text(bytes)),
        hex_bytes(hex_text(bytes)) == bytes,
{
    lemma_hex_text_shape(bytes);
    let text = hex_text(bytes);
    let back = hex_bytes(text);
    assert(back.len() == bytes.len());
    assert forall|i: int| 0 <= i < bytes.len() implies back[i] == bytes[i] by {
        let byte = bytes[i] as int;
        assert(text[2 * i] == hex_digits()[byte / 16]);
        assert(text[2 * i + 1] == hex_digits()[byte % 16]);
        lemma_digit_value(byte / 16);
        lemma_digit_value(byte % 16);
    }
    assert(back =~= bytes);
}

} // verus!
