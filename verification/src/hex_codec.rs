use vstd::prelude::*;

verus! {

/// An ASCII hex digit: `0-9`, `A-F` or `a-f`.
pub open spec fn is_hex_digit(b: u8) -> bool {
    ||| 48 <= b <= 57
    ||| 65 <= b <= 70
    ||| 97 <= b <= 102
}

/// The value of a hex digit.
pub open spec fn hex_digit_value(b: u8) -> int {
    if 48 <= b <= 57 {
        b - 48
    } else if 65 <= b <= 70 {
        b - 55
    } else {
        b - 87
    }
}

/// Text that decodes: an even number of bytes, all of them hex digits.
pub open spec fn hex_decodable(text: Seq<u8>) -> bool {
    &&& text.len() % 2 == 0
    &&& forall|i: int| 0 <= i < text.len() ==> is_hex_digit(#[trigger] text[i])
}

/// The bytes that hex text stands for: byte `i` is written by the digits at
/// `2 * i` (high half) and `2 * i + 1` (low half).
pub open spec fn spec_hex_decode(text: Seq<u8>) -> Seq<u8> {
    Seq::new(
        text.len() / 2,
        |i: int| (16 * hex_digit_value(text[2 * i]) + hex_digit_value(text[2 * i + 1])) as u8,
    )
}

/// `index` is the first position of `text` that holds no hex digit.
pub open spec fn first_non_hex_digit(text: Seq<u8>, index: int) -> bool {
    &&& 0 <= index < text.len()
    &&& !is_hex_digit(text[index])
    &&& forall|j: int| 0 <= j < index ==> is_hex_digit(#[trigger] text[j])
}

/// The high half of a byte.
pub open spec fn high_nibble(b: u8) -> int {
    (b / 16) as int
}

/// The low half of a byte.
pub open spec fn low_nibble(b: u8) -> int {
    (b % 16) as int
}

/// The ASCII code of the lower-case hex digit for a value below 16.
pub open spec fn lower_hex_code(v: int) -> int {
    if v < 10 {
        48 + v
    } else {
        87 + v
    }
}

/// The value written at position `i` of the hex text of `bytes`.
pub open spec fn nibble_at(bytes: Seq<u8>, i: int) -> int {
    if i % 2 == 0 {
        high_nibble(bytes[i / 2])
    } else {
        low_nibble(bytes[i / 2])
    }
}

/// Lower-case hex text for `bytes`: two digits per byte, high half first.
pub open spec fn spec_hex_encode(bytes: Seq<u8>) -> Seq<char> {
    Seq::new(
        2 * bytes.len(),
        |i: int| lower_hex_code(nibble_at(bytes, i)) as char,
    )
}

/// Why hex text did not decode.
#[derive(Debug, Clone, Copy, PartialEq)]
pub enum HexError {
    /// The byte at `index` is no hex digit; `c` is that byte as a character.
    InvalidHexCharacter { c: char, index: usize },
    /// The text has an odd number of bytes.
    OddLength,
    /// A fixed-size target did not match the text's length.
    InvalidStringLength,
}

/// `hex::decode` on a byte slice. The crate's `FromHex for Vec<u8>` returns
/// `OddLength` for text of odd length; otherwise it decodes pair by pair and
/// reports the first byte that is no hex digit, with its index; otherwise each
/// pair `(h, l)` gives the byte `16 * h + l`, upper- and lower-case digits alike.
/// The error is handed back as this library's `HexError`, variant for variant.
#[verifier::external_body]
pub(crate) fn hex_decode(text: &[u8]) -> (r: Result<Vec<u8>, HexError>)
    ensures
        r is Ok <==> hex_decodable(text@),
        r matches Ok(bytes) ==> bytes@ == spec_hex_decode(text@),
        r matches Err(HexError::OddLength) <==> text@.len() % 2 == 1,
        r matches Err(HexError::InvalidHexCharacter { c, index }) ==> {
            &&& text@.len() % 2 == 0
            &&& first_non_hex_digit(text@, index as int)
            &&& c as u32 == text@[index as int] as u32
        },
        !(r matches Err(HexError::InvalidStringLength)),
{
    match hex::decode(text) {
        Ok(bytes) => Ok(bytes),
        Err(hex::FromHexError::InvalidHexCharacter { c, index }) => Err(
            HexError::InvalidHexCharacter { c, index },
        ),
        Err(hex::FromHexError::OddLength) => Err(HexError::OddLength),
        Err(hex::FromHexError::InvalidStringLength) => Err(HexError::InvalidStringLength),
    }
}

/// `hex::encode`: the crate writes each byte as two lower-case digits from
/// `0123456789abcdef`, the high half (`byte >> 4`) first, the low half
/// (`byte & 0x0F`) second.
#[verifier::external_body]
pub(crate) fn hex_encode(bytes: &[u8]) -> (r: String)
    ensures
        r@ == spec_hex_encode(bytes@),
{
    hex::encode(bytes)
}

/// Hex text is ASCII, so its UTF-8 bytes are its characters one for one.
pub proof fn lemma_hex_encode_bytes(bytes: Seq<u8>)
    ensures
        vstd::utf8::encode_utf8(spec_hex_encode(bytes)).len() == 2 * bytes.len(),
        forall|i: int|
            0 <= i < 2 * bytes.len() ==> #[trigger] vstd::utf8::encode_utf8(spec_hex_encode(bytes))[i]
                == lower_hex_code(nibble_at(bytes, i)),
{
    let chars = spec_hex_encode(bytes);
    assert forall|i: int| 0 <= i < chars.len() implies '\0' <= #[trigger] chars[i] <= '\u{7f}' by {
        assert(0 <= nibble_at(bytes, i) < 16);
    }
    vstd::utf8::is_ascii_chars_encode_utf8(chars);
    assert forall|i: int| 0 <= i < 2 * bytes.len() implies #[trigger] vstd::utf8::encode_utf8(chars)[i]
        == lower_hex_code(nibble_at(bytes, i)) by {
        assert(0 <= nibble_at(bytes, i) < 16);
        assert(chars[i] as u8 == vstd::utf8::encode_utf8(chars)[i]);
    }
}

/// Decoding the UTF-8 bytes of the hex text of `bytes` gives `bytes` back.
pub proof fn lemma_hex_roundtrip(bytes: Seq<u8>)
    ensures
        hex_decodable(vstd::utf8::encode_utf8(spec_hex_encode(bytes))),
        spec_hex_decode(vstd::utf8::encode_utf8(spec_hex_encode(bytes))) == bytes,
{
    lemma_hex_encode_bytes(bytes);
    let text = vstd::utf8::encode_utf8(spec_hex_encode(bytes));
    assert forall|i: int| 0 <= i < text.len() implies is_hex_digit(#[trigger] text[i]) by {
        assert(text[i] == lower_hex_code(nibble_at(bytes, i)));
        assert(0 <= nibble_at(bytes, i) < 16);
    }
    let decoded = spec_hex_decode(text);
    assert forall|i: int| 0 <= i < bytes.len() implies #[trigger] decoded[i] == bytes[i] by {
        assert((2 * i) % 2 == 0 && (2 * i) / 2 == i);
        assert((2 * i + 1) % 2 == 1 && (2 * i + 1) / 2 == i);
        assert(text[2 * i] == lower_hex_code(high_nibble(bytes[i])));
        assert(text[2 * i + 1] == lower_hex_code(low_nibble(bytes[i])));
        assert(hex_digit_value(text[2 * i]) == high_nibble(bytes[i]));
        assert(hex_digit_value(text[2 * i + 1]) == low_nibble(bytes[i]));
    }
    assert(decoded =~= bytes);
}

} // verus!
