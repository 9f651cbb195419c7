//! Byte-level encodings used when values are persisted: lowercase
//! hexadecimal text (through the `hex` crate) and the MessagePack form of a
//! timestamp (through `rmp_serde`).

use vstd::prelude::*;

verus! {

/// The ASCII code of the lowercase hexadecimal digit for `v` (`v < 16`).
pub open spec fn hex_digit_code(v: u8) -> u8 {
    if v < 10 {
        (48 + v) as u8
    } else {
        (87 + v) as u8
    }
}

/// The value of the hexadecimal digit whose ASCII code is `c`, in either case.
pub open spec fn hex_digit_value(c: u8) -> Option<u8> {
    if 48 <= c && c <= 57 {
        Some((c - 48) as u8)
    } else if 65 <= c && c <= 70 {
        Some((c - 55) as u8)
    } else if 97 <= c && c <= 102 {
        Some((c - 87) as u8)
    } else {
        None
    }
}

/// The ASCII codes of the lowercase hexadecimal text of `data`: two digits per
/// byte, the high nibble first.
pub open spec fn hex_encode_bytes(data: Seq<u8>) -> Seq<u8> {
    Seq::new(
        2 * data.len(),
        |i: int|
            if i % 2 == 0 {
                hex_digit_code(data[i / 2] / 16)
            } else {
                hex_digit_code(data[i / 2] % 16)
            },
    )
}

/// The lowercase hexadecimal text of `data`, as characters.
pub open spec fn hex_encode_text(data: Seq<u8>) -> Seq<char> {
    hex_encode_bytes(data).map_values(|b: u8| b as char)
}

/// `text` is an even number of hexadecimal digits (of either case).
pub open spec fn is_hex_text(text: Seq<u8>) -> bool {
    &&& text.len() % 2 == 0
    &&& forall|i: int| 0 <= i < text.len() ==> (#[trigger] hex_digit_value(text[i])) is Some
}

/// The bytes that the hexadecimal text `text` denotes: one byte per pair of
/// digits, the first digit of a pair being the high nibble.
pub open spec fn hex_decode_bytes(text: Seq<u8>) -> Seq<u8> {
    Seq::new(
        text.len() / 2,
        |i: int|
            (hex_digit_value(text[2 * i])->0 * 16 + hex_digit_value(text[2 * i + 1])->0) as u8,
    )
}

/// The bytes of an ASCII text.
pub open spec fn ascii_bytes(text: Seq<char>) -> Seq<u8> {
    text.map_values(|c: char| c as u8)
}

/// `hex::encode`: the lowercase hexadecimal text of `data`, two digits per
/// byte, the high nibble first (as `hex`'s `BytesToHexChars` writes it).
#[verifier::external_body]
pub(crate) fn hex_encode(data: &[u8]) -> (text: String)
    ensures
        text@ == hex_encode_text(data@),
{
    hex::encode(data)
}

/// `hex::decode`: `Some` of the denoted bytes exactly when `text` has an even
/// length and holds only hexadecimal digits of either case (`hex`'s `val`);
/// the `FromHexError` of the other inputs becomes `None`.
#[verifier::external_body]
pub(crate) fn hex_decode(text: &[u8]) -> (bytes: Option<Vec<u8>>)
    ensures
        bytes is Some <==> is_hex_text(text@),
        bytes matches Some(b) ==> b@ == hex_decode_bytes(text@),
{
    hex::decode(text).ok()
}

/// The MessagePack encoding of an unsigned integer in its shortest form: a
/// positive fixint below 128, else the 0xcc, 0xcd or 0xce marker followed by
/// one, two or four big-endian bytes.
pub open spec fn msgpack_uint(v: u32) -> Seq<u8> {
    if v < 128 {
        seq![v as u8]
    } else if v < 256 {
        seq![0xccu8, v as u8]
    } else if v < 65536 {
        seq![0xcdu8, (v / 256) as u8, (v % 256) as u8]
    } else {
        seq![
            0xceu8,
            (v / 16777216) as u8,
            ((v / 65536) % 256) as u8,
            ((v / 256) % 256) as u8,
            (v % 256) as u8,
        ]
    }
}

/// `rmp_serde::to_vec` on a `u32`: `serialize_u32` goes to `rmp`'s
/// `write_uint`, which picks the shortest form. Writing into a vector fails
/// only when the vector cannot grow, and this function panics then.
#[verifier::external_body]
pub(crate) fn msgpack_u32(value: u32) -> (bytes: Vec<u8>)
    ensures
        bytes@ == msgpack_uint(value),
{
    rmp_serde::to_vec(&value).expect("the encoding of an integer could not be stored")
}

/// Hexadecimal text is ASCII, and its bytes are its digit codes.
pub proof fn lemma_hex_text_ascii(data: Seq<u8>)
    ensures
        vstd::utf8::is_ascii_chars(hex_encode_text(data)),
        ascii_bytes(hex_encode_text(data)) == hex_encode_bytes(data),
{
    let codes = hex_encode_bytes(data);
    assert forall|i: int| 0 <= i < codes.len() implies #[trigger] codes[i] < 128 by {
        assert(data[i / 2] / 16 < 16);
        assert(data[i / 2] % 16 < 16);
    }
    assert forall|i: int| 0 <= i < codes.len() implies ((#[trigger] codes[i]) as char) as u8
        == codes[i] by {
        assert(codes[i] < 128);
    }
    assert(ascii_bytes(hex_encode_text(data)) =~= codes);
}

/// Decoding the hexadecimal text of `data` gives back `data`.
pub proof fn lemma_hex_round_trip(data: Seq<u8>)
    ensures
        is_hex_text(hex_encode_bytes(data)),
        hex_decode_bytes(hex_encode_bytes(data)) == data,
{
    let codes = hex_encode_bytes(data);
    assert forall|i: int| 0 <= i < codes.len() implies (#[trigger] hex_digit_value(codes[i])) is Some
        by {
        assert(data[i / 2] / 16 < 16);
        assert(data[i / 2] % 16 < 16);
    }
    assert forall|i: int| 0 <= i < data.len() implies #[trigger] hex_decode_bytes(codes)[i]
        == data[i] by {
        let b = data[i];
        assert(codes[2 * i] == hex_digit_code(b / 16));
        assert(codes[2 * i + 1] == hex_digit_code(b % 16));
        assert(hex_digit_value(hex_digit_code(b / 16)) == Some((b / 16) as u8));
        assert(hex_digit_value(hex_digit_code(b % 16)) == Some((b % 16) as u8));
        assert((b / 16) * 16 + b % 16 == b);
    }
    assert(hex_decode_bytes(codes) =~= data);
}

} // verus!
