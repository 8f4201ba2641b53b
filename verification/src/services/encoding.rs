//! Base64 text, as the key records and the envelope fields use it.
//!
//! [`base64_text`] states the encoding: the standard alphabet, with padding.
//! The conversions themselves are done by the `base64` crate.

use vstd::prelude::*;
use vstd::utf8::{decode_utf8, valid_utf8};
use base64::Engine;

verus! {

/// The character that stands for a six-bit value in the standard alphabet.
pub open spec fn sextet_char(value: u8) -> char {
    if value < 26 {
        (65 + value) as u8 as char
    } else if value < 52 {
        (71 + value) as u8 as char
    } else if value < 62 {
        (value - 4) as u8 as char
    } else if value == 62 {
        '+'
    } else {
        '/'
    }
}

/// The base64 text of `bytes`: four characters for each group of three
/// bytes, the last group padded with `=` where it is short.
pub open spec fn base64_text(bytes: Seq<u8>) -> Seq<char>
    decreases bytes.len(),
{
    if bytes.len() == 0 {
        Seq::empty()
    } else if bytes.len() == 1 {
        seq![sextet_char(bytes[0] >> 2), sextet_char((bytes[0] & 3) << 4), '=', '=']
    } else if bytes.len() == 2 {
        seq![
            sextet_char(bytes[0] >> 2),
            sextet_char(((bytes[0] & 3) << 4) | (bytes[1] >> 4)),
            sextet_char((bytes[1] & 15) << 2),
            '=',
        ]
    } else {
        seq![
            sextet_char(bytes[0] >> 2),
            sextet_char(((bytes[0] & 3) << 4) | (bytes[1] >> 4)),
            sextet_char(((bytes[1] & 15) << 2) | (bytes[2] >> 6)),
            sextet_char(bytes[2] & 63),
        ] + base64_text(bytes.skip(3))
    }
}

/// The first four characters of the text of at least three bytes.
pub open spec fn group_text(b0: u8, b1: u8, b2: u8) -> Seq<char> {
    seq![
        sextet_char(b0 >> 2),
        sextet_char(((b0 & 3) << 4) | (b1 >> 4)),
        sextet_char(((b1 & 15) << 2) | (b2 >> 6)),
        sextet_char(b2 & 63),
    ]
}

/// Distinct six-bit values have distinct characters, and none of them is
/// the padding character.
proof fn lemma_sextet_char_injective(a: u8, b: u8)
    requires
        a < 64,
        b < 64,
    ensures
        sextet_char(a) != '=',
        sextet_char(a) == sextet_char(b) ==> a == b,
{
    let ca = sextet_char(a);
    let cb = sextet_char(b);
    assert(ca as u32 == if a < 26 {
        65 + a
    } else if a < 52 {
        71 + a
    } else if a < 62 {
        a - 4
    } else if a == 62 {
        43
    } else {
        47
    });
    assert(cb as u32 == if b < 26 {
        65 + b
    } else if b < 52 {
        71 + b
    } else if b < 62 {
        b - 4
    } else if b == 62 {
        43
    } else {
        47
    });
    assert('=' as u32 == 61);
}

/// The six-bit values of a group are below 64 and determine its bytes.
proof fn lemma_group_bits(a0: u8, a1: u8, a2: u8, b0: u8, b1: u8, b2: u8)
    ensures
        a0 >> 2 < 64,
        ((a0 & 3) << 4) | (a1 >> 4) < 64,
        ((a1 & 15) << 2) | (a2 >> 6) < 64,
        a2 & 63 < 64,
        (a0 & 3) << 4 < 64,
        (a1 & 15) << 2 < 64,
        a0 >> 2 == b0 >> 2 && ((a0 & 3) << 4) | (a1 >> 4) == ((b0 & 3) << 4) | (b1 >> 4) ==> a0
            == b0,
        ((a0 & 3) << 4) | (a1 >> 4) == ((b0 & 3) << 4) | (b1 >> 4) && ((a1 & 15) << 2) | (a2 >> 6)
            == ((b1 & 15) << 2) | (b2 >> 6) ==> a1 == b1,
        ((a1 & 15) << 2) | (a2 >> 6) == ((b1 & 15) << 2) | (b2 >> 6) && a2 & 63 == b2 & 63 ==> a2
            == b2,
        a0 >> 2 == b0 >> 2 && (a0 & 3) << 4 == (b0 & 3) << 4 ==> a0 == b0,
        ((a0 & 3) << 4) | (a1 >> 4) == ((b0 & 3) << 4) | (b1 >> 4) && (a1 & 15) << 2 == (b1 & 15)
            << 2 ==> a1 == b1,
{
    assert(a0 >> 2 < 64) by (bit_vector);
    assert(((a0 & 3) << 4) | (a1 >> 4) < 64) by (bit_vector);
    assert(((a1 & 15) << 2) | (a2 >> 6) < 64) by (bit_vector);
    assert(a2 & 63 < 64) by (bit_vector);
    assert((a0 & 3) << 4 < 64) by (bit_vector);
    assert((a1 & 15) << 2 < 64) by (bit_vector);
    assert(a0 >> 2 == b0 >> 2 && ((a0 & 3) << 4) | (a1 >> 4) == ((b0 & 3) << 4) | (b1 >> 4) ==> a0
        == b0) by (bit_vector);
    assert(((a0 & 3) << 4) | (a1 >> 4) == ((b0 & 3) << 4) | (b1 >> 4) && ((a1 & 15) << 2) | (a2
        >> 6) == ((b1 & 15) << 2) | (b2 >> 6) ==> a1 == b1) by (bit_vector);
    assert(((a1 & 15) << 2) | (a2 >> 6) == ((b1 & 15) << 2) | (b2 >> 6) && a2 & 63 == b2 & 63
        ==> a2 == b2) by (bit_vector);
    assert(a0 >> 2 == b0 >> 2 && (a0 & 3) << 4 == (b0 & 3) << 4 ==> a0 == b0) by (bit_vector);
    assert(((a0 & 3) << 4) | (a1 >> 4) == ((b0 & 3) << 4) | (b1 >> 4) && (a1 & 15) << 2 == (b1
        & 15) << 2 ==> a1 == b1) by (bit_vector);
}

/// The shape of a text: its length, and which of its first four characters
/// are padding.
proof fn lemma_text_shape(bytes: Seq<u8>)
    ensures
        bytes.len() == 0 ==> base64_text(bytes).len() == 0,
        bytes.len() > 0 ==> base64_text(bytes).len() >= 4,
        bytes.len() > 0 ==> base64_text(bytes)[0] != '=' && base64_text(bytes)[1] != '=',
        bytes.len() == 1 ==> base64_text(bytes)[2] == '=',
        bytes.len() >= 2 ==> base64_text(bytes)[2] != '=',
        bytes.len() == 1 || bytes.len() == 2 ==> base64_text(bytes)[3] == '=',
        bytes.len() >= 3 ==> base64_text(bytes)[3] != '=',
        bytes.len() >= 3 ==> base64_text(bytes) == group_text(bytes[0], bytes[1], bytes[2])
            + base64_text(bytes.skip(3)),
{
    if bytes.len() == 1 {
        lemma_group_bits(bytes[0], 0, 0, 0, 0, 0);
        lemma_sextet_char_injective(bytes[0] >> 2, 0);
        lemma_sextet_char_injective((bytes[0] & 3) << 4, 0);
    } else if bytes.len() == 2 {
        lemma_group_bits(bytes[0], bytes[1], 0, 0, 0, 0);
        lemma_sextet_char_injective(bytes[0] >> 2, 0);
        lemma_sextet_char_injective(((bytes[0] & 3) << 4) | (bytes[1] >> 4), 0);
        lemma_sextet_char_injective((bytes[1] & 15) << 2, 0);
    } else if bytes.len() >= 3 {
        lemma_group_bits(bytes[0], bytes[1], bytes[2], 0, 0, 0);
        lemma_sextet_char_injective(bytes[0] >> 2, 0);
        lemma_sextet_char_injective(((bytes[0] & 3) << 4) | (bytes[1] >> 4), 0);
        lemma_sextet_char_injective(((bytes[1] & 15) << 2) | (bytes[2] >> 6), 0);
        lemma_sextet_char_injective(bytes[2] & 63, 0);
    }
}

/// Base64 text determines the bytes it was written from.
pub proof fn lemma_base64_text_injective(bytes: Seq<u8>, other: Seq<u8>)
    requires
        base64_text(bytes) == base64_text(other),
    ensures
        bytes == other,
    decreases bytes.len(),
{
    lemma_text_shape(bytes);
    lemma_text_shape(other);
    if bytes.len() == 0 || other.len() == 0 {
        assert(bytes =~= other);
    } else if bytes.len() == 1 {
        lemma_group_bits(bytes[0], 0, 0, other[0], 0, 0);
        lemma_group_bits(other[0], 0, 0, bytes[0], 0, 0);
        lemma_sextet_char_injective(bytes[0] >> 2, other[0] >> 2);
        lemma_sextet_char_injective((bytes[0] & 3) << 4, (other[0] & 3) << 4);
        assert(base64_text(bytes)[0] == base64_text(other)[0]);
        assert(base64_text(bytes)[1] == base64_text(other)[1]);
        assert(bytes =~= other);
    } else if bytes.len() == 2 {
        lemma_group_bits(bytes[0], bytes[1], 0, other[0], other[1], 0);
        lemma_group_bits(other[0], other[1], 0, bytes[0], bytes[1], 0);
        lemma_sextet_char_injective(bytes[0] >> 2, other[0] >> 2);
        lemma_sextet_char_injective(
            ((bytes[0] & 3) << 4) | (bytes[1] >> 4),
            ((other[0] & 3) << 4) | (other[1] >> 4),
        );
        lemma_sextet_char_injective((bytes[1] & 15) << 2, (other[1] & 15) << 2);
        assert(base64_text(bytes)[0] == base64_text(other)[0]);
        assert(base64_text(bytes)[1] == base64_text(other)[1]);
        assert(base64_text(bytes)[2] == base64_text(other)[2]);
        assert(bytes =~= other);
    } else {
        let head = group_text(bytes[0], bytes[1], bytes[2]);
        let other_head = group_text(other[0], other[1], other[2]);
        let text = base64_text(bytes);
        assert(head =~= text.subrange(0, 4));
        assert(other_head =~= text.subrange(0, 4));
        assert(base64_text(bytes.skip(3)) =~= text.subrange(4, text.len() as int));
        assert(base64_text(other.skip(3)) =~= text.subrange(4, text.len() as int));
        lemma_group_bits(bytes[0], bytes[1], bytes[2], other[0], other[1], other[2]);
        lemma_group_bits(other[0], other[1], other[2], bytes[0], bytes[1], bytes[2]);
        lemma_sextet_char_injective(bytes[0] >> 2, other[0] >> 2);
        lemma_sextet_char_injective(
            ((bytes[0] & 3) << 4) | (bytes[1] >> 4),
            ((other[0] & 3) << 4) | (other[1] >> 4),
        );
        lemma_sextet_char_injective(
            ((bytes[1] & 15) << 2) | (bytes[2] >> 6),
            ((other[1] & 15) << 2) | (other[2] >> 6),
        );
        lemma_sextet_char_injective(bytes[2] & 63, other[2] & 63);
        assert(head[0] == other_head[0]);
        assert(head[1] == other_head[1]);
        assert(head[2] == other_head[2]);
        assert(head[3] == other_head[3]);
        lemma_base64_text_injective(bytes.skip(3), other.skip(3));
        assert forall|i: int| 0 <= i < bytes.len() implies bytes[i] == other[i] by {
            if i >= 3 {
                assert(bytes[i] == bytes.skip(3)[i - 3]);
                assert(other[i] == other.skip(3)[i - 3]);
            }
        }
        assert(bytes.len() == other.len()) by {
            assert(bytes.skip(3).len() == other.skip(3).len());
        }
        assert(bytes =~= other);
    }
}

/// A character of base64 text: a letter, a digit, `+`, `/`, or the padding
/// character `=`.
pub open spec fn is_base64_char(c: char) -> bool {
    ('A' <= c <= 'Z') || ('a' <= c <= 'z') || ('0' <= c <= '9') || c == '+' || c == '/' || c
        == '='
}

/// The character of a six-bit value is a base64 character.
proof fn lemma_sextet_char_in_alphabet(value: u8)
    requires
        value < 64,
    ensures
        is_base64_char(sextet_char(value)),
{
    let c = sextet_char(value);
    assert(c as u32 == if value < 26 {
        65 + value
    } else if value < 52 {
        71 + value
    } else if value < 62 {
        value - 4
    } else if value == 62 {
        43
    } else {
        47
    });
}

/// Base64 text holds base64 characters only.
pub proof fn lemma_base64_text_chars(bytes: Seq<u8>)
    ensures
        forall|i: int| 0 <= i < base64_text(bytes).len() ==> is_base64_char(
            #[trigger] base64_text(bytes)[i],
        ),
    decreases bytes.len(),
{
    if bytes.len() == 1 {
        lemma_group_bits(bytes[0], 0, 0, 0, 0, 0);
        lemma_sextet_char_in_alphabet(bytes[0] >> 2);
        lemma_sextet_char_in_alphabet((bytes[0] & 3) << 4);
    } else if bytes.len() == 2 {
        lemma_group_bits(bytes[0], bytes[1], 0, 0, 0, 0);
        lemma_sextet_char_in_alphabet(bytes[0] >> 2);
        lemma_sextet_char_in_alphabet(((bytes[0] & 3) << 4) | (bytes[1] >> 4));
        lemma_sextet_char_in_alphabet((bytes[1] & 15) << 2);
    } else if bytes.len() >= 3 {
        lemma_group_bits(bytes[0], bytes[1], bytes[2], 0, 0, 0);
        lemma_sextet_char_in_alphabet(bytes[0] >> 2);
        lemma_sextet_char_in_alphabet(((bytes[0] & 3) << 4) | (bytes[1] >> 4));
        lemma_sextet_char_in_alphabet(((bytes[1] & 15) << 2) | (bytes[2] >> 6));
        lemma_sextet_char_in_alphabet(bytes[2] & 63);
        lemma_base64_text_chars(bytes.skip(3));
        let text = base64_text(bytes);
        let rest = base64_text(bytes.skip(3));
        assert forall|i: int| 0 <= i < text.len() implies is_base64_char(#[trigger] text[i]) by {
            if i >= 4 {
                assert(text[i] == rest[i - 4]);
            }
        }
    }
}

/// The longest input whose base64 text is no longer than a buffer can be.
pub open spec fn max_encodable_len() -> int {
    (isize::MAX / 4) * 3
}

/// `base64::DecodeError`: why a text was not decoded. It is carried through
/// for its message.
#[verifier::external_type_specification]
#[verifier::external_body]
pub struct ExDecodeError(base64::DecodeError);

/// `Engine::encode` of `base64::engine::general_purpose::STANDARD`: the
/// result is the padded standard-alphabet text of `bytes`. The call panics
/// where the text would be longer than a buffer can be, which `requires`
/// leaves out.
#[verifier::external_body]
pub(crate) fn encode_base64(bytes: &[u8]) -> (text: String)
    requires
        bytes@.len() <= max_encodable_len(),
    ensures
        text@ == base64_text(bytes@),
{
    base64::engine::general_purpose::STANDARD.encode(bytes)
}

/// `Engine::decode` of `base64::engine::general_purpose::STANDARD`, which
/// wants canonical padding and no stray trailing bits: it accepts exactly
/// the texts that `encode` writes, and gives back the bytes that were
/// encoded.
#[verifier::external_body]
pub(crate) fn decode_base64(text: &str) -> (result: Result<Vec<u8>, base64::DecodeError>)
    ensures
        result matches Ok(bytes) ==> base64_text(bytes@) == text@,
        result is Err ==> forall|bytes: Seq<u8>| #[trigger] base64_text(bytes) != text@,
{
    base64::engine::general_purpose::STANDARD.decode(text)
}

/// `std::string::FromUtf8Error`: why bytes were not taken as a string. It is
/// carried through for its message.
#[verifier::external_type_specification]
#[verifier::external_body]
pub struct ExFromUtf8Error(std::string::FromUtf8Error);

/// `String::from_utf8`: succeeds exactly on well-formed UTF-8, and the
/// string then holds the characters that the bytes encode.
#[verifier::external_body]
pub(crate) fn string_from_utf8(bytes: Vec<u8>) -> (result: Result<
    String,
    std::string::FromUtf8Error,
>)
    ensures
        result is Ok <==> valid_utf8(bytes@),
        result matches Ok(text) ==> text@ == decode_utf8(bytes@),
{
    String::from_utf8(bytes)
}

} // verus!
