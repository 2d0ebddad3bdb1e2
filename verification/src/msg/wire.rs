//! The binary encoding of payload fields: integers of fixed width with the
//! least significant byte first, a flag as one byte that is 0 or 1, a text as
//! its length in eight bytes and its UTF-8 bytes. Surplus bytes after a
//! payload are ignored.

use vstd::prelude::*;
use vstd::utf8::{decode_utf8, encode_utf8, valid_utf8};

verus! {

#[verifier::external_type_specification]
#[verifier::external_body]
pub struct ExErrorKind(bincode::ErrorKind);

/// The `count` least significant bytes of `value`, the least significant first.
pub open spec fn le_bytes(value: nat, count: nat) -> Seq<u8>
    decreases count,
{
    if count == 0 {
        Seq::empty()
    } else {
        seq![(value % 256) as u8] + le_bytes(value / 256, (count - 1) as nat)
    }
}

/// The number that `bytes` hold, the least significant byte first.
pub open spec fn le_value(bytes: Seq<u8>) -> nat
    decreases bytes.len(),
{
    if bytes.len() == 0 {
        0
    } else {
        bytes[0] as nat + 256 * le_value(bytes.drop_first())
    }
}

/// The two bytes of an unsigned word.
pub open spec fn word_bytes(value: u16) -> Seq<u8> {
    seq![(value % 256) as u8, (value / 256) as u8]
}

/// The unsigned word that two bytes hold.
pub open spec fn word_value(low: u8, high: u8) -> u16 {
    (low as int + 256 * high as int) as u16
}

/// The two bytes of a signed word, in two's complement.
pub open spec fn signed_word_bytes(value: i16) -> Seq<u8> {
    if value < 0 {
        word_bytes((value + 65536) as u16)
    } else {
        word_bytes(value as u16)
    }
}

/// The signed word that two bytes hold, in two's complement.
pub open spec fn signed_word_value(low: u8, high: u8) -> i16 {
    if high >= 128 {
        (low as int + 256 * high as int - 65536) as i16
    } else {
        (low as int + 256 * high as int) as i16
    }
}

/// The byte of a flag.
pub open spec fn flag_byte(flag: bool) -> u8 {
    if flag {
        1
    } else {
        0
    }
}

/// The bytes of a text: the length of its UTF-8 form in eight bytes, then
/// that form.
pub open spec fn text_bytes(text: Seq<char>) -> Seq<u8> {
    le_bytes(encode_utf8(text).len(), 8) + encode_utf8(text)
}

/// The length that the first eight bytes of a text payload announce.
pub open spec fn announced_length(buffer: Seq<u8>) -> nat {
    le_value(buffer.subrange(0, 8))
}

/// `buffer` starts with a text: eight bytes of length, then as many bytes of
/// valid UTF-8 as they announce.
pub open spec fn holds_text(buffer: Seq<u8>) -> bool {
    &&& buffer.len() >= 8
    &&& announced_length(buffer) <= usize::MAX
    &&& 8 + announced_length(buffer) <= buffer.len()
    &&& valid_utf8(buffer.subrange(8, 8 + announced_length(buffer) as int))
}

/// The text that `buffer` starts with.
pub open spec fn text_value(buffer: Seq<u8>) -> Seq<char> {
    decode_utf8(buffer.subrange(8, 8 + announced_length(buffer) as int))
}

/// The payload that an encoder gave; the single byte 0 where it gave none.
pub fn payload_or_zero(encoded: Result<Vec<u8>, bincode::Error>) -> (payload: Vec<u8>)
    ensures
        match encoded {
            Ok(bytes) => payload@ == bytes@,
            Err(_) => payload@ == seq![0u8],
        },
{
    match encoded {
        Ok(bytes) => bytes,
        Err(_) => {
            let mut payload: Vec<u8> = Vec::new();
            payload.push(0);
            assert(payload@ =~= seq![0u8]);
            payload
        },
    }
}

/// `bincode::serialize` of a `u8`: the byte itself. Writing to a vector
/// without a size limit does not fail.
#[verifier::external_body]
pub(crate) fn serialize_byte(value: u8) -> (encoded: Result<Vec<u8>, bincode::Error>)
    ensures
        match encoded {
            Ok(bytes) => bytes@ == seq![value],
            Err(_) => false,
        },
{
    bincode::serialize(&value)
}

/// `bincode::serialize` of a `(bool, u8)`: the flag as 0 or 1, then the byte.
/// Writing to a vector without a size limit does not fail.
#[verifier::external_body]
pub(crate) fn serialize_flag_and_byte(flag: bool, value: u8) -> (encoded: Result<
    Vec<u8>,
    bincode::Error,
>)
    ensures
        match encoded {
            Ok(bytes) => bytes@ == seq![flag_byte(flag), value],
            Err(_) => false,
        },
{
    bincode::serialize(&(flag, value))
}

/// `bincode::serialize` of a `u16`: two bytes, the low one first. Writing to
/// a vector without a size limit does not fail.
#[verifier::external_body]
pub(crate) fn serialize_word(value: u16) -> (encoded: Result<Vec<u8>, bincode::Error>)
    ensures
        match encoded {
            Ok(bytes) => bytes@ == word_bytes(value),
            Err(_) => false,
        },
{
    bincode::serialize(&value)
}

/// `bincode::serialize` of an `i16`: the two bytes of its two's complement,
/// the low one first. Writing to a vector without a size limit does not fail.
#[verifier::external_body]
pub(crate) fn serialize_signed_word(value: i16) -> (encoded: Result<Vec<u8>, bincode::Error>)
    ensures
        match encoded {
            Ok(bytes) => bytes@ == signed_word_bytes(value),
            Err(_) => false,
        },
{
    bincode::serialize(&value)
}

/// `bincode::serialize` of a `str`: the length of its UTF-8 form as eight
/// bytes, the low one first, then that form. Writing to a vector without a
/// size limit does not fail.
#[verifier::external_body]
pub(crate) fn serialize_text(text: &str) -> (encoded: Result<Vec<u8>, bincode::Error>)
    ensures
        match encoded {
            Ok(bytes) => bytes@ == text_bytes(text@),
            Err(_) => false,
        },
{
    bincode::serialize(text)
}

/// `bincode::deserialize` of a `u8`: the first byte; an error where there is none.
#[verifier::external_body]
pub(crate) fn deserialize_byte(buffer: &[u8]) -> (decoded: Result<u8, bincode::Error>)
    ensures
        match decoded {
            Ok(value) => buffer@.len() >= 1 && value == buffer@[0],
            Err(_) => buffer@.len() < 1,
        },
{
    bincode::deserialize::<u8>(buffer)
}

/// `bincode::deserialize` of a `(bool, u8)`: the first byte as a flag, which
/// must be 0 or 1, and the second byte; an error otherwise.
#[verifier::external_body]
pub(crate) fn deserialize_flag_and_byte(buffer: &[u8]) -> (decoded: Result<
    (bool, u8),
    bincode::Error,
>)
    ensures
        match decoded {
            Ok(pair) => buffer@.len() >= 2 && buffer@[0] <= 1 && pair.0 == (buffer@[0] == 1)
                && pair.1 == buffer@[1],
            Err(_) => buffer@.len() < 2 || buffer@[0] > 1,
        },
{
    bincode::deserialize::<(bool, u8)>(buffer)
}

/// `bincode::deserialize` of a `u16`: the first two bytes, the low one first;
/// an error where there are fewer.
#[verifier::external_body]
pub(crate) fn deserialize_word(buffer: &[u8]) -> (decoded: Result<u16, bincode::Error>)
    ensures
        match decoded {
            Ok(value) => buffer@.len() >= 2 && value == word_value(buffer@[0], buffer@[1]),
            Err(_) => buffer@.len() < 2,
        },
{
    bincode::deserialize::<u16>(buffer)
}

/// `bincode::deserialize` of an `i16`: the first two bytes as a two's
/// complement, the low one first; an error where there are fewer.
#[verifier::external_body]
pub(crate) fn deserialize_signed_word(buffer: &[u8]) -> (decoded: Result<i16, bincode::Error>)
    ensures
        match decoded {
            Ok(value) => buffer@.len() >= 2 && value == signed_word_value(buffer@[0], buffer@[1]),
            Err(_) => buffer@.len() < 2,
        },
{
    bincode::deserialize::<i16>(buffer)
}

/// `bincode::deserialize` of a `String`: eight bytes of length, the low one
/// first, then that many bytes, which must be valid UTF-8; an error where
/// the buffer holds no such text.
#[verifier::external_body]
pub(crate) fn deserialize_text(buffer: &[u8]) -> (decoded: Result<String, bincode::Error>)
    ensures
        match decoded {
            Ok(text) => holds_text(buffer@) && text@ == text_value(buffer@),
            Err(_) => !holds_text(buffer@),
        },
{
    bincode::deserialize::<String>(buffer)
}

/// Two bytes hold the word that they were made from, and a word is made of
/// the two bytes that hold it.
pub proof fn lemma_word_round_trip(value: u16, low: u8, high: u8)
    ensures
        word_bytes(value).len() == 2,
        word_value(word_bytes(value)[0], word_bytes(value)[1]) == value,
        word_bytes(word_value(low, high)) == seq![low, high],
{
    assert(word_bytes(word_value(low, high)) =~= seq![low, high]);
}

/// The same for signed words.
pub proof fn lemma_signed_word_round_trip(value: i16, low: u8, high: u8)
    ensures
        signed_word_bytes(value).len() == 2,
        signed_word_value(signed_word_bytes(value)[0], signed_word_bytes(value)[1]) == value,
        signed_word_bytes(signed_word_value(low, high)) == seq![low, high],
{
    assert(signed_word_bytes(signed_word_value(low, high)) =~= seq![low, high]);
}

/// `count` bytes hold every number below `256` to the power of `count`.
pub proof fn lemma_le_round_trip(value: nat, count: nat)
    ensures
        le_bytes(value, count).len() == count,
        le_value(le_bytes(value, count)) == value % vstd::arithmetic::power::pow(256, count) as nat,
    decreases count,
{
    vstd::arithmetic::power::lemma_pow0(256);
    if count == 0 {
    } else {
        let rest = (count - 1) as nat;
        lemma_le_round_trip(value / 256, rest);
        let bytes = le_bytes(value, count);
        assert(bytes.drop_first() =~= le_bytes(value / 256, rest));
        let p = vstd::arithmetic::power::pow(256, rest);
        vstd::arithmetic::power::lemma_pow_positive(256, rest);
        vstd::arithmetic::power::lemma_pow_positive(256, count);
        assert(vstd::arithmetic::power::pow(256, count) == 256 * p) by {
            vstd::arithmetic::power::lemma_pow1(256);
            vstd::arithmetic::power::lemma_pow_adds(256, 1, rest);
        }
        assert(value % 256 + 256 * ((value / 256) % (p as nat)) == value % ((256 * p) as nat))
            by {
            vstd::arithmetic::div_mod::lemma_mod_breakdown(value as int, 256, p);
        }
    }
}

/// A text is read back from its bytes, whatever follows them, as long as its
/// UTF-8 form is short enough for its length to be held.
pub proof fn lemma_text_round_trip(text: Seq<char>, rest: Seq<u8>)
    requires
        encode_utf8(text).len() <= usize::MAX,
    ensures
        holds_text(text_bytes(text) + rest),
        text_value(text_bytes(text) + rest) == text,
{
    let encoded = encode_utf8(text);
    let length = encoded.len();
    let buffer = text_bytes(text) + rest;
    lemma_le_round_trip(length, 8);
    assert(vstd::arithmetic::power::pow(256, 8) == 0x1_0000_0000_0000_0000) by {
        reveal_with_fuel(vstd::arithmetic::power::pow, 9);
    }
    assert(buffer.subrange(0, 8) =~= le_bytes(length, 8));
    assert(length <= 0xffff_ffff_ffff_ffff);
    assert(length % 0x1_0000_0000_0000_0000 == length);
    assert(announced_length(buffer) == length);
    assert(buffer.subrange(8, 8 + length as int) =~= encoded);
    vstd::utf8::encode_utf8_valid_utf8(text);
    vstd::utf8::encode_utf8_decode_utf8(text);
}

} // verus!
