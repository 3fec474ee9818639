//! The fixed-width integer encoding of the wire format, as `bincode` writes it.
//!
//! Everything the library knows about `bincode` is stated here. The two
//! functions below call it; their contracts are taken on trust from its
//! source and are what the packet codec is proved against.

use vstd::prelude::*;

verus! {

/// Number of bytes that stand for one `u32` on the wire.
pub const WORD_LEN: usize = 4;

/// The four bytes of `value`, least significant first.
pub open spec fn word_bytes(value: u32) -> Seq<u8> {
    seq![
        (value % 256) as u8,
        (value / 256 % 256) as u8,
        (value / 65536 % 256) as u8,
        (value / 16777216) as u8,
    ]
}

/// The number whose least significant byte is `bytes[0]`, read from the
/// first four bytes of `bytes`.
pub open spec fn word_value(bytes: Seq<u8>) -> int
    recommends
        bytes.len() >= WORD_LEN,
{
    bytes[0] + 256 * bytes[1] + 65536 * bytes[2] + 16777216 * bytes[3]
}

/// Reading back the bytes of a word gives the word, whatever follows them.
pub proof fn lemma_word_round_trip(value: u32, rest: Seq<u8>)
    ensures
        word_bytes(value).len() == WORD_LEN,
        word_value(word_bytes(value) + rest) == value,
{
    let bytes = word_bytes(value) + rest;
    assert(bytes[0] == word_bytes(value)[0]);
    assert(bytes[1] == word_bytes(value)[1]);
    assert(bytes[2] == word_bytes(value)[2]);
    assert(bytes[3] == word_bytes(value)[3]);
}

/// `bincode::ErrorKind`, the error of both calls below. Nothing is said of
/// what it holds; the codec only tells failure from success.
#[verifier::external_type_specification]
#[verifier::external_body]
pub struct ExErrorKind(bincode::ErrorKind);

/// `bincode::serialize`, on a `u32`.
///
/// Trusted: with the options that `bincode::serialize` fixes (no size limit,
/// fixed-width integers, little endian) the call cannot fail on a `u32`, and
/// it returns the four bytes of the value, least significant first.
#[verifier::external_body]
pub(crate) fn serialize_word(value: u32) -> (result: Result<Vec<u8>, bincode::Error>)
    ensures
        result is Ok,
        result->Ok_0@ == word_bytes(value),
{
    bincode::serialize(&value)
}

/// `bincode::deserialize`, to a `u32`.
///
/// Trusted: the call succeeds exactly when the buffer holds four bytes or
/// more; it then returns the number that the first four bytes stand for,
/// least significant first, and ignores the bytes after them.
#[verifier::external_body]
pub(crate) fn deserialize_word(buffer: &[u8]) -> (result: Result<u32, bincode::Error>)
    ensures
        result is Ok <==> buffer@.len() >= WORD_LEN,
        result is Ok ==> result->Ok_0 == word_value(buffer@),
{
    bincode::deserialize(buffer)
}

} // verus!
