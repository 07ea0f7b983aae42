//! The Windows-1253 character set in strict mode, as the `encoding` crate
//! implements it. Nothing in this file is proved: it states what the library
//! takes on trust from that crate.

use encoding::all::WINDOWS_1253;
use encoding::{DecoderTrap, EncoderTrap, Encoding};
use std::borrow::Cow;
use vstd::prelude::*;

verus! {

/// What strict Windows-1253 encoding makes of `text`: its bytes, or the codec's
/// description of the fault when some character of `text` has no byte.
pub uninterp spec fn windows_1253_encoded(text: Seq<char>) -> Result<Seq<u8>, Seq<char>>;

/// What strict Windows-1253 decoding makes of `bytes`: their text, or the codec's
/// description of the fault when some byte of `bytes` stands for no character.
pub uninterp spec fn windows_1253_decoded(bytes: Seq<u8>) -> Result<Seq<char>, Seq<char>>;

/// Calls `Encoding::encode` of the `encoding` crate on its `WINDOWS_1253`, with
/// `EncoderTrap::Strict`.
///
/// Trusted: the outcome depends on `text` alone, so it has a name; and where the
/// call succeeds it has written exactly one byte for each character of `text`.
#[verifier::external_body]
pub(crate) fn encode_strict(text: &str) -> (encoded: Result<Vec<u8>, Cow<'static, str>>)
    ensures
        match encoded {
            Ok(bytes) => windows_1253_encoded(text@) == Ok::<Seq<u8>, Seq<char>>(bytes@),
            Err(cause) => windows_1253_encoded(text@) == Err::<Seq<u8>, Seq<char>>(cause@),
        },
        encoded matches Ok(bytes) ==> bytes@.len() == text@.len(),
{
    WINDOWS_1253.encode(text, EncoderTrap::Strict)
}

/// Calls `Encoding::decode` of the `encoding` crate on its `WINDOWS_1253`, with
/// `DecoderTrap::Strict`.
///
/// Trusted: the outcome depends on `bytes` alone, so it has a name; and where the
/// call succeeds it has written exactly one character for each byte of `bytes`.
#[verifier::external_body]
pub(crate) fn decode_strict(bytes: &[u8]) -> (decoded: Result<String, Cow<'static, str>>)
    ensures
        match decoded {
            Ok(text) => windows_1253_decoded(bytes@) == Ok::<Seq<char>, Seq<char>>(text@),
            Err(cause) => windows_1253_decoded(bytes@) == Err::<Seq<char>, Seq<char>>(cause@),
        },
        decoded matches Ok(text) ==> text@.len() == bytes@.len(),
{
    WINDOWS_1253.decode(bytes, DecoderTrap::Strict)
}

} // verus!
