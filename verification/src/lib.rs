//! A reversible, keyed additive byte shift on text.
//!
//! Text is encoded with the single-byte Windows-1253 character set, every byte is
//! shifted by the key byte that falls on its position (the key repeats over the
//! buffer, and the arithmetic wraps modulo 256), and the shifted bytes are decoded
//! back to text with the same character set. This obscures text; it does not
//! protect it.
//!
//! [`forward`] and [`backward`] are the two directions. [`shift`] holds the
//! arithmetic on bytes and its laws, [`codec`] what is taken on trust from the
//! character set, and [`shell`] the decisions of an interactive front end.

pub mod codec;
pub mod shell;
pub mod shift;

use crate::codec::{decode_strict, encode_strict, windows_1253_decoded, windows_1253_encoded};
use crate::shift::{
    lemma_shifts_are_inverse, shift_backward, shift_forward, shifted_backward, shifted_forward,
};
use std::borrow::Cow;
use vstd::prelude::*;

verus! {

/// The key that callers use when the user gives none: the ASCII bytes of
/// "SIAC-UNJB".
pub const MAGIC: [u8; 9] = [83, 73, 65, 67, 45, 85, 78, 74, 66];

/// Why a transform gave no text.
#[derive(Debug)]
pub enum ShiftError {
    /// The text to transform holds a character that the character set cannot
    /// encode; with the codec's description of the fault.
    NonRepresentableInput(Cow<'static, str>),
    /// The shifted bytes hold a byte that the character set cannot decode; with
    /// the shifted bytes as they are, and the codec's description of the fault.
    NonRepresentableOutput((Vec<u8>, Cow<'static, str>)),
    /// The key is empty; with a description of the fault.
    InvalidCypher(Cow<'static, str>),
}

/// A [`ShiftError`] as plain values.
pub enum ShiftFault {
    NonRepresentableInput(Seq<char>),
    NonRepresentableOutput(Seq<u8>, Seq<char>),
    InvalidCypher(Seq<char>),
}

impl View for ShiftError {
    type V = ShiftFault;

    open spec fn view(&self) -> ShiftFault {
        match *self {
            ShiftError::NonRepresentableInput(cause) => ShiftFault::NonRepresentableInput(cause@),
            ShiftError::NonRepresentableOutput((raw, cause)) => ShiftFault::NonRepresentableOutput(
                raw@,
                cause@,
            ),
            ShiftError::InvalidCypher(cause) => ShiftFault::InvalidCypher(cause@),
        }
    }
}

/// What a transform returned, as plain values.
pub open spec fn outcome_view(outcome: Result<String, ShiftError>) -> Result<Seq<char>, ShiftFault> {
    match outcome {
        Ok(text) => Ok(text@),
        Err(error) => Err(error@),
    }
}

/// What becomes of shifted bytes: their text where the character set has one,
/// else the bytes themselves with the codec's description of the fault.
pub open spec fn text_of(shifted: Seq<u8>) -> Result<Seq<char>, ShiftFault> {
    match windows_1253_decoded(shifted) {
        Ok(text) => Ok(text),
        Err(cause) => Err(ShiftFault::NonRepresentableOutput(shifted, cause)),
    }
}

/// What [`forward`] makes of `text` under `key`.
pub open spec fn forward_outcome(text: Seq<char>, key: Seq<u8>) -> Result<Seq<char>, ShiftFault> {
    if key.len() == 0 {
        Err(ShiftFault::InvalidCypher("Cypher can't be empty"@))
    } else {
        match windows_1253_encoded(text) {
            Err(cause) => Err(ShiftFault::NonRepresentableInput(cause)),
            Ok(bytes) => text_of(shifted_forward(bytes, key)),
        }
    }
}

/// What [`backward`] makes of `text` under `key`.
pub open spec fn backward_outcome(text: Seq<char>, key: Seq<u8>) -> Result<Seq<char>, ShiftFault> {
    if key.len() == 0 {
        Err(ShiftFault::InvalidCypher("Cypher can't be empty"@))
    } else {
        match windows_1253_encoded(text) {
            Err(cause) => Err(ShiftFault::NonRepresentableInput(cause)),
            Ok(bytes) => text_of(shifted_backward(bytes, key)),
        }
    }
}

/// Settles a transform once its bytes are shifted and the character set has been
/// asked to decode them: the text if there is one, else
/// [`ShiftError::NonRepresentableOutput`] with `shifted` untouched and the cause
/// that the character set gave.
pub fn text_or_raw(shifted: Vec<u8>, decoded: Result<String, Cow<'static, str>>) -> (r: Result<
    String,
    ShiftError,
>)
    ensures
        match decoded {
            Ok(text) => r == Ok::<String, ShiftError>(text),
            Err(cause) => r == Err::<String, ShiftError>(
                ShiftError::NonRepresentableOutput((shifted, cause)),
            ),
        },
{
    match decoded {
        Ok(text) => Ok(text),
        Err(cause) => Err(ShiftError::NonRepresentableOutput((shifted, cause))),
    }
}

/// Shifts `text` forward under the key `cypher`: encodes it, moves every byte up
/// by the key byte on its position, and decodes the result.
///
/// An empty key is refused before anything else is looked at. Text that the
/// character set cannot encode is refused next. Shifted bytes that it cannot
/// decode come back as they are, inside the error.
pub fn forward(text: &str, cypher: &[u8]) -> (r: Result<String, ShiftError>)
    ensures
        outcome_view(r) == forward_outcome(text@, cypher@),
        cypher@.len() == 0 <==> r matches Err(ShiftError::InvalidCypher(_)),
        r matches Err(ShiftError::NonRepresentableOutput((raw, _))) ==> {
            &&& windows_1253_encoded(text@) matches Ok(bytes)
            &&& raw@ == shifted_forward(bytes, cypher@)
            &&& raw@.len() == text@.len()
        },
        r matches Ok(shifted) ==> shifted@.len() == text@.len(),
{
    if cypher.is_empty() {
        return Err(ShiftError::InvalidCypher(Cow::Borrowed("Cypher can't be empty")));
    }
    match encode_strict(text) {
        Err(cause) => Err(ShiftError::NonRepresentableInput(cause)),
        Ok(mut bytes) => {
            shift_forward(&mut bytes, cypher);
            let decoded = decode_strict(bytes.as_slice());
            text_or_raw(bytes, decoded)
        },
    }
}

/// Shifts `text` backward under the key `cypher`: encodes it, moves every byte
/// down by the key byte on its position, and decodes the result.
///
/// It refuses what [`forward`] refuses, in the same order.
pub fn backward(text: &str, cypher: &[u8]) -> (r: Result<String, ShiftError>)
    ensures
        outcome_view(r) == backward_outcome(text@, cypher@),
        cypher@.len() == 0 <==> r matches Err(ShiftError::InvalidCypher(_)),
        r matches Err(ShiftError::NonRepresentableOutput((raw, _))) ==> {
            &&& windows_1253_encoded(text@) matches Ok(bytes)
            &&& raw@ == shifted_backward(bytes, cypher@)
            &&& raw@.len() == text@.len()
        },
        r matches Ok(shifted) ==> shifted@.len() == text@.len(),
{
    if cypher.is_empty() {
        return Err(ShiftError::InvalidCypher(Cow::Borrowed("Cypher can't be empty")));
    }
    match encode_strict(text) {
        Err(cause) => Err(ShiftError::NonRepresentableInput(cause)),
        Ok(mut bytes) => {
            shift_backward(&mut bytes, cypher);
            let decoded = decode_strict(bytes.as_slice());
            text_or_raw(bytes, decoded)
        },
    }
}

/// Under an empty key both directions end in [`ShiftError::InvalidCypher`],
/// whatever the text; under any other key neither does.
pub proof fn lemma_empty_key_is_refused(text: Seq<char>, key: Seq<u8>)
    ensures
        key.len() == 0 <==> forward_outcome(text, key) matches Err(ShiftFault::InvalidCypher(_)),
        key.len() == 0 <==> backward_outcome(text, key) matches Err(ShiftFault::InvalidCypher(_)),
{
}

/// The bytes inside a `NonRepresentableOutput` are the shifted bytes themselves:
/// the encoded text with every byte moved by its key byte, as long as the encoded
/// text, with nothing replaced or left out.
pub proof fn lemma_raw_output_is_the_shifted_buffer(text: Seq<char>, key: Seq<u8>)
    ensures
        forward_outcome(text, key) matches Err(ShiftFault::NonRepresentableOutput(raw, _)) ==> {
            &&& windows_1253_encoded(text) matches Ok(bytes)
            &&& raw == shifted_forward(bytes, key)
            &&& raw.len() == bytes.len()
        },
        backward_outcome(text, key) matches Err(ShiftFault::NonRepresentableOutput(raw, _)) ==> {
            &&& windows_1253_encoded(text) matches Ok(bytes)
            &&& raw == shifted_backward(bytes, key)
            &&& raw.len() == bytes.len()
        },
{
}

/// Backward undoes forward on text, as far as the character set lets it: if
/// `forward` turns `text` into `shifted`, the character set encodes `shifted` to
/// the very bytes it was decoded from, and decodes the bytes of `text` to `text`,
/// then `backward` turns `shifted` into `text`. The same holds with the two
/// directions exchanged.
pub proof fn lemma_round_trip(text: Seq<char>, key: Seq<u8>, shifted: Seq<char>)
    ensures
        ({
            &&& forward_outcome(text, key) == Ok::<Seq<char>, ShiftFault>(shifted)
            &&& windows_1253_encoded(text) matches Ok(bytes)
            &&& windows_1253_decoded(bytes) == Ok::<Seq<char>, Seq<char>>(text)
            &&& windows_1253_encoded(shifted) == Ok::<Seq<u8>, Seq<char>>(
                shifted_forward(bytes, key),
            )
        }) ==> backward_outcome(shifted, key) == Ok::<Seq<char>, ShiftFault>(text),
        ({
            &&& backward_outcome(text, key) == Ok::<Seq<char>, ShiftFault>(shifted)
            &&& windows_1253_encoded(text) matches Ok(bytes)
            &&& windows_1253_decoded(bytes) == Ok::<Seq<char>, Seq<char>>(text)
            &&& windows_1253_encoded(shifted) == Ok::<Seq<u8>, Seq<char>>(
                shifted_backward(bytes, key),
            )
        }) ==> forward_outcome(shifted, key) == Ok::<Seq<char>, ShiftFault>(text),
{
    if key.len() > 0 {
        if let Ok(bytes) = windows_1253_encoded(text) {
            lemma_shifts_are_inverse(bytes, key);
        }
    }
}

} // verus!
