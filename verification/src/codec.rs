//! Raw bytes as text, for storage that keeps nothing but text.
//!
//! The encoding is Base64, and the `base64` crate does it. Verus does not read
//! that crate: what this file says of it is believed, not proved.

use vstd::prelude::*;

verus! {

/// The error of `base64::decode`, which this library tells from a success and
/// never looks into.
#[verifier::external_type_specification]
#[verifier::external_body]
pub struct ExDecodeError(base64::DecodeError);

/// The text that `base64::encode` returns for these bytes: their Base64 in the
/// standard alphabet, padded.
pub uninterp spec fn base64_text(data: Seq<u8>) -> Seq<char>;

/// What `base64::decode` makes of a text: the bytes that it stands for, or
/// nothing where the text is no Base64.
pub uninterp spec fn base64_bytes(text: Seq<char>) -> Option<Seq<u8>>;

/// Whether so many bytes can be encoded: their text, four characters for every
/// three bytes or part of three, must be of a length that a `String` can have.
pub open spec fn encodable(len: nat) -> bool {
    len <= isize::MAX / 4 * 3
}

/// Calls `base64::encode`, which panics only where the text would be longer
/// than a buffer can be. Claims that the result is the crate's encoding of
/// `data`, the same for the same bytes.
#[verifier::external_body]
pub(crate) fn encode(data: &[u8]) -> (text: String)
    requires
        encodable(data@.len()),
    ensures
        text@ == base64_text(data@),
{
    base64::encode(data)
}

/// Calls `base64::decode`, which panics only where its arithmetic on the
/// length of the text overflows; no `str` is long enough for that, and its
/// buffer is shorter than the text. Claims that the result is the crate's
/// decoding of `text`, the same for the same text, and that it undoes
/// `base64::encode`: a text that the crate encodes any bytes to is never
/// rejected, and decodes to those bytes.
#[verifier::external_body]
pub(crate) fn decode(text: &str) -> (bytes: Result<Vec<u8>, base64::DecodeError>)
    ensures
        bytes is Err <==> base64_bytes(text@) is None,
        bytes matches Ok(found) ==> base64_bytes(text@) == Some(found@),
        bytes is Err ==> forall|data: Seq<u8>| text@ != #[trigger] base64_text(data),
        bytes matches Ok(found) ==> forall|data: Seq<u8>|
            text@ == #[trigger] base64_text(data) ==> found@ == data,
{
    base64::decode(text)
}

} // verus!
