//! Loading and saving in the browser.
//!
//! A file is loaded by a GET request to its path. A value is kept in one of
//! the browser's two storage areas, under its profile: structured values as
//! the text they were serialized to, raw bytes as Base64.

use crate::codec::{base64_bytes, base64_text, decode, encodable, encode};
use crate::error::{outcome, SaveError, SaveErrorView};
use crate::request::{fresh, make_request, Request};
use crate::storage::{
    found, get_storage, read_of, set_storage, write_of, ReadReply, ReadReplyView, StorageRead,
    StorageWrite, StorageWriteView,
};
use crate::Location;
use vstd::prelude::*;

verus! {

/// The read of raw bytes that `load_raw` describes: a read whose text is
/// decoded once it is found.
#[derive(Debug, PartialEq, Eq)]
pub struct RawRead {
    pub read: StorageRead,
}

/// What `save` makes of a value that was serialized, or could not be.
pub open spec fn save_of(
    location: Location,
    profile: Seq<char>,
    data: Result<String, serde_json::Error>,
) -> Result<StorageWriteView, SaveErrorView> {
    match data {
        Ok(text) => Ok(write_of(location is Cache, profile, text@)),
        Err(error) => Err(SaveErrorView::SerdeError(error)),
    }
}

/// What a raw read of `key` has come to, given the host's reply: the bytes
/// that the text found stands for, `DecodeError` where it stands for none.
pub open spec fn found_raw(key: Seq<char>, reply: ReadReplyView) -> Result<Seq<u8>, SaveErrorView> {
    match found(key, reply) {
        Ok(text) => match base64_bytes(text) {
            Some(bytes) => Ok(bytes),
            None => Err(SaveErrorView::DecodeError),
        },
        Err(error) => Err(error),
    }
}

/// Begins the fetch of the file at `path`, which the browser reads as a URL.
pub fn load_file(path: &str) -> (request: Request)
    ensures
        request@ == fresh(path@),
{
    make_request(path)
}

/// Describes the write that keeps a structured value: the text it was
/// serialized to goes under `profile`, as it is, into the area for `location`.
/// A value that could not be serialized is not written, and its error is
/// handed on.
pub fn save(
    location: Location,
    _appname: &str,
    profile: &str,
    data: Result<String, serde_json::Error>,
) -> (write: Result<StorageWrite, SaveError>)
    ensures
        outcome(write) == save_of(location, profile@, data),
{
    match data {
        Ok(text) => Ok(set_storage(location == Location::Cache, profile, text.as_str())),
        Err(error) => Err(SaveError::from(error)),
    }
}

/// Describes the write that keeps raw bytes: their Base64 text goes under
/// `profile` into the area for `location`.
pub fn save_raw(location: Location, _appname: &str, profile: &str, data: &[u8]) -> (write:
    StorageWrite)
    requires
        encodable(data@.len()),
    ensures
        write@ == write_of(location is Cache, profile@, base64_text(data@)),
{
    let text = encode(data);
    set_storage(location == Location::Cache, profile, text.as_str())
}

/// Describes the read that finds a structured value again: the text under
/// `profile` in the area for `location`, for the caller to deserialize.
pub fn load(location: Location, _appname: &str, profile: &str) -> (read: StorageRead)
    ensures
        read@ == read_of(location is Cache, profile@),
{
    get_storage(location == Location::Cache, profile)
}

/// Describes the read that finds raw bytes again: the text under `profile` in
/// the area for `location`, to be decoded by [`RawRead::finish`].
pub fn load_raw(location: Location, _appname: &str, profile: &str) -> (raw: RawRead)
    ensures
        raw.read@ == read_of(location is Cache, profile@),
{
    RawRead { read: get_storage(location == Location::Cache, profile) }
}

/// Takes what the decoder made of a text: the bytes where it found any;
/// `DecodeError`, whatever it was that the decoder objected to, where it found
/// none.
pub fn decoded(bytes: Result<Vec<u8>, base64::DecodeError>) -> (result: Result<Vec<u8>, SaveError>)
    ensures
        outcome(result) == match bytes {
            Ok(found) => Ok::<Seq<u8>, SaveErrorView>(found@),
            Err(_) => Err::<Seq<u8>, SaveErrorView>(SaveErrorView::DecodeError),
        },
{
    match bytes {
        Ok(found) => Ok(found),
        Err(_) => Err(SaveError::DecodeError),
    }
}

impl RawRead {
    /// Takes the host's reply to the read, and decodes the text found.
    ///
    /// The errors of a read stay what they are; a text that is no Base64 gives
    /// `DecodeError`. The text that `save_raw` wrote for any bytes gives those
    /// bytes back.
    pub fn finish(self, reply: ReadReply) -> (result: Result<Vec<u8>, SaveError>)
        ensures
            outcome(result) == found_raw(self.read@.key, reply@),
            forall|data: Seq<u8>|
                reply@ == ReadReplyView::Found(#[trigger] base64_text(data)) ==> outcome(result)
                    == Ok::<Seq<u8>, SaveErrorView>(data),
    {
        match self.read.finish(reply) {
            Ok(text) => decoded(decode(text.as_str())),
            Err(error) => Err(error),
        }
    }
}

} // verus!
