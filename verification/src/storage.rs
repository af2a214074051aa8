//! The browser's two storage areas, as this library speaks to them.
//!
//! A storage area keeps text under a key. The library never holds one: it
//! describes the read or the write to make, and then takes the host's reply.

use crate::error::{outcome, SaveError, SaveErrorView};
use vstd::prelude::*;

verus! {

/// The two storage areas of a browser.
#[derive(Clone, Copy, Debug, PartialEq, Eq, Hash, Structural)]
pub enum Area {
    /// The area that outlives the session.
    Persistent,
    /// The area that ends with the session.
    Session,
}

/// A write for the host to make: store `value` under `key` in `area`.
#[derive(Debug, PartialEq, Eq)]
pub struct StorageWrite {
    pub area: Area,
    pub key: String,
    pub value: String,
}

/// A read for the host to make: look up `key` in `area`.
#[derive(Debug, PartialEq, Eq)]
pub struct StorageRead {
    pub area: Area,
    pub key: String,
}

/// What the host says of a write.
#[derive(Clone, Copy, Debug, PartialEq, Eq, Hash, Structural)]
pub enum WriteReply {
    /// The area could not be had.
    Unavailable,
    /// The area refused the entry: it is full, or switched off.
    Rejected,
    /// The entry is stored.
    Stored,
}

/// What the host says of a read.
#[derive(Debug, PartialEq, Eq)]
pub enum ReadReply {
    /// The area could not be had, or could not be read.
    Unavailable,
    /// The area holds nothing under the key.
    Missing,
    /// The text that the area holds under the key.
    Found(String),
}

/// A write as contracts see it.
pub ghost struct StorageWriteView {
    pub area: Area,
    pub key: Seq<char>,
    pub value: Seq<char>,
}

/// A read as contracts see it.
pub ghost struct StorageReadView {
    pub area: Area,
    pub key: Seq<char>,
}

/// The reply to a read as contracts see it.
pub ghost enum ReadReplyView {
    Unavailable,
    Missing,
    Found(Seq<char>),
}

impl View for StorageWrite {
    type V = StorageWriteView;

    open spec fn view(&self) -> StorageWriteView {
        StorageWriteView { area: self.area, key: self.key@, value: self.value@ }
    }
}

impl View for StorageRead {
    type V = StorageReadView;

    open spec fn view(&self) -> StorageReadView {
        StorageReadView { area: self.area, key: self.key@ }
    }
}

impl View for ReadReply {
    type V = ReadReplyView;

    open spec fn view(&self) -> ReadReplyView {
        match self {
            ReadReply::Unavailable => ReadReplyView::Unavailable,
            ReadReply::Missing => ReadReplyView::Missing,
            ReadReply::Found(text) => ReadReplyView::Found(text@),
        }
    }
}

/// The area that a value goes to: the session's for what is only cached, the
/// persistent one for everything else.
pub open spec fn area_for(is_cache: bool) -> Area {
    if is_cache {
        Area::Session
    } else {
        Area::Persistent
    }
}

/// The write that `set_storage` describes.
pub open spec fn write_of(is_cache: bool, profile: Seq<char>, value: Seq<char>) -> StorageWriteView {
    StorageWriteView { area: area_for(is_cache), key: profile, value }
}

/// The read that `get_storage` describes.
pub open spec fn read_of(is_cache: bool, profile: Seq<char>) -> StorageReadView {
    StorageReadView { area: area_for(is_cache), key: profile }
}

/// What a write has come to, given the host's reply.
pub open spec fn written(reply: WriteReply) -> Result<(), SaveErrorView> {
    match reply {
        WriteReply::Stored => Ok(()),
        WriteReply::Rejected => Err(SaveErrorView::SaveWriteFailed),
        WriteReply::Unavailable => Err(SaveErrorView::SaveLocationNotFound),
    }
}

/// What a read of `key` has come to, given the host's reply.
pub open spec fn found(key: Seq<char>, reply: ReadReplyView) -> Result<Seq<char>, SaveErrorView> {
    match reply {
        ReadReplyView::Found(text) => Ok(text),
        ReadReplyView::Missing => Err(SaveErrorView::SaveNotFound(key)),
        ReadReplyView::Unavailable => Err(SaveErrorView::SaveLocationNotFound),
    }
}

/// Describes the write that stores `value` under `profile`: in the session's
/// area where `is_cache` is set, in the persistent area where it is not.
pub fn set_storage(is_cache: bool, profile: &str, value: &str) -> (write: StorageWrite)
    ensures
        write@ == write_of(is_cache, profile@, value@),
{
    let area = if is_cache {
        Area::Session
    } else {
        Area::Persistent
    };
    StorageWrite { area, key: profile.to_owned(), value: value.to_owned() }
}

/// Describes the read that looks `profile` up: in the session's area where
/// `is_cache` is set, in the persistent area where it is not.
pub fn get_storage(is_cache: bool, profile: &str) -> (read: StorageRead)
    ensures
        read@ == read_of(is_cache, profile@),
{
    let area = if is_cache {
        Area::Session
    } else {
        Area::Persistent
    };
    StorageRead { area, key: profile.to_owned() }
}

impl StorageWrite {
    /// Takes the host's reply to the write: done where the entry is stored,
    /// `SaveWriteFailed` where the area refused it, `SaveLocationNotFound`
    /// where there was no area to write to.
    pub fn finish(self, reply: WriteReply) -> (result: Result<(), SaveError>)
        ensures
            outcome(result) == written(reply),
    {
        match reply {
            WriteReply::Stored => Ok(()),
            WriteReply::Rejected => Err(SaveError::SaveWriteFailed),
            WriteReply::Unavailable => Err(SaveError::SaveLocationNotFound),
        }
    }
}

impl StorageRead {
    /// Takes the host's reply to the read: the text where there is an entry,
    /// `SaveNotFound` with the key where there is none, `SaveLocationNotFound`
    /// where there was no area to read.
    pub fn finish(self, reply: ReadReply) -> (result: Result<String, SaveError>)
        ensures
            outcome(result) == found(self@.key, reply@),
    {
        match reply {
            ReadReply::Found(text) => Ok(text),
            ReadReply::Missing => Err(SaveError::SaveNotFound(self.key)),
            ReadReply::Unavailable => Err(SaveError::SaveLocationNotFound),
        }
    }
}

} // verus!
