//! What saving and loading come to on a host that keeps what it is given.
//!
//! The library never sees the browser's storage. These proofs say what its
//! reads and writes add up to when the host on the other side behaves as a
//! storage area should: a write puts the text under the key, and a read finds
//! the text that was put there last.

use crate::codec::{base64_bytes, base64_text};
use crate::error::SaveErrorView;
use crate::storage::{
    area_for, found, read_of, write_of, Area, ReadReplyView, StorageReadView, StorageWriteView,
};
use crate::web::found_raw;
use crate::Location;
use vstd::prelude::*;

verus! {

/// The storage of a host: the text under each key of each area.
pub type Store = Map<(Area, Seq<char>), Seq<char>>;

/// The storage once the host has made a write.
pub open spec fn after_write(store: Store, write: StorageWriteView) -> Store {
    store.insert((write.area, write.key), write.value)
}

/// The host's reply to a read.
pub open spec fn reply_to(store: Store, read: StorageReadView) -> ReadReplyView {
    if store.contains_key((read.area, read.key)) {
        ReadReplyView::Found(store[(read.area, read.key)])
    } else {
        ReadReplyView::Missing
    }
}

/// Loading after saving finds the text that was saved, as it was: whatever the
/// storage held before, and for every location, profile and text.
pub proof fn lemma_load_finds_what_was_saved(
    store: Store,
    location: Location,
    profile: Seq<char>,
    text: Seq<char>,
)
    ensures
        found(
            profile,
            reply_to(
                after_write(store, write_of(location is Cache, profile, text)),
                read_of(location is Cache, profile),
            ),
        ) == Ok::<Seq<char>, SaveErrorView>(text),
{
}

/// A raw load after a raw save decodes the very text that the save encoded the
/// bytes to. (`RawRead::finish` says what decoding makes of such a text: the
/// bytes.)
pub proof fn lemma_raw_load_decodes_what_was_saved(
    store: Store,
    location: Location,
    profile: Seq<char>,
    data: Seq<u8>,
)
    ensures
        reply_to(
            after_write(store, write_of(location is Cache, profile, base64_text(data))),
            read_of(location is Cache, profile),
        ) == ReadReplyView::Found(base64_text(data)),
        found_raw(
            profile,
            reply_to(
                after_write(store, write_of(location is Cache, profile, base64_text(data))),
                read_of(location is Cache, profile),
            ),
        ) == match base64_bytes(base64_text(data)) {
            Some(bytes) => Ok::<Seq<u8>, SaveErrorView>(bytes),
            None => Err::<Seq<u8>, SaveErrorView>(SaveErrorView::DecodeError),
        },
{
}

/// Loading a profile under which nothing was saved fails, and the error names
/// that profile. The same holds of a raw load.
pub proof fn lemma_unsaved_profile_is_not_found(
    store: Store,
    location: Location,
    profile: Seq<char>,
)
    requires
        !store.contains_key((area_for(location is Cache), profile)),
    ensures
        found(profile, reply_to(store, read_of(location is Cache, profile))) == Err::<
            Seq<char>,
            SaveErrorView,
        >(SaveErrorView::SaveNotFound(profile)),
        found_raw(profile, reply_to(store, read_of(location is Cache, profile))) == Err::<
            Seq<u8>,
            SaveErrorView,
        >(SaveErrorView::SaveNotFound(profile)),
{
}

/// A save changes one entry and no other: a load of another profile, or from
/// the other area, finds what it found before.
pub proof fn lemma_save_leaves_the_rest(
    store: Store,
    location: Location,
    profile: Seq<char>,
    text: Seq<char>,
    other_location: Location,
    other_profile: Seq<char>,
)
    requires
        other_profile != profile || area_for(other_location is Cache) != area_for(
            location is Cache,
        ),
    ensures
        reply_to(
            after_write(store, write_of(location is Cache, profile, text)),
            read_of(other_location is Cache, other_profile),
        ) == reply_to(store, read_of(other_location is Cache, other_profile)),
{
}

/// What is only cached goes to the session's area, and everything else to the
/// persistent one: configuration and data share an area, and the cache shares
/// none.
pub proof fn lemma_areas_of_locations(location: Location)
    ensures
        area_for(location is Cache) == Area::Session <==> location == Location::Cache,
        area_for(location is Cache) == Area::Persistent <==> location == Location::Config
            || location == Location::Data,
{
}

} // verus!
