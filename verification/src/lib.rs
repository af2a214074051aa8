//! Loading files and keeping small values, on the desktop and in the browser.
//!
//! Nothing in this library touches a file, a socket or the browser. It decides
//! what the host is to do next and what the host's answers mean; the caller's
//! runtime does the asking.

use vstd::prelude::*;

pub mod codec;
pub mod error;
pub mod host;
pub mod lifecycle;
pub mod request;
pub mod storage;
pub mod web;

use crate::request::{fresh, Request, RequestView};

verus! {

/// Where the program runs.
#[derive(Clone, Copy, Debug, PartialEq, Eq, Hash, Structural)]
pub enum Platform {
    /// A native process, with a file system of its own.
    Desktop,
    /// A browser, where a file is what a server sends.
    Web,
}

/// How the bytes of a file are to be had.
#[derive(Debug, PartialEq, Eq)]
pub enum Load {
    /// Read the file at this path, whole; an error of the file system passes
    /// to the caller as it is.
    File(String),
    /// Fetch it: drive this request to its answer.
    Fetch(Request),
}

/// A way to load as contracts see it.
pub ghost enum LoadView {
    File(Seq<char>),
    Fetch(RequestView),
}

impl View for Load {
    type V = LoadView;

    open spec fn view(&self) -> LoadView {
        match self {
            Load::File(path) => LoadView::File(path@),
            Load::Fetch(request) => LoadView::Fetch(request@),
        }
    }
}

/// The way to load `path` on each platform.
pub open spec fn load_of(platform: Platform, path: Seq<char>) -> LoadView {
    match platform {
        Platform::Desktop => LoadView::File(path),
        Platform::Web => LoadView::Fetch(fresh(path)),
    }
}

/// Says how the file at `path` is loaded: from the file system on the desktop,
/// by a fresh GET request to `path` in the browser. The caller asks in one way
/// and gets bytes in one way, wherever it runs.
pub fn load_file(platform: Platform, path: &str) -> (load: Load)
    ensures
        load@ == load_of(platform, path@),
{
    match platform {
        Platform::Desktop => Load::File(path.to_owned()),
        Platform::Web => Load::Fetch(web::load_file(path)),
    }
}

/// The kind of place that a value is kept in.
#[derive(Clone, Copy, Debug, PartialEq, Eq, Hash, Structural)]
pub enum Location {
    /// For what can be made again: in the browser it lasts for the session.
    Cache,
    /// For settings.
    Config,
    /// For what the user made.
    Data,
}

} // verus!
