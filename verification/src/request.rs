//! The fetch bridge: one GET request, from its construction to its bytes.
//!
//! A browser's request object works by callbacks, the caller's runtime by
//! polls. The bridge sits between the two as a state machine that never calls
//! the host itself: [`Request::action`] says what the host is to do next,
//! [`create_request`] takes the outcome of each step of the setup, and
//! [`poll_request`] takes what the host reports of the exchange at each poll.
//!
//! | state                          | what has happened                                  |
//! |--------------------------------|----------------------------------------------------|
//! | `Unbuilt`, `Built`, `Opened`   | the setup is under way                             |
//! | `Created`                      | the object is constructed, opened and set to binary|
//! | `Sent`                         | the GET is dispatched and was never polled         |
//! | `Pending`                      | polled, and the response was not complete          |
//! | [`Polled::Succeeded`]          | status 2xx and ready state done: the bytes         |
//! | [`Polled::Failed`]             | any other known status, or a step that failed      |
//!
//! The two settled outcomes consume the request, so nothing is left to poll
//! once a fetch has an answer.

use crate::error::FetchError;
use vstd::prelude::*;

verus! {

/// The ready state that the host reports once an exchange is complete.
pub const DONE: u16 = 4;

/// Where a request that has no answer yet stands.
#[derive(Clone, Copy, Debug, PartialEq, Eq, Hash, Structural)]
pub enum RequestState {
    /// Nothing has been asked of the host.
    Unbuilt,
    /// The host has constructed the request object.
    Built,
    /// A GET request is open on the URL.
    Opened,
    /// The response type is set to binary: the request is ready to go out.
    Created,
    /// The request is dispatched and has not been polled.
    Sent,
    /// The request has been polled and its response was not complete.
    Pending,
}

/// What the host is to do next for a request.
#[derive(Clone, Copy, Debug, PartialEq, Eq, Hash, Structural)]
pub enum Action {
    /// Construct the request object.
    Construct,
    /// Open the request, with [`Request::method`] on [`Request::url`].
    Open,
    /// Ask for the response as a binary buffer.
    SetBinaryResponse,
    /// Dispatch the request.
    Send,
    /// Have the runtime woken when the exchange loads or fails, then report as for `Observe`.
    Watch,
    /// Report the status, the ready state and the response.
    Observe,
}

/// The response as the host holds it at the moment of a poll.
#[derive(Debug, PartialEq, Eq)]
pub enum Response {
    /// The host did not hand the response over.
    Unavailable,
    /// A binary body, and its bytes.
    Bytes(Vec<u8>),
    /// A binary object whose bytes could not be taken out.
    Uncastable,
    /// A value that is no binary object.
    Unknown,
}

/// What the host reports of an exchange at one poll.
#[derive(Debug, PartialEq, Eq)]
pub struct Observation {
    /// The HTTP status, 0 while none is known.
    pub status: u16,
    /// The ready state, [`DONE`] once the exchange is complete.
    pub ready_state: u16,
    /// The response, read only where the status and the ready state call for it.
    pub response: Response,
}

/// A single fetch that has no answer yet.
#[derive(Debug, PartialEq, Eq)]
pub struct Request {
    url: String,
    state: RequestState,
}

/// A request as contracts see it.
pub ghost struct RequestView {
    pub url: Seq<char>,
    pub state: RequestState,
}

impl View for Request {
    type V = RequestView;

    closed spec fn view(&self) -> RequestView {
        RequestView { url: self.url@, state: self.state }
    }
}

/// What a poll found.
#[derive(Debug, PartialEq, Eq)]
pub enum Polled {
    /// No answer yet: the request, to be polled again.
    Pending(Request),
    /// The body of the response.
    Succeeded(Vec<u8>),
    /// The fetch is over and has no bytes to show.
    Failed(FetchError),
}

/// The outcome of a poll as contracts see it.
pub ghost enum PolledView {
    Pending(RequestView),
    Succeeded(Seq<u8>),
    Failed(FetchError),
}

impl View for Polled {
    type V = PolledView;

    open spec fn view(&self) -> PolledView {
        match self {
            Polled::Pending(request) => PolledView::Pending(request@),
            Polled::Succeeded(bytes) => PolledView::Succeeded(bytes@),
            Polled::Failed(error) => PolledView::Failed(*error),
        }
    }
}

/// Whether a request in this state still waits for a step of its setup.
pub open spec fn in_setup(state: RequestState) -> bool {
    state is Unbuilt || state is Built || state is Opened || state is Created
}

/// Whether a request in this state is on its way: dispatched, and not answered.
pub open spec fn in_flight(state: RequestState) -> bool {
    state is Sent || state is Pending
}

/// The step that the host takes next for a request in each state.
pub open spec fn next_action(state: RequestState) -> Action {
    match state {
        RequestState::Unbuilt => Action::Construct,
        RequestState::Built => Action::Open,
        RequestState::Opened => Action::SetBinaryResponse,
        RequestState::Created => Action::Send,
        RequestState::Sent => Action::Watch,
        RequestState::Pending => Action::Observe,
    }
}

/// The state that a step of the setup leads to when it succeeds.
pub open spec fn after_step(state: RequestState) -> RequestState {
    match state {
        RequestState::Unbuilt => RequestState::Built,
        RequestState::Built => RequestState::Opened,
        RequestState::Opened => RequestState::Created,
        RequestState::Created => RequestState::Sent,
        RequestState::Sent => RequestState::Sent,
        RequestState::Pending => RequestState::Pending,
    }
}

/// The error that a step of the setup ends in when it fails.
pub open spec fn step_error(state: RequestState) -> FetchError {
    match state {
        RequestState::Unbuilt => FetchError::CreateFailed,
        RequestState::Built => FetchError::OpenFailed,
        RequestState::Opened => FetchError::ResponseTypeFailed,
        _ => FetchError::SendFailed,
    }
}

/// The request that `make_request` returns for a URL.
pub open spec fn fresh(url: Seq<char>) -> RequestView {
    RequestView { url, state: RequestState::Unbuilt }
}

/// What becomes of a request when the host reports on the step it was asked
/// for: during the setup a success moves it on and a failure ends it; a
/// request that is in flight has no step left and stays as it is.
pub open spec fn step(request: RequestView, succeeded: bool) -> Result<RequestView, FetchError> {
    if in_flight(request.state) || succeeded {
        Ok(RequestView { url: request.url, state: after_step(request.state) })
    } else {
        Err(step_error(request.state))
    }
}

/// The hundreds of a status: 2 for 200..=299, 0 while no status is known.
pub open spec fn status_class(status: u16) -> int {
    status as int / 100
}

/// Whether a report says that a successful response is there in full.
pub open spec fn complete(observed: Observation) -> bool {
    status_class(observed.status) == 2 && observed.ready_state == DONE
}

/// Whether a report says neither that the response is complete nor that the fetch has failed.
pub open spec fn waiting(observed: Observation) -> bool {
    !complete(observed) && (status_class(observed.status) == 2 || status_class(observed.status)
        == 0)
}

/// The bytes of a response, or why it has none.
pub open spec fn body(response: Response) -> Result<Seq<u8>, FetchError> {
    match response {
        Response::Bytes(bytes) => Ok(bytes@),
        Response::Unavailable => Err(FetchError::NoResponse),
        Response::Uncastable => Err(FetchError::CastFailed),
        Response::Unknown => Err(FetchError::UnknownEncoding),
    }
}

/// What one poll makes of a request and a report.
///
/// A request still in its setup was never dispatched, so it has nothing to
/// show whatever the report says. For one in flight the report decides: a
/// complete response settles the fetch with its body, a status of class 2 or 0
/// leaves it pending, and any other status fails it.
pub open spec fn poll(request: RequestView, observed: Observation) -> PolledView {
    if in_setup(request.state) {
        PolledView::Pending(request)
    } else if complete(observed) {
        match body(observed.response) {
            Ok(bytes) => PolledView::Succeeded(bytes),
            Err(error) => PolledView::Failed(error),
        }
    } else if waiting(observed) {
        PolledView::Pending(RequestView { url: request.url, state: RequestState::Pending })
    } else {
        PolledView::Failed(FetchError::BadStatus(observed.status))
    }
}

/// The view of what `create_request` returns.
pub open spec fn created_view(created: Result<Request, FetchError>) -> Result<
    RequestView,
    FetchError,
> {
    match created {
        Ok(request) => Ok(request@),
        Err(error) => Err(error),
    }
}

impl Request {
    /// The URL that the request goes to.
    pub fn url(&self) -> (url: &str)
        ensures
            url@ == self@.url,
    {
        self.url.as_str()
    }

    /// The HTTP method of the request: always GET.
    pub fn method(&self) -> (method: &'static str)
        ensures
            method@ == "GET"@,
    {
        "GET"
    }

    /// Where the request stands.
    pub fn state(&self) -> (state: RequestState)
        ensures
            state == self@.state,
    {
        self.state
    }

    /// What the host is to do next for the request.
    pub fn action(&self) -> (action: Action)
        ensures
            action == next_action(self@.state),
    {
        match self.state {
            RequestState::Unbuilt => Action::Construct,
            RequestState::Built => Action::Open,
            RequestState::Opened => Action::SetBinaryResponse,
            RequestState::Created => Action::Send,
            RequestState::Sent => Action::Watch,
            RequestState::Pending => Action::Observe,
        }
    }
}

impl Response {
    /// Takes the bytes out of a response that has any.
    pub fn into_bytes(self) -> (bytes: Result<Vec<u8>, FetchError>)
        ensures
            match body(self) {
                Ok(expected) => bytes matches Ok(found) && found@ == expected,
                Err(error) => bytes == Err::<Vec<u8>, FetchError>(error),
            },
    {
        match self {
            Response::Bytes(bytes) => Ok(bytes),
            Response::Unavailable => Err(FetchError::NoResponse),
            Response::Uncastable => Err(FetchError::CastFailed),
            Response::Unknown => Err(FetchError::UnknownEncoding),
        }
    }
}

/// Turns the failure of a step on the host's side, whatever it is, into the
/// error that stands for that step; a success passes through.
pub fn web_try<T, E>(result: Result<T, E>, error: FetchError) -> (tried: Result<T, FetchError>)
    ensures
        tried == match result {
            Ok(value) => Ok::<T, FetchError>(value),
            Err(_) => Err::<T, FetchError>(error),
        },
{
    match result {
        Ok(value) => Ok(value),
        Err(_) => Err(error),
    }
}

/// Begins a fetch of `path`, read as a URL: a request of which nothing has
/// been asked of the host yet.
pub fn make_request(path: &str) -> (request: Request)
    ensures
        request@ == fresh(path@),
{
    Request { url: path.to_owned(), state: RequestState::Unbuilt }
}

/// Takes the outcome of the step that [`Request::action`] asked for during the
/// setup: construct, open, set the response type, send, in that order.
///
/// A success moves the request one state on, and the fourth leaves it sent. A
/// failure ends the fetch with the error of the step that failed. A request
/// that is already in flight comes back as it is.
pub fn create_request<E>(request: Request, outcome: Result<(), E>) -> (created: Result<
    Request,
    FetchError,
>)
    ensures
        created_view(created) == step(request@, outcome is Ok),
{
    let (next, error) = match request.state {
        RequestState::Unbuilt => (RequestState::Built, FetchError::CreateFailed),
        RequestState::Built => (RequestState::Opened, FetchError::OpenFailed),
        RequestState::Opened => (RequestState::Created, FetchError::ResponseTypeFailed),
        RequestState::Created => (RequestState::Sent, FetchError::SendFailed),
        RequestState::Sent | RequestState::Pending => { return Ok(request); },
    };
    match web_try(outcome, error) {
        Ok(()) => Ok(Request { url: request.url, state: next }),
        Err(error) => Err(error),
    }
}

/// Polls a request once, with what the host reports of the exchange.
///
/// Status 2xx with ready state [`DONE`] settles the fetch with the bytes of the
/// response, or with the reason why the response has none. Status 2xx before
/// that, or a status below 100, leaves the request pending. Any other status
/// fails the fetch at once. A request that was never sent has nothing to
/// show, and comes back as it is.
pub fn poll_request(request: Request, observed: Observation) -> (polled: Polled)
    ensures
        polled@ == poll(request@, observed),
{
    match request.state {
        RequestState::Sent | RequestState::Pending => {
            let class: u16 = observed.status / 100;
            if class == 2 && observed.ready_state == DONE {
                match observed.response.into_bytes() {
                    Ok(bytes) => Polled::Succeeded(bytes),
                    Err(error) => Polled::Failed(error),
                }
            } else if class == 2 || class == 0 {
                Polled::Pending(Request { url: request.url, state: RequestState::Pending })
            } else {
                Polled::Failed(FetchError::BadStatus(observed.status))
            }
        },
        _ => Polled::Pending(request),
    }
}

} // verus!
