//! The errors that loading and saving end in.

use vstd::prelude::*;

verus! {

/// The error of `serde_json`, which this library carries and never looks into.
#[verifier::external_type_specification]
#[verifier::external_body]
pub struct ExSerdeJsonError(serde_json::Error);

/// Why a fetch came to nothing.
#[derive(Clone, Copy, Debug, PartialEq, Eq, Hash, Structural)]
pub enum FetchError {
    /// The host could not construct a request object.
    CreateFailed,
    /// The host refused to open a GET request on the URL.
    OpenFailed,
    /// The host refused to answer with a binary body.
    ResponseTypeFailed,
    /// The host could not dispatch the request.
    SendFailed,
    /// The server answered with a status outside 200..=299; the status observed.
    BadStatus(u16),
    /// The exchange is complete, but the host did not hand the response over.
    NoResponse,
    /// The response is a binary object whose bytes could not be taken out.
    CastFailed,
    /// The response is not a binary object at all.
    UnknownEncoding,
}

/// The numeral of a digit.
pub open spec fn digit(value: nat) -> char {
    if value == 0 {
        '0'
    } else if value == 1 {
        '1'
    } else if value == 2 {
        '2'
    } else if value == 3 {
        '3'
    } else if value == 4 {
        '4'
    } else if value == 5 {
        '5'
    } else if value == 6 {
        '6'
    } else if value == 7 {
        '7'
    } else if value == 8 {
        '8'
    } else {
        '9'
    }
}

/// A number in decimal, without leading zeros.
pub open spec fn decimal(number: nat) -> Seq<char>
    decreases number,
{
    if number < 10 {
        seq![digit(number)]
    } else {
        decimal(number / 10).push(digit(number % 10))
    }
}

fn digit_text(value: u16) -> (text: &'static str)
    requires
        value < 10,
    ensures
        text@ == seq![digit(value as nat)],
{
    proof {
        reveal_strlit("0");
        reveal_strlit("1");
        reveal_strlit("2");
        reveal_strlit("3");
        reveal_strlit("4");
        reveal_strlit("5");
        reveal_strlit("6");
        reveal_strlit("7");
        reveal_strlit("8");
        reveal_strlit("9");
    }
    match value {
        0 => "0",
        1 => "1",
        2 => "2",
        3 => "3",
        4 => "4",
        5 => "5",
        6 => "6",
        7 => "7",
        8 => "8",
        _ => "9",
    }
}

fn decimal_text(number: u16) -> (text: String)
    ensures
        text@ == decimal(number as nat),
    decreases number,
{
    if number < 10 {
        digit_text(number).to_owned()
    } else {
        decimal_text(number / 10).concat(digit_text(number % 10))
    }
}

impl FetchError {
    /// The description of each error, as text; that of a bad status ends in
    /// the status.
    pub open spec fn description(self) -> Seq<char> {
        match self {
            FetchError::CreateFailed => "Failed to create an HTTP request"@,
            FetchError::OpenFailed => "Failed to create a GET request"@,
            FetchError::ResponseTypeFailed => "Failed to set the response type"@,
            FetchError::SendFailed => "Failed to send a GET request"@,
            FetchError::BadStatus(status) => "Non-200 status code returned: "@ + decimal(
                status as nat,
            ),
            FetchError::NoResponse => "Failed to get HTTP response"@,
            FetchError::CastFailed => "Failed to cast file into bytes"@,
            FetchError::UnknownEncoding => "Unknown file encoding type"@,
        }
    }

    /// A description of the error for a person to read; where the status was
    /// bad, it ends in the status.
    pub fn message(&self) -> (text: String)
        ensures
            text@ == self.description(),
    {
        match self {
            FetchError::CreateFailed => "Failed to create an HTTP request".to_owned(),
            FetchError::OpenFailed => "Failed to create a GET request".to_owned(),
            FetchError::ResponseTypeFailed => "Failed to set the response type".to_owned(),
            FetchError::SendFailed => "Failed to send a GET request".to_owned(),
            FetchError::BadStatus(status) => "Non-200 status code returned: ".to_owned().concat(
                decimal_text(*status).as_str(),
            ),
            FetchError::NoResponse => "Failed to get HTTP response".to_owned(),
            FetchError::CastFailed => "Failed to cast file into bytes".to_owned(),
            FetchError::UnknownEncoding => "Unknown file encoding type".to_owned(),
        }
    }
}

/// Why a value could not be saved or loaded.
#[derive(Debug)]
pub enum SaveError {
    /// The value could not be turned into text, or the text back into a value.
    SerdeError(serde_json::Error),
    /// The storage area could not be had.
    SaveLocationNotFound,
    /// Nothing is stored under the profile; the profile asked for.
    SaveNotFound(String),
    /// The storage area refused the write.
    SaveWriteFailed,
    /// The text stored is no encoding of raw bytes.
    DecodeError,
}

/// An error of saving as contracts see it.
pub ghost enum SaveErrorView {
    SerdeError(serde_json::Error),
    SaveLocationNotFound,
    SaveNotFound(Seq<char>),
    SaveWriteFailed,
    DecodeError,
}

impl View for SaveError {
    type V = SaveErrorView;

    open spec fn view(&self) -> SaveErrorView {
        match self {
            SaveError::SerdeError(error) => SaveErrorView::SerdeError(*error),
            SaveError::SaveLocationNotFound => SaveErrorView::SaveLocationNotFound,
            SaveError::SaveNotFound(profile) => SaveErrorView::SaveNotFound(profile@),
            SaveError::SaveWriteFailed => SaveErrorView::SaveWriteFailed,
            SaveError::DecodeError => SaveErrorView::DecodeError,
        }
    }
}

/// The view of a result of saving or loading.
pub open spec fn outcome<T: View>(result: Result<T, SaveError>) -> Result<T::V, SaveErrorView> {
    match result {
        Ok(value) => Ok(value@),
        Err(error) => Err(error@),
    }
}

impl SaveErrorView {
    /// The description of each error, as text.
    pub open spec fn description(self) -> Seq<char> {
        match self {
            SaveErrorView::SerdeError(_) => "The value could not be serialized or deserialized"@,
            SaveErrorView::SaveLocationNotFound => "The storage location could not be found"@,
            SaveErrorView::SaveNotFound(profile) => "No value is stored under the profile "@
                + profile,
            SaveErrorView::SaveWriteFailed => "The value could not be written to storage"@,
            SaveErrorView::DecodeError => "The stored value could not be decoded"@,
        }
    }
}

impl SaveError {
    /// A description of the error for a person to read; where a profile was
    /// not found, it ends in the profile's name.
    pub fn message(&self) -> (text: String)
        ensures
            text@ == self@.description(),
    {
        match self {
            SaveError::SerdeError(_) => "The value could not be serialized or deserialized".to_owned(),
            SaveError::SaveLocationNotFound => "The storage location could not be found".to_owned(),
            SaveError::SaveNotFound(profile) => "No value is stored under the profile ".to_owned().concat(
                profile.as_str(),
            ),
            SaveError::SaveWriteFailed => "The value could not be written to storage".to_owned(),
            SaveError::DecodeError => "The stored value could not be decoded".to_owned(),
        }
    }
}

impl From<serde_json::Error> for SaveError {
    fn from(error: serde_json::Error) -> (converted: SaveError) {
        SaveError::SerdeError(error)
    }
}

impl vstd::std_specs::convert::FromSpecImpl<serde_json::Error> for SaveError {
    open spec fn obeys_from_spec() -> bool {
        true
    }

    open spec fn from_spec(error: serde_json::Error) -> SaveError {
        SaveError::SerdeError(error)
    }
}

} // verus!
