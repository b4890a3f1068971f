//! Error taxonomy of the client.

use vstd::prelude::*;
use vstd::string::StringExecFns;

verus! {

/// Failures returned by the client's operations.
#[derive(Debug, PartialEq, Eq)]
pub enum ClientError {
    /// The HTTP transport could not be constructed.
    HTTPClient,
    /// The configured API version is not one of the supported ones.
    WrongApiVersion,
    /// No API key was configured.
    MissingApiKey,
    /// A failure that fits no other kind; the text carries the diagnosis.
    UnknownError(String),
    /// The request never produced an HTTP response.
    ExternalError(String),
    /// The server rejected the request as malformed.
    BadRequest(String),
    /// The response body does not follow the expected schema.
    ParseError(String),
}

impl ClientError {
    /// The fixed, human-readable description of each kind of failure.
    pub open spec fn description(self) -> Seq<char> {
        match self {
            ClientError::HTTPClient => "An error was found in the internal HTTP Client"@,
            ClientError::WrongApiVersion => "Wrong API version specified"@,
            ClientError::MissingApiKey => "Missing Mailjet API key token"@,
            ClientError::UnknownError(_) => "Unknown error"@,
            ClientError::ExternalError(_) => "External error"@,
            ClientError::BadRequest(_) => "The given data is formatted wrongly"@,
            ClientError::ParseError(_) => "Error found while parsing data"@,
        }
    }

    /// The diagnostic text carried by the failure, if its kind carries one.
    pub open spec fn detail_text(self) -> Option<Seq<char>> {
        match self {
            ClientError::UnknownError(d) => Some(d@),
            ClientError::ExternalError(d) => Some(d@),
            ClientError::BadRequest(d) => Some(d@),
            ClientError::ParseError(d) => Some(d@),
            _ => None,
        }
    }

    /// Returns the description of the failure.
    pub fn message(&self) -> (text: String)
        ensures
            text@ == self.description(),
    {
        match self {
            ClientError::HTTPClient => String::from_str(
                "An error was found in the internal HTTP Client",
            ),
            ClientError::WrongApiVersion => String::from_str("Wrong API version specified"),
            ClientError::MissingApiKey => String::from_str("Missing Mailjet API key token"),
            ClientError::UnknownError(_) => String::from_str("Unknown error"),
            ClientError::ExternalError(_) => String::from_str("External error"),
            ClientError::BadRequest(_) => String::from_str("The given data is formatted wrongly"),
            ClientError::ParseError(_) => String::from_str("Error found while parsing data"),
        }
    }

    /// Returns the diagnostic text of the failure, if its kind carries one.
    pub fn detail(&self) -> (text: Option<&String>)
        ensures
            match text {
                Some(d) => self.detail_text() == Some(d@),
                None => self.detail_text() is None,
            },
    {
        match self {
            ClientError::UnknownError(d) => Some(d),
            ClientError::ExternalError(d) => Some(d),
            ClientError::BadRequest(d) => Some(d),
            ClientError::ParseError(d) => Some(d),
            _ => None,
        }
    }
}

} // verus!
