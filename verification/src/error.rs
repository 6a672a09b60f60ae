//! How an operation of the client fails.

use vstd::prelude::*;
use vstd::std_specs::convert::FromSpecImpl;

verus! {

/// `reqwest::Error`, carried through as it comes.
#[verifier::external_type_specification]
#[verifier::external_body]
pub struct ExHttpError(reqwest::Error);

/// What `reqwest::Error::without_url` makes of a failure: the same failure
/// with no URL attached.
pub uninterp spec fn without_url(error: reqwest::Error) -> reqwest::Error;

/// `reqwest::Error::without_url`: takes the URL, if there is one, out of
/// the failure and changes nothing else of it.
pub assume_specification[ reqwest::Error::without_url ](error: reqwest::Error) -> (stripped:
    reqwest::Error)
    ensures
        stripped == without_url(error),
;

/// What went wrong below the level of the remote service's own answers.
#[derive(Debug)]
pub enum RequestFailure {
    /// The HTTP client could not be built, or the exchange did not complete.
    /// No URL is attached to the failure: the URL of a request holds the
    /// bot's token, which must not show in what is displayed of an error.
    Http(reqwest::Error),
    /// A body was not JSON text, or could not be written as JSON text.
    Json(serde_json::Error),
}

/// The two kinds of failure of the client.
#[derive(Debug)]
pub enum TelegramError {
    /// Transport or configuration failed; nothing is known of the service's answer.
    RequestError(RequestFailure),
    /// The service answered and refused, or its answer to a send held no
    /// usable message. The text is meant for display.
    ApiError(String),
}

impl TelegramError {
    /// Whether this is a failure the service itself reported or caused.
    pub open spec fn is_api(&self) -> bool {
        self is ApiError
    }

    /// The description carried by an API error.
    pub open spec fn description(&self) -> Seq<char>
        recommends
            self.is_api(),
    {
        self->ApiError_0@
    }
}

impl TelegramError {
    /// The request error that a failure of the transport becomes.
    pub open spec fn transport(error: reqwest::Error) -> TelegramError {
        TelegramError::RequestError(RequestFailure::Http(without_url(error)))
    }
}

impl From<reqwest::Error> for TelegramError {
    /// A failure of the transport as a request error, with its URL taken out.
    fn from(error: reqwest::Error) -> (e: TelegramError) {
        TelegramError::RequestError(RequestFailure::Http(error.without_url()))
    }
}

impl FromSpecImpl<reqwest::Error> for TelegramError {
    open spec fn obeys_from_spec() -> bool {
        true
    }

    open spec fn from_spec(error: reqwest::Error) -> TelegramError {
        TelegramError::transport(error)
    }
}

impl From<serde_json::Error> for TelegramError {
    fn from(error: serde_json::Error) -> (e: TelegramError) {
        TelegramError::RequestError(RequestFailure::Json(error))
    }
}

impl FromSpecImpl<serde_json::Error> for TelegramError {
    open spec fn obeys_from_spec() -> bool {
        true
    }

    open spec fn from_spec(error: serde_json::Error) -> TelegramError {
        TelegramError::RequestError(RequestFailure::Json(error))
    }
}

} // verus!
