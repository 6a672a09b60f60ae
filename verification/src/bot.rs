//! The client: it owns the bot's token and an HTTP client, says where each
//! request goes and what it carries, and makes sense of what came back.
//!
//! The exchange itself is the caller's: the client neither connects nor
//! waits. A caller sends the request that the client describes, with the
//! HTTP client that the client holds, and hands the outcome back.

use crate::decimal::{decimal, push_decimal};
use crate::encode::request_json;
use crate::envelope::{answers, message_from_envelope, message_in, updates_from_envelope, updates_in};
use crate::error::{RequestFailure, TelegramError};
use crate::json::{json_parse, json_text, parse, render};
use crate::types::{Message, SendMessageRequest, Update};
use vstd::prelude::*;
use vstd::string::*;

verus! {

/// `reqwest::Client`, held for the caller to make the exchanges with.
#[verifier::external_type_specification]
#[verifier::external_body]
pub struct ExClient(reqwest::Client);

/// The ceiling, in seconds, on every exchange made with the client's HTTP client.
pub const REQUEST_TIMEOUT_SECS: u64 = 30;

/// Where the method `method` of the bot with token `token` is called.
pub open spec fn api_url_of(token: Seq<char>, method: Seq<char>) -> Seq<char> {
    "https://api.telegram.org/bot"@ + token + "/"@ + method
}

/// Where updates are fetched: the cursor is a query parameter where one is
/// given, and is left out altogether where none is.
pub open spec fn get_updates_url_of(token: Seq<char>, offset: Option<i64>) -> Seq<char> {
    match offset {
        Some(n) => api_url_of(token, "getUpdates"@) + "?offset="@ + decimal(n as int),
        None => api_url_of(token, "getUpdates"@),
    }
}

/// The total timeout of each request made with a client, in whole seconds,
/// where the client was built with one.
pub uninterp spec fn client_timeout_secs(client: reqwest::Client) -> Option<u64>;

/// `reqwest::ClientBuilder::build`, on a builder whose only setting is
/// `timeout`, a total timeout of `timeout_secs` seconds for each request.
/// Whether a client can be built is up to the platform; one that is built
/// has that timeout.
#[verifier::external_body]
fn build_client(timeout_secs: u64) -> (built: Result<reqwest::Client, reqwest::Error>)
    ensures
        built matches Ok(client) ==> client_timeout_secs(client) == Some(timeout_secs),
{
    reqwest::Client::builder().timeout(std::time::Duration::from_secs(timeout_secs)).build()
}

/// A client of the bot API.
pub struct Bot {
    token: String,
    client: reqwest::Client,
}

impl Bot {
    /// The bot's token.
    pub closed spec fn token(&self) -> Seq<char> {
        self.token@
    }

    /// The HTTP client the bot holds.
    pub closed spec fn http(&self) -> reqwest::Client {
        self.client
    }

    /// A client for the bot with the given token, with an HTTP client that
    /// gives up on a request after [`REQUEST_TIMEOUT_SECS`] seconds.
    ///
    /// Fails only where no HTTP client can be built.
    pub fn new(token: String) -> (r: Result<Bot, TelegramError>)
        ensures
            match r {
                Ok(bot) => bot.token() == token@ && client_timeout_secs(bot.http()) == Some(
                    REQUEST_TIMEOUT_SECS,
                ),
                Err(e) => e matches TelegramError::RequestError(RequestFailure::Http(_)),
            },
    {
        Bot::with_client(token, build_client(REQUEST_TIMEOUT_SECS))
    }

    /// A client for the bot with the given token around the outcome of
    /// building an HTTP client.
    pub fn with_client(token: String, built: Result<reqwest::Client, reqwest::Error>) -> (r: Result<
        Bot,
        TelegramError,
    >)
        ensures
            match built {
                Ok(client) => r is Ok && r->Ok_0.token() == token@ && r->Ok_0.http() == client,
                Err(e) => r is Err && r->Err_0 == TelegramError::transport(e),
            },
    {
        match built {
            Ok(client) => Ok(Bot { token, client }),
            Err(e) => Err(TelegramError::from(e)),
        }
    }

    /// The HTTP client to make the exchanges with.
    pub fn client(&self) -> (client: &reqwest::Client)
        ensures
            *client == self.http(),
    {
        &self.client
    }

    /// Where the method `method` is called.
    pub fn api_url(&self, method: &str) -> (url: String)
        ensures
            url@ == api_url_of(self.token(), method@),
    {
        let mut url = String::from_str("https://api.telegram.org/bot");
        url.append(self.token.as_str());
        url.append("/");
        url.append(method);
        url
    }

    /// Where updates are fetched, with a `GET`.
    pub fn get_updates_url(&self, offset: Option<i64>) -> (url: String)
        ensures
            url@ == get_updates_url_of(self.token(), offset),
    {
        let mut url = self.api_url("getUpdates");
        if let Some(n) = offset {
            url.append("?offset=");
            push_decimal(&mut url, n);
        }
        url
    }

    /// The updates fetched, given what the exchange brought back: the body
    /// of the answer, or the failure of the transport.
    ///
    /// A failed exchange and a body that is not JSON are request errors. A
    /// refusal by the service is an API error. Anything else yields the
    /// updates found, none where the result is missing or malformed.
    pub fn get_updates(&self, reply: Result<Vec<u8>, reqwest::Error>) -> (r: Result<
        Vec<Update>,
        TelegramError,
    >)
        ensures
            match reply {
                Err(e) => r is Err && r->Err_0 == TelegramError::transport(e),
                Ok(body) => match json_parse(body@) {
                    None => r is Err && r->Err_0 matches TelegramError::RequestError(
                        RequestFailure::Json(_),
                    ),
                    Some(envelope) => answers(r, updates_in(envelope)),
                },
            },
    {
        match reply {
            Err(e) => Err(TelegramError::from(e)),
            Ok(body) => match parse(body.as_slice()) {
                Err(e) => Err(TelegramError::from(e)),
                Ok(envelope) => updates_from_envelope(&envelope),
            },
        }
    }

    /// Where a message is sent, with a `POST`.
    pub fn send_message_url(&self) -> (url: String)
        ensures
            url@ == api_url_of(self.token(), "sendMessage"@),
    {
        self.api_url("sendMessage")
    }

    /// The body to send for `request`: the text of its JSON object. Every
    /// request has one.
    pub fn send_message_body(&self, request: &SendMessageRequest) -> (r: Result<
        Vec<u8>,
        TelegramError,
    >)
        ensures
            r is Ok,
            r->Ok_0@ == json_text(request_json(request@)),
    {
        match render(&request.to_value()) {
            Ok(body) => Ok(body),
            Err(e) => Err(TelegramError::from(e)),
        }
    }

    /// The message sent, given what the exchange brought back: the body of
    /// the answer, or the failure of the transport.
    ///
    /// A failed exchange and a body that is not JSON are request errors. A
    /// refusal by the service is an API error, and so is an answer whose
    /// result is missing or is no message.
    pub fn send_message(&self, reply: Result<Vec<u8>, reqwest::Error>) -> (r: Result<
        Message,
        TelegramError,
    >)
        ensures
            match reply {
                Err(e) => r is Err && r->Err_0 == TelegramError::transport(e),
                Ok(body) => match json_parse(body@) {
                    None => r is Err && r->Err_0 matches TelegramError::RequestError(
                        RequestFailure::Json(_),
                    ),
                    Some(envelope) => answers(r, message_in(envelope)),
                },
            },
    {
        match reply {
            Err(e) => Err(TelegramError::from(e)),
            Ok(body) => match parse(body.as_slice()) {
                Err(e) => Err(TelegramError::from(e)),
                Ok(envelope) => message_from_envelope(&envelope),
            },
        }
    }
}

} // verus!
