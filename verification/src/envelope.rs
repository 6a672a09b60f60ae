//! The envelope that wraps every answer of the remote service: an object
//! with an `ok` flag, the `result` of the call and, on refusal, a
//! `description`.

use crate::decode::FromJson;
use crate::error::TelegramError;
use crate::json::{json_member, json_view, member, Json};
use crate::types::{Message, MessageView, Update, UpdateView};
use vstd::prelude::*;
use vstd::string::*;

verus! {

/// Whether the service refused the call: the envelope has an `ok` member
/// that is the boolean `false`. An envelope without the flag, or with a
/// flag that is no boolean, is not a refusal.
pub open spec fn refused(envelope: Json) -> bool {
    json_member(envelope, "ok"@) == Some(Json::Bool(false))
}

/// The text that describes a refusal: the `description` member where it is
/// a string, a fixed placeholder otherwise.
pub open spec fn refusal_text(envelope: Json) -> Seq<char> {
    match json_member(envelope, "description"@) {
        Some(Json::Str(text)) => text,
        _ => "Unknown API error"@,
    }
}

/// The typed content of the `result` member, where the envelope has one
/// and it decodes.
pub open spec fn payload<T: FromJson>(envelope: Json) -> Option<T::V> {
    match json_member(envelope, "result"@) {
        Some(result) => T::decode(result),
        None => None,
    }
}

/// What a fetch of updates yields for an envelope: the refusal text, or
/// the updates in the order given. A result that is missing or does not
/// decode counts as no updates.
pub open spec fn updates_in(envelope: Json) -> Result<Seq<UpdateView>, Seq<char>> {
    if refused(envelope) {
        Err(refusal_text(envelope))
    } else {
        match payload::<Vec<Update>>(envelope) {
            Some(updates) => Ok(updates),
            None => Ok(Seq::empty()),
        }
    }
}

/// What a send yields for an envelope: the refusal text, the message that
/// was sent, or a fixed complaint where the result is missing or does not
/// decode.
pub open spec fn message_in(envelope: Json) -> Result<MessageView, Seq<char>> {
    if refused(envelope) {
        Err(refusal_text(envelope))
    } else {
        match payload::<Message>(envelope) {
            Some(message) => Ok(message),
            None => Err("Failed to parse message response"@),
        }
    }
}

/// Whether `r` is the outcome `expected`: the same value on success, an
/// API error with the same text on failure.
pub open spec fn answers<T: DeepView>(
    r: Result<T, TelegramError>,
    expected: Result<T::V, Seq<char>>,
) -> bool {
    match expected {
        Ok(value) => r is Ok && r->Ok_0.deep_view() == value,
        Err(text) => r is Err && r->Err_0 is ApiError && r->Err_0.description() == text,
    }
}

/// Reads the `result` of an envelope as a `T`, unless the service refused.
///
/// Both operations of the client go through this one routine; they differ
/// only in what they make of a result that is missing or does not decode.
pub fn envelope_payload<T: FromJson>(envelope: &serde_json::Value) -> (r: Result<
    Option<T>,
    TelegramError,
>)
    ensures
        match r {
            Ok(found) => !refused(json_view(*envelope)) && found.deep_view() == payload::<T>(
                json_view(*envelope),
            ),
            Err(e) => refused(json_view(*envelope)) && e is ApiError && e.description()
                == refusal_text(json_view(*envelope)),
        },
{
    let flag = match member(envelope, "ok") {
        Some(ok) => ok.as_bool(),
        None => None,
    };
    if let Some(false) = flag {
        let text = match member(envelope, "description") {
            Some(description) => description.as_str(),
            None => None,
        };
        let text = match text {
            Some(text) => String::from_str(text),
            None => String::from_str("Unknown API error"),
        };
        return Err(TelegramError::ApiError(text));
    }
    match member(envelope, "result") {
        Some(result) => Ok(T::from_value(result)),
        None => Ok(None),
    }
}

/// The updates an envelope carries.
pub fn updates_from_envelope(envelope: &serde_json::Value) -> (r: Result<
    Vec<Update>,
    TelegramError,
>)
    ensures
        answers(r, updates_in(json_view(*envelope))),
{
    match envelope_payload::<Vec<Update>>(envelope) {
        Ok(Some(updates)) => Ok(updates),
        Ok(None) => {
            let none: Vec<Update> = Vec::new();
            assert(none.deep_view() =~= Seq::<UpdateView>::empty());
            Ok(none)
        },
        Err(e) => Err(e),
    }
}

/// The message an envelope carries.
pub fn message_from_envelope(envelope: &serde_json::Value) -> (r: Result<Message, TelegramError>)
    ensures
        answers(r, message_in(json_view(*envelope))),
{
    match envelope_payload::<Message>(envelope) {
        Ok(Some(message)) => Ok(message),
        Ok(None) => Err(
            TelegramError::ApiError(String::from_str("Failed to parse message response")),
        ),
        Err(e) => Err(e),
    }
}

} // verus!
