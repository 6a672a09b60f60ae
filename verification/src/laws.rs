//! What holds of every request and every answer.

use crate::bot::{api_url_of, get_updates_url_of};
use crate::decimal::{decimal, lemma_decimal_decides_the_number};
use crate::decode::FromJson;
use crate::encode::request_members;
use crate::envelope::{message_in, updates_in};
use crate::json::{json_member, Json};
use crate::types::{Chat, Message, MessageView, SendMessageRequestView, Update, UpdateView, User};
use vstd::prelude::*;

verus! {

/// The body of a send holds the chat and the text as given. A field that
/// is unset is absent from it, not `null`; a field that is set is present
/// with the value given. It holds nothing else.
pub proof fn lemma_body_holds_what_is_set(request: SendMessageRequestView)
    ensures
        json_member(Json::Object(request_members(request)), "chat_id"@) == Some(
            Json::Int(request.chat_id as int),
        ),
        json_member(Json::Object(request_members(request)), "text"@) == Some(
            Json::Str(request.text),
        ),
        json_member(Json::Object(request_members(request)), "reply_to_message_id"@)
            == match request.reply_to_message_id {
            Some(id) => Some(Json::Int(id as int)),
            None => None,
        },
        json_member(Json::Object(request_members(request)), "parse_mode"@)
            == match request.parse_mode {
            Some(mode) => Some(Json::Str(mode)),
            None => None,
        },
        forall|key: Seq<char>| #[trigger]
            request_members(request).contains_key(key) ==> key == "chat_id"@ || key == "text"@
                || key == "reply_to_message_id"@ || key == "parse_mode"@,
{
    reveal_strlit("chat_id");
    reveal_strlit("text");
    reveal_strlit("reply_to_message_id");
    reveal_strlit("parse_mode");
    assert("chat_id"@.len() == 7);
    assert("text"@.len() == 4);
    assert("reply_to_message_id"@.len() == 19);
    assert("parse_mode"@.len() == 10);
}

/// Without a cursor the URL of a fetch ends with the method's name: it has
/// no query. With a cursor it is that URL followed by `?offset=` and the
/// cursor in decimal, so the two are never the same URL.
pub proof fn lemma_offset_is_sent_only_when_given(token: Seq<char>, n: i64)
    ensures
        get_updates_url_of(token, None) == api_url_of(token, "getUpdates"@),
        get_updates_url_of(token, Some(n)) == get_updates_url_of(token, None) + "?offset="@
            + decimal(n as int),
        get_updates_url_of(token, Some(n)) != get_updates_url_of(token, None),
{
    reveal_strlit("?offset=");
    let without = get_updates_url_of(token, None);
    let with = get_updates_url_of(token, Some(n));
    assert(with.len() == without.len() + 8 + decimal(n as int).len());
}

/// The URL of a fetch tells the cursor: two fetches of one bot go to the
/// same URL only where both have the same cursor, or both have none.
pub proof fn lemma_url_tells_the_cursor(token: Seq<char>, a: Option<i64>, b: Option<i64>)
    requires
        get_updates_url_of(token, a) == get_updates_url_of(token, b),
    ensures
        a == b,
{
    reveal_strlit("?offset=");
    let base = api_url_of(token, "getUpdates"@);
    match (a, b) {
        (Some(m), Some(n)) => {
            let x = "?offset="@ + decimal(m as int);
            let y = "?offset="@ + decimal(n as int);
            assert(get_updates_url_of(token, a) == base + x);
            assert(get_updates_url_of(token, b) == base + y);
            assert((base + x).subrange(base.len() as int, (base + x).len() as int) == x);
            assert((base + y).subrange(base.len() as int, (base + y).len() as int) == y);
            assert(x.subrange(8, x.len() as int) == decimal(m as int));
            assert(y.subrange(8, y.len() as int) == decimal(n as int));
            lemma_decimal_decides_the_number(m as int, n as int);
        },
        (Some(m), None) => {
            assert(get_updates_url_of(token, a).len() == base.len() + 8 + decimal(m as int).len());
        },
        (None, Some(n)) => {
            assert(get_updates_url_of(token, b).len() == base.len() + 8 + decimal(n as int).len());
        },
        (None, None) => {},
    }
}

/// A refusal fails both operations alike, with the description the
/// service gave, or with the placeholder where it gave none that is a
/// string. What else the envelope holds makes no difference.
pub proof fn lemma_refusal_fails_both(envelope: Json)
    requires
        json_member(envelope, "ok"@) == Some(Json::Bool(false)),
    ensures
        updates_in(envelope) is Err,
        message_in(envelope) is Err,
        updates_in(envelope)->Err_0 == message_in(envelope)->Err_0,
        match json_member(envelope, "description"@) {
            Some(Json::Str(text)) => message_in(envelope)->Err_0 == text,
            _ => message_in(envelope)->Err_0 == "Unknown API error"@,
        },
{
}

/// An envelope that is no refusal and whose result is an array of updates
/// yields as many updates as the array holds, each decoded from the
/// element at its own position.
pub proof fn lemma_updates_keep_their_order(envelope: Json, items: Seq<Json>)
    requires
        json_member(envelope, "ok"@) != Some(Json::Bool(false)),
        json_member(envelope, "result"@) == Some(Json::Array(items)),
        forall|i: int| 0 <= i < items.len() ==> (#[trigger] Update::decode(items[i])) is Some,
    ensures
        updates_in(envelope) is Ok,
        updates_in(envelope)->Ok_0.len() == items.len(),
        forall|i: int|
            0 <= i < items.len() ==> Some(#[trigger] updates_in(envelope)->Ok_0[i])
                == Update::decode(items[i]),
{
}

/// An envelope that is no refusal yields no updates, and no error, where
/// its result is missing, is no array, or is an array with an element
/// that is no update.
pub proof fn lemma_malformed_updates_are_none(envelope: Json)
    requires
        json_member(envelope, "ok"@) != Some(Json::Bool(false)),
        match json_member(envelope, "result"@) {
            Some(Json::Array(items)) => exists|i: int|
                0 <= i < items.len() && (#[trigger] Update::decode(items[i])) is None,
            _ => true,
        },
    ensures
        updates_in(envelope) == Ok::<Seq<UpdateView>, Seq<char>>(Seq::empty()),
{
}

/// An envelope that is no refusal fails a send where its result is missing
/// or is no message, always with the same complaint; where the result is a
/// message the send yields it.
pub proof fn lemma_send_yields_the_message_or_fails(envelope: Json)
    requires
        json_member(envelope, "ok"@) != Some(Json::Bool(false)),
    ensures
        match json_member(envelope, "result"@) {
            Some(result) => match Message::decode(result) {
                Some(message) => message_in(envelope) == Ok::<MessageView, Seq<char>>(message),
                None => message_in(envelope) == Err::<MessageView, Seq<char>>(
                    "Failed to parse message response"@,
                ),
            },
            None => message_in(envelope) == Err::<MessageView, Seq<char>>(
                "Failed to parse message response"@,
            ),
        },
{
}

/// The fields of a message read from an object are the members of that
/// object: the identifier and the text as they stand, the chat and the
/// sender as they decode. A field that may be unset is unset exactly where
/// the member is missing or `null`.
pub proof fn lemma_message_fields_are_the_members(j: Json, message: MessageView)
    requires
        j is Object,
        Message::decode(j) == Some(message),
    ensures
        json_member(j, "message_id"@) == Some(Json::Int(message.message_id as int)),
        json_member(j, "chat"@) is Some,
        Chat::decode(json_member(j, "chat"@)->0) == Some(message.chat),
        match message.text {
            Some(text) => json_member(j, "text"@) == Some(Json::Str(text)),
            None => json_member(j, "text"@) is None || json_member(j, "text"@) == Some(Json::Null),
        },
        match message.from {
            Some(user) => json_member(j, "from"@) is Some && User::decode(
                json_member(j, "from"@)->0,
            ) == Some(user),
            None => json_member(j, "from"@) is None || json_member(j, "from"@) == Some(Json::Null),
        },
{
}

} // verus!
