//! Writing a request as a JSON document.

use crate::json::{int_value, json_view, no_members, object_value, str_value, Json};
use crate::types::{SendMessageRequest, SendMessageRequestView};
use vstd::prelude::*;
use vstd::string::*;

verus! {

/// The members of the body of a send: the chat and the text always, the
/// message replied to and the parse mode only where they are set.
pub open spec fn request_members(request: SendMessageRequestView) -> Map<Seq<char>, Json> {
    let required = no_members().insert("chat_id"@, Json::Int(request.chat_id as int)).insert(
        "text"@,
        Json::Str(request.text),
    );
    let replying = match request.reply_to_message_id {
        Some(id) => required.insert("reply_to_message_id"@, Json::Int(id as int)),
        None => required,
    };
    match request.parse_mode {
        Some(mode) => replying.insert("parse_mode"@, Json::Str(mode)),
        None => replying,
    }
}

/// The body of a send, as a document.
pub open spec fn request_json(request: SendMessageRequestView) -> Json {
    Json::Object(request_members(request))
}

impl SendMessageRequest {
    /// The request as a JSON object.
    pub fn to_value(&self) -> (value: serde_json::Value)
        ensures
            json_view(value) == request_json(self@),
    {
        let mut members = serde_json::Map::new();
        let _ = members.insert(String::from_str("chat_id"), int_value(self.chat_id));
        let _ = members.insert(String::from_str("text"), str_value(self.text.as_str()));
        if let Some(id) = self.reply_to_message_id {
            let _ = members.insert(String::from_str("reply_to_message_id"), int_value(id));
        }
        if let Some(mode) = &self.parse_mode {
            let _ = members.insert(String::from_str("parse_mode"), str_value(mode.as_str()));
        }
        object_value(members)
    }
}

} // verus!
