//! Reading typed records out of JSON documents.
//!
//! A record is read from an object by the names of its fields, or from an
//! array that holds exactly its fields in the order of their declaration.
//! Members of an object that name no field are ignored. A field that may be
//! unset is unset when it is missing from an object or is `null`.

use crate::json::{json_member, json_view, json_views, member, Json};
use crate::types::{Chat, ChatView, Message, MessageView, Update, UpdateView, User, UserView};
use vstd::prelude::*;
use vstd::string::*;

verus! {

/// A value that can be read out of a JSON document.
pub trait FromJson: Sized + DeepView {
    /// What a document decodes to, or `None` where it does not fit.
    spec fn decode(j: Json) -> Option<Self::V>;

    /// What a field of this type decodes to where an object has no member
    /// of its name.
    spec fn absent() -> Option<Self::V>;

    fn from_value(value: &serde_json::Value) -> (r: Option<Self>)
        ensures
            r.deep_view() == Self::decode(json_view(*value)),
    ;

    fn from_absent() -> (r: Option<Self>)
        ensures
            r.deep_view() == Self::absent(),
    ;
}

impl FromJson for i64 {
    open spec fn decode(j: Json) -> Option<i64> {
        match j {
            Json::Int(x) if i64::MIN <= x <= i64::MAX => Some(x as i64),
            _ => None,
        }
    }

    open spec fn absent() -> Option<i64> {
        None
    }

    fn from_value(value: &serde_json::Value) -> (r: Option<i64>) {
        value.as_i64()
    }

    fn from_absent() -> (r: Option<i64>) {
        None
    }
}

impl FromJson for String {
    open spec fn decode(j: Json) -> Option<Seq<char>> {
        match j {
            Json::Str(s) => Some(s),
            _ => None,
        }
    }

    open spec fn absent() -> Option<Seq<char>> {
        None
    }

    fn from_value(value: &serde_json::Value) -> (r: Option<String>) {
        match value.as_str() {
            Some(s) => Some(String::from_str(s)),
            None => None,
        }
    }

    fn from_absent() -> (r: Option<String>) {
        None
    }
}

impl<T: FromJson> FromJson for Option<T> {
    open spec fn decode(j: Json) -> Option<Option<T::V>> {
        if j is Null {
            Some(None)
        } else {
            match T::decode(j) {
                Some(x) => Some(Some(x)),
                None => None,
            }
        }
    }

    open spec fn absent() -> Option<Option<T::V>> {
        Some(None)
    }

    fn from_value(value: &serde_json::Value) -> (r: Option<Option<T>>) {
        if value.is_null() {
            Some(None)
        } else {
            match T::from_value(value) {
                Some(x) => Some(Some(x)),
                None => None,
            }
        }
    }

    fn from_absent() -> (r: Option<Option<T>>) {
        Some(None)
    }
}

impl<T: FromJson> FromJson for Vec<T> {
    /// An array decodes to its elements, in order, where every one of them
    /// decodes; nothing else decodes to a sequence.
    open spec fn decode(j: Json) -> Option<Seq<T::V>> {
        match j {
            Json::Array(items) => if forall|i: int|
                0 <= i < items.len() ==> (#[trigger] T::decode(items[i])) is Some {
                Some(Seq::new(items.len(), |i: int| T::decode(items[i])->0))
            } else {
                None
            },
            _ => None,
        }
    }

    open spec fn absent() -> Option<Seq<T::V>> {
        None
    }

    fn from_value(value: &serde_json::Value) -> (r: Option<Vec<T>>) {
        match value.as_array() {
            None => None,
            Some(items) => {
                let ghost elements = json_views(items@);
                let mut out: Vec<T> = Vec::new();
                let mut i: usize = 0;
                while i < items.len()
                    invariant
                        i <= items.len(),
                        out.len() == i,
                        elements == json_views(items@),
                        json_view(*value) == Json::Array(elements),
                        forall|k: int|
                            0 <= k < i ==> T::decode(#[trigger] elements[k]) == Some(
                                out@[k].deep_view(),
                            ),
                    decreases items.len() - i,
                {
                    match T::from_value(&items[i]) {
                        Some(x) => {
                            out.push(x);
                        },
                        None => {
                            assert(T::decode(elements[i as int]) is None);
                            return None;
                        },
                    }
                    i += 1;
                }
                assert(out.deep_view() =~= Seq::new(
                    elements.len(),
                    |k: int| T::decode(elements[k])->0,
                ));
                Some(out)
            },
        }
    }

    fn from_absent() -> (r: Option<Vec<T>>) {
        None
    }
}

/// Whether a document has the shape of a record of `fields` fields: an
/// array must hold exactly that many elements. A document that is neither
/// an array nor an object has no members at all.
pub open spec fn fits_record(j: Json, fields: nat) -> bool {
    j matches Json::Array(items) ==> items.len() == fields
}

/// The document that stands for one field of a record: the element at the
/// field's position where the record is an array, the member of the
/// field's name where it is an object that has one.
pub open spec fn record_slot(j: Json, index: int, key: Seq<char>) -> Option<Json> {
    match j {
        Json::Array(items) => if 0 <= index < items.len() {
            Some(items[index])
        } else {
            None
        },
        _ => json_member(j, key),
    }
}

/// What one field of a record decodes to.
pub open spec fn decode_field<T: FromJson>(j: Json, index: int, key: Seq<char>) -> Option<T::V> {
    match record_slot(j, index, key) {
        Some(x) => T::decode(x),
        None => T::absent(),
    }
}

fn fits(record: &serde_json::Value, fields: usize) -> (b: bool)
    ensures
        b == fits_record(json_view(*record), fields as nat),
{
    match record.as_array() {
        Some(items) => items.len() == fields,
        None => true,
    }
}

fn field<T: FromJson>(record: &serde_json::Value, index: usize, key: &str) -> (r: Option<T>)
    ensures
        r.deep_view() == decode_field::<T>(json_view(*record), index as int, key@),
{
    match record.as_array() {
        Some(items) => {
            if index < items.len() {
                T::from_value(&items[index])
            } else {
                T::from_absent()
            }
        },
        None => match member(record, key) {
            Some(x) => T::from_value(x),
            None => T::from_absent(),
        },
    }
}

impl FromJson for User {
    open spec fn decode(j: Json) -> Option<UserView> {
        if !fits_record(j, 4) {
            None
        } else {
            match (
                decode_field::<i64>(j, 0, "id"@),
                decode_field::<String>(j, 1, "first_name"@),
                decode_field::<Option<String>>(j, 2, "last_name"@),
                decode_field::<Option<String>>(j, 3, "username"@),
            ) {
                (Some(id), Some(first_name), Some(last_name), Some(username)) => Some(
                    UserView { id, first_name, last_name, username },
                ),
                _ => None,
            }
        }
    }

    open spec fn absent() -> Option<UserView> {
        None
    }

    fn from_value(value: &serde_json::Value) -> (r: Option<User>) {
        if !fits(value, 4) {
            return None;
        }
        match (
            field::<i64>(value, 0, "id"),
            field::<String>(value, 1, "first_name"),
            field::<Option<String>>(value, 2, "last_name"),
            field::<Option<String>>(value, 3, "username"),
        ) {
            (Some(id), Some(first_name), Some(last_name), Some(username)) => Some(
                User { id, first_name, last_name, username },
            ),
            _ => None,
        }
    }

    fn from_absent() -> (r: Option<User>) {
        None
    }
}

impl FromJson for Chat {
    open spec fn decode(j: Json) -> Option<ChatView> {
        if !fits_record(j, 4) {
            None
        } else {
            match (
                decode_field::<i64>(j, 0, "id"@),
                decode_field::<String>(j, 1, "chat_type"@),
                decode_field::<Option<String>>(j, 2, "title"@),
                decode_field::<Option<String>>(j, 3, "username"@),
            ) {
                (Some(id), Some(chat_type), Some(title), Some(username)) => Some(
                    ChatView { id, chat_type, title, username },
                ),
                _ => None,
            }
        }
    }

    open spec fn absent() -> Option<ChatView> {
        None
    }

    fn from_value(value: &serde_json::Value) -> (r: Option<Chat>) {
        if !fits(value, 4) {
            return None;
        }
        match (
            field::<i64>(value, 0, "id"),
            field::<String>(value, 1, "chat_type"),
            field::<Option<String>>(value, 2, "title"),
            field::<Option<String>>(value, 3, "username"),
        ) {
            (Some(id), Some(chat_type), Some(title), Some(username)) => Some(
                Chat { id, chat_type, title, username },
            ),
            _ => None,
        }
    }

    fn from_absent() -> (r: Option<Chat>) {
        None
    }
}

impl FromJson for Message {
    open spec fn decode(j: Json) -> Option<MessageView> {
        if !fits_record(j, 4) {
            None
        } else {
            match (
                decode_field::<i64>(j, 0, "message_id"@),
                decode_field::<Option<User>>(j, 1, "from"@),
                decode_field::<Chat>(j, 2, "chat"@),
                decode_field::<Option<String>>(j, 3, "text"@),
            ) {
                (Some(message_id), Some(from), Some(chat), Some(text)) => Some(
                    MessageView { message_id, from, chat, text },
                ),
                _ => None,
            }
        }
    }

    open spec fn absent() -> Option<MessageView> {
        None
    }

    fn from_value(value: &serde_json::Value) -> (r: Option<Message>) {
        if !fits(value, 4) {
            return None;
        }
        match (
            field::<i64>(value, 0, "message_id"),
            field::<Option<User>>(value, 1, "from"),
            field::<Chat>(value, 2, "chat"),
            field::<Option<String>>(value, 3, "text"),
        ) {
            (Some(message_id), Some(from), Some(chat), Some(text)) => Some(
                Message { message_id, from, chat, text },
            ),
            _ => None,
        }
    }

    fn from_absent() -> (r: Option<Message>) {
        None
    }
}

impl FromJson for Update {
    open spec fn decode(j: Json) -> Option<UpdateView> {
        if !fits_record(j, 2) {
            None
        } else {
            match (
                decode_field::<i64>(j, 0, "update_id"@),
                decode_field::<Option<Message>>(j, 1, "message"@),
            ) {
                (Some(update_id), Some(message)) => Some(UpdateView { update_id, message }),
                _ => None,
            }
        }
    }

    open spec fn absent() -> Option<UpdateView> {
        None
    }

    fn from_value(value: &serde_json::Value) -> (r: Option<Update>) {
        if !fits(value, 2) {
            return None;
        }
        match (
            field::<i64>(value, 0, "update_id"),
            field::<Option<Message>>(value, 1, "message"),
        ) {
            (Some(update_id), Some(message)) => Some(Update { update_id, message }),
            _ => None,
        }
    }

    fn from_absent() -> (r: Option<Update>) {
        None
    }
}

} // verus!
