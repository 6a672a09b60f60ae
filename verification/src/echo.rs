//! The rule of the echo bot: which updates are answered, and with what.

use crate::types::{SendMessageRequest, SendMessageRequestView, Update, UpdateView};
use vstd::prelude::*;

verus! {

/// The answer that echoes an update: an update that carries a message with
/// text that is not empty is answered in the same chat, with the same
/// text, as a reply to that message and without a parse mode. No other
/// update is answered.
pub open spec fn echo_of(update: UpdateView) -> Option<SendMessageRequestView> {
    match update.message {
        Some(message) => match message.text {
            Some(text) => if text.len() > 0 {
                Some(
                    SendMessageRequestView {
                        chat_id: message.chat.id,
                        text,
                        reply_to_message_id: Some(message.message_id),
                        parse_mode: None,
                    },
                )
            } else {
                None
            },
            None => None,
        },
        None => None,
    }
}

/// The request that echoes `update`, if it is to be answered.
pub fn echo_reply(update: Update) -> (r: Option<SendMessageRequest>)
    ensures
        match r {
            Some(request) => echo_of(update@) == Some(request@),
            None => echo_of(update@) is None,
        },
{
    match update.message {
        Some(message) => match message.text {
            Some(text) => {
                if text.as_str().is_empty() {
                    None
                } else {
                    Some(
                        SendMessageRequest {
                            chat_id: message.chat.id,
                            text,
                            reply_to_message_id: Some(message.message_id),
                            parse_mode: None,
                        },
                    )
                }
            },
            None => None,
        },
        None => None,
    }
}

} // verus!
