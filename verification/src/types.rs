//! The records exchanged with the remote service, and what each one is as
//! a mathematical value.

use vstd::prelude::*;

verus! {

/// A person or bot that sent a message.
#[derive(Debug)]
pub struct User {
    pub id: i64,
    pub first_name: String,
    pub last_name: Option<String>,
    pub username: Option<String>,
}

/// The conversation a message belongs to. The kind of chat is an open tag:
/// no set of allowed values is enforced.
#[derive(Debug)]
pub struct Chat {
    pub id: i64,
    pub chat_type: String,
    pub title: Option<String>,
    pub username: Option<String>,
}

/// A message as the service reports it.
#[derive(Debug)]
pub struct Message {
    pub message_id: i64,
    pub from: Option<User>,
    pub chat: Chat,
    pub text: Option<String>,
}

/// One incoming event. `update_id` is the cursor by which events are fetched.
#[derive(Debug)]
pub struct Update {
    pub update_id: i64,
    pub message: Option<Message>,
}

/// What to send. The two optional fields are left out of the request body
/// when unset.
#[derive(Debug)]
pub struct SendMessageRequest {
    pub chat_id: i64,
    pub text: String,
    pub reply_to_message_id: Option<i64>,
    pub parse_mode: Option<String>,
}

/// A [`User`] as a mathematical value.
pub struct UserView {
    pub id: i64,
    pub first_name: Seq<char>,
    pub last_name: Option<Seq<char>>,
    pub username: Option<Seq<char>>,
}

/// A [`Chat`] as a mathematical value.
pub struct ChatView {
    pub id: i64,
    pub chat_type: Seq<char>,
    pub title: Option<Seq<char>>,
    pub username: Option<Seq<char>>,
}

/// A [`Message`] as a mathematical value.
pub struct MessageView {
    pub message_id: i64,
    pub from: Option<UserView>,
    pub chat: ChatView,
    pub text: Option<Seq<char>>,
}

/// An [`Update`] as a mathematical value.
pub struct UpdateView {
    pub update_id: i64,
    pub message: Option<MessageView>,
}

/// A [`SendMessageRequest`] as a mathematical value.
pub struct SendMessageRequestView {
    pub chat_id: i64,
    pub text: Seq<char>,
    pub reply_to_message_id: Option<i64>,
    pub parse_mode: Option<Seq<char>>,
}

impl View for User {
    type V = UserView;

    open spec fn view(&self) -> UserView {
        UserView {
            id: self.id,
            first_name: self.first_name@,
            last_name: self.last_name.deep_view(),
            username: self.username.deep_view(),
        }
    }
}

impl DeepView for User {
    type V = UserView;

    open spec fn deep_view(&self) -> UserView {
        self.view()
    }
}

impl View for Chat {
    type V = ChatView;

    open spec fn view(&self) -> ChatView {
        ChatView {
            id: self.id,
            chat_type: self.chat_type@,
            title: self.title.deep_view(),
            username: self.username.deep_view(),
        }
    }
}

impl DeepView for Chat {
    type V = ChatView;

    open spec fn deep_view(&self) -> ChatView {
        self.view()
    }
}

impl View for Message {
    type V = MessageView;

    open spec fn view(&self) -> MessageView {
        MessageView {
            message_id: self.message_id,
            from: self.from.deep_view(),
            chat: self.chat@,
            text: self.text.deep_view(),
        }
    }
}

impl DeepView for Message {
    type V = MessageView;

    open spec fn deep_view(&self) -> MessageView {
        self.view()
    }
}

impl View for Update {
    type V = UpdateView;

    open spec fn view(&self) -> UpdateView {
        UpdateView { update_id: self.update_id, message: self.message.deep_view() }
    }
}

impl DeepView for Update {
    type V = UpdateView;

    open spec fn deep_view(&self) -> UpdateView {
        self.view()
    }
}

impl View for SendMessageRequest {
    type V = SendMessageRequestView;

    open spec fn view(&self) -> SendMessageRequestView {
        SendMessageRequestView {
            chat_id: self.chat_id,
            text: self.text@,
            reply_to_message_id: self.reply_to_message_id,
            parse_mode: self.parse_mode.deep_view(),
        }
    }
}

} // verus!
