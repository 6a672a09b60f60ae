pub mod bot;
pub mod decimal;
pub mod decode;
pub mod echo;
pub mod encode;
pub mod envelope;
pub mod error;
pub mod json;
pub mod laws;
pub mod types;

pub use bot::Bot;
pub use error::{RequestFailure, TelegramError};
pub use types::{Chat, Message, SendMessageRequest, Update, User};
