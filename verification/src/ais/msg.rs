//! Messages of a thread.

use vstd::prelude::*;
use crate::error::BuddyError;

verus! {

/// A message to add to a thread.
#[derive(Debug, Clone)]
pub struct UserMessage {
    pub role: String,
    pub content: String,
}

/// A message from the user with the text `content`.
pub fn user_msg(content: &str) -> (msg: UserMessage)
    ensures
        msg.role@ == "user"@,
        msg.content@ == content@,
{
    UserMessage { role: "user".to_owned(), content: content.to_owned() }
}

/// One piece of what a message holds.
#[derive(Debug, Clone)]
pub enum MessageContent {
    /// Text.
    Text { value: String },
    /// An image, by reference to a file.
    ImageFile,
}

/// A message of a thread, as the service lists it.
#[derive(Debug, Clone)]
pub struct Message {
    pub content: Vec<MessageContent>,
}

/// What reading the text of a message with the pieces `content` gives:
/// the first piece if it is text.
pub open spec fn text_content(content: Seq<MessageContent>) -> Result<Seq<char>, BuddyError> {
    if content.len() == 0 {
        Err(BuddyError::NoMessageContent)
    } else {
        match content[0] {
            MessageContent::Text { value } => Ok(value@),
            MessageContent::ImageFile => Err(BuddyError::ImageNotSupported),
        }
    }
}

/// What reading the newest of `messages` gives, the newest being listed
/// first.
pub open spec fn first_text(messages: Seq<Message>) -> Result<Seq<char>, BuddyError> {
    if messages.len() == 0 {
        Err(BuddyError::NoMessage)
    } else {
        text_content(messages[0].content@)
    }
}

/// Whether `got` is the text or the error that `expected` says.
pub open spec fn reads_as(got: Result<String, BuddyError>, expected: Result<Seq<char>, BuddyError>) -> bool {
    match (got, expected) {
        (Ok(text), Ok(wanted)) => text@ == wanted,
        (Err(e), Err(wanted)) => e == wanted,
        _ => false,
    }
}

/// The text of a message.
///
/// Fails with [`BuddyError::NoMessageContent`] for a message that holds
/// nothing and with [`BuddyError::ImageNotSupported`] for one that begins
/// with an image.
pub fn get_text_content(msg: Message) -> (text: Result<String, BuddyError>)
    ensures
        reads_as(text, text_content(msg.content@)),
{
    if msg.content.len() == 0 {
        return Err(BuddyError::NoMessageContent);
    }
    match &msg.content[0] {
        MessageContent::Text { value } => Ok(value.clone()),
        MessageContent::ImageFile => Err(BuddyError::ImageNotSupported),
    }
}

/// The text of the newest of `messages`, the newest being listed first.
///
/// Fails with [`BuddyError::NoMessage`] where there is no message, and as
/// [`get_text_content`] does where the message has no text.
pub fn get_first_thread_msg_content(messages: Vec<Message>) -> (text: Result<String, BuddyError>)
    ensures
        reads_as(text, first_text(messages@)),
{
    let mut messages = messages;
    if messages.len() == 0 {
        return Err(BuddyError::NoMessage);
    }
    get_text_content(messages.remove(0))
}

} // verus!
