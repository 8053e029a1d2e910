//! The domain model of conversations and messages.
//!
//! These types describe the richer conversation data the bridge is
//! headed towards (see the overview resource's roadmap); the current
//! tools only produce chat entries. Timestamps are held as milliseconds
//! since the epoch and sticker pack identifiers as their 128-bit value,
//! so the model is made of plain values throughout.

use vstd::prelude::*;

verus! {

/// A conversation and what is known about it.
#[derive(Debug, Clone)]
pub struct Conversation {
    pub id: ConversationId,
    pub title: Option<String>,
    pub participants: Vec<Participant>,
    pub last_message: Option<Message>,
    pub unread_count: u32,
}

/// One party to a conversation.
#[derive(Debug, Clone)]
pub struct Participant {
    pub address: String,
    pub display_name: Option<String>,
}

/// One message within a conversation.
#[derive(Debug, Clone)]
pub struct Message {
    pub id: MessageId,
    pub conversation_id: ConversationId,
    pub author: Participant,
    pub timestamp_ms: i64,
    pub body: MessageBody,
    pub attachments: Vec<Attachment>,
}

/// What a message carries.
#[derive(Debug, Clone)]
pub enum MessageBody {
    Text(String),
    Sticker { pack_id: u128, sticker_id: u32 },
    Unknown,
}

/// A file attached to a message.
#[derive(Debug, Clone)]
pub struct Attachment {
    pub id: AttachmentId,
    pub content_type: String,
    pub filename: Option<String>,
    pub size_bytes: Option<u64>,
}

/// The identifier of a conversation.
#[derive(Debug, Clone, PartialEq, Eq, Hash)]
pub struct ConversationId(pub String);

/// The identifier of a message.
#[derive(Debug, Clone, PartialEq, Eq, Hash)]
pub struct MessageId(pub String);

/// The identifier of an attachment.
#[derive(Debug, Clone, PartialEq, Eq, Hash)]
pub struct AttachmentId(pub String);

} // verus!
