//! The message model: what the mapper reads of a chat message, as plain
//! values. The surrounding process converts the chat platform's own message
//! type into this one before mapping.

use vstd::prelude::*;

verus! {

/// One name/value pair inside an embed.
#[derive(Clone)]
pub struct EmbedField {
    pub name: String,
    pub value: String,
}

/// A rich embed attached to a message. Every sub-field is optional except
/// the field list; absent or empty sub-fields contribute nothing to the
/// mapped document.
#[derive(Clone)]
pub struct Embed {
    pub author_name: Option<String>,
    pub description: Option<String>,
    pub fields: Vec<EmbedField>,
    pub footer_text: Option<String>,
    pub title: Option<String>,
}

/// A file attached to a message. An attachment without a content type
/// matches no media category by type.
#[derive(Clone)]
pub struct Attachment {
    pub content_type: Option<String>,
}

/// A message as delivered by the chat platform, reduced to the attributes
/// the mapper reads. The timestamp is a whole-second UNIX timestamp.
#[derive(Clone)]
pub struct RawMessage {
    pub id: u64,
    pub author_id: u64,
    pub channel_id: u64,
    pub content: String,
    pub timestamp_secs: i64,
    pub pinned: bool,
    pub embeds: Vec<Embed>,
    pub attachments: Vec<Attachment>,
    pub mention_user_ids: Vec<u64>,
    pub mention_role_ids: Vec<u64>,
    pub sticker_ids: Vec<u64>,
}

} // verus!
