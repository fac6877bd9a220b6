//! The media classifier: one pure, total predicate per recognized media
//! category. A message may match zero, one, or several categories; the
//! categories are independent, additive facts about the message.

use vstd::prelude::*;
use crate::message::{Attachment, RawMessage};
use crate::text::{contains_seq, contains_str, starts_with_seq, starts_with_str};

verus! {

/// The closed set of media categories, in the fixed order the mapper walks
/// them when it fills the `has` field.
#[derive(Clone, Copy)]
pub enum MessageMediaType {
    Link,
    Embed,
    File,
    Video,
    Image,
    Sound,
    Sticker,
}

/// The attachment's content type starts with `mime`. An attachment with no
/// content type matches nothing.
pub open spec fn spec_is_mime_type(a: Attachment, mime: Seq<char>) -> bool {
    match a.content_type {
        Option::Some(t) => starts_with_seq(t@, mime),
        Option::None => false,
    }
}

/// Some attachment of the message has a content type starting with `mime`.
pub open spec fn spec_has_mime_type(m: RawMessage, mime: Seq<char>) -> bool {
    exists|i: int| 0 <= i < m.attachments@.len() && spec_is_mime_type(m.attachments@[i], mime)
}

/// The content holds `"http://"` or `"https://"` anywhere as a substring.
/// Deliberately unanchored: prose that merely quotes the literal counts too.
pub open spec fn spec_has_link(content: Seq<char>) -> bool {
    contains_seq(content, "http://"@) || contains_seq(content, "https://"@)
}

/// The classifier's decision rule for category `t` on message `m`.
pub open spec fn spec_is_in_message(t: MessageMediaType, m: RawMessage) -> bool {
    match t {
        MessageMediaType::Link => spec_has_link(m.content@),
        MessageMediaType::Embed => m.embeds@.len() > 0,
        MessageMediaType::File => m.attachments@.len() > 0,
        MessageMediaType::Video => spec_has_mime_type(m, "video"@),
        MessageMediaType::Image => spec_has_mime_type(m, "image"@),
        MessageMediaType::Sound => spec_has_mime_type(m, "audio"@),
        MessageMediaType::Sticker => m.sticker_ids@.len() > 0,
    }
}

/// The category's canonical lowercase tag, as written into the `has` field.
pub open spec fn spec_name(t: MessageMediaType) -> Seq<char> {
    match t {
        MessageMediaType::Link => "link"@,
        MessageMediaType::Embed => "embed"@,
        MessageMediaType::File => "file"@,
        MessageMediaType::Video => "video"@,
        MessageMediaType::Image => "image"@,
        MessageMediaType::Sound => "sound"@,
        MessageMediaType::Sticker => "sticker"@,
    }
}

/// The categories in their fixed enumeration order.
pub open spec fn category_order() -> Seq<MessageMediaType> {
    seq![
        MessageMediaType::Link,
        MessageMediaType::Embed,
        MessageMediaType::File,
        MessageMediaType::Video,
        MessageMediaType::Image,
        MessageMediaType::Sound,
        MessageMediaType::Sticker,
    ]
}

fn is_mime_type(attachment: &Attachment, mime_type: &str) -> (r: bool)
    ensures
        r == spec_is_mime_type(*attachment, mime_type@),
{
    match &attachment.content_type {
        Option::Some(t) => starts_with_str(t.as_str(), mime_type),
        Option::None => false,
    }
}

fn has_mime_type(message: &RawMessage, mime_type: &str) -> (r: bool)
    ensures
        r == spec_has_mime_type(*message, mime_type@),
{
    let mut i: usize = 0;
    while i < message.attachments.len()
        invariant
            i <= message.attachments@.len(),
            forall|k: int| 0 <= k < i ==> !spec_is_mime_type(message.attachments@[k], mime_type@),
        decreases message.attachments@.len() - i,
    {
        if is_mime_type(&message.attachments[i], mime_type) {
            assert(spec_is_mime_type(message.attachments@[i as int], mime_type@));
            return true;
        }
        i += 1;
    }
    false
}

impl MessageMediaType {
    /// Decides whether the message exhibits this category of media.
    pub fn is_in_message(&self, message: &RawMessage) -> (r: bool)
        ensures
            r == spec_is_in_message(*self, *message),
    {
        match self {
            MessageMediaType::Link => {
                contains_str(message.content.as_str(), "http://")
                    || contains_str(message.content.as_str(), "https://")
            },
            MessageMediaType::Embed => message.embeds.len() > 0,
            MessageMediaType::File => message.attachments.len() > 0,
            MessageMediaType::Video => has_mime_type(message, "video"),
            MessageMediaType::Image => has_mime_type(message, "image"),
            MessageMediaType::Sound => has_mime_type(message, "audio"),
            MessageMediaType::Sticker => message.sticker_ids.len() > 0,
        }
    }

    /// The category's canonical lowercase tag.
    pub fn name(&self) -> (r: &'static str)
        ensures
            r@ == spec_name(*self),
    {
        match self {
            MessageMediaType::Link => "link",
            MessageMediaType::Embed => "embed",
            MessageMediaType::File => "file",
            MessageMediaType::Video => "video",
            MessageMediaType::Image => "image",
            MessageMediaType::Sound => "sound",
            MessageMediaType::Sticker => "sticker",
        }
    }

    /// All categories, in the fixed enumeration order.
    pub fn all() -> (r: Vec<MessageMediaType>)
        ensures
            r@ == category_order(),
    {
        let v = vec![
            MessageMediaType::Link,
            MessageMediaType::Embed,
            MessageMediaType::File,
            MessageMediaType::Video,
            MessageMediaType::Image,
            MessageMediaType::Sound,
            MessageMediaType::Sticker,
        ];
        proof {
            assert(v@ =~= category_order());
        }
        v
    }
}

} // verus!
