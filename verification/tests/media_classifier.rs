use message_index::media::MessageMediaType;
use message_index::message::{Attachment, RawMessage};

fn plain_message(content: &str) -> RawMessage {
    RawMessage {
        id: 1,
        author_id: 2,
        channel_id: 3,
        content: content.to_string(),
        timestamp_secs: 1_600_000_000,
        pinned: false,
        embeds: Vec::new(),
        attachments: Vec::new(),
        mention_user_ids: Vec::new(),
        mention_role_ids: Vec::new(),
        sticker_ids: Vec::new(),
    }
}

fn attachment(content_type: Option<&str>) -> Attachment {
    Attachment { content_type: content_type.map(|t| t.to_string()) }
}

#[test]
fn link_detected_as_unanchored_substring() {
    let link = MessageMediaType::Link;
    assert!(link.is_in_message(&plain_message("check this out https://example.com")));
    assert!(link.is_in_message(&plain_message("see http://x")));
    assert!(link.is_in_message(&plain_message("just the literal https:// in prose")));
    assert!(!link.is_in_message(&plain_message("http:/ is not a link")));
    assert!(!link.is_in_message(&plain_message("")));
    assert!(!link.is_in_message(&plain_message("HTTPS://EXAMPLE.COM is upper case")));
}

#[test]
fn attachment_types_drive_video_image_sound() {
    let mut m = plain_message("");
    m.attachments.push(attachment(Some("image/png")));
    assert!(MessageMediaType::Image.is_in_message(&m));
    assert!(MessageMediaType::File.is_in_message(&m));
    assert!(!MessageMediaType::Video.is_in_message(&m));
    assert!(!MessageMediaType::Sound.is_in_message(&m));

    let mut v = plain_message("");
    v.attachments.push(attachment(Some("video/mp4")));
    assert!(MessageMediaType::Video.is_in_message(&v));

    let mut a = plain_message("");
    a.attachments.push(attachment(Some("audio/ogg")));
    assert!(MessageMediaType::Sound.is_in_message(&a));
}

#[test]
fn untyped_or_other_attachment_is_only_a_file() {
    let mut pdf = plain_message("");
    pdf.attachments.push(attachment(Some("application/pdf")));
    assert!(MessageMediaType::File.is_in_message(&pdf));
    assert!(!MessageMediaType::Image.is_in_message(&pdf));
    assert!(!MessageMediaType::Video.is_in_message(&pdf));
    assert!(!MessageMediaType::Sound.is_in_message(&pdf));

    let mut untyped = plain_message("");
    untyped.attachments.push(attachment(None));
    assert!(MessageMediaType::File.is_in_message(&untyped));
    assert!(!MessageMediaType::Image.is_in_message(&untyped));
    assert!(!MessageMediaType::Video.is_in_message(&untyped));
    assert!(!MessageMediaType::Sound.is_in_message(&untyped));
}

#[test]
fn embed_and_sticker_presence() {
    let m = plain_message("");
    assert!(!MessageMediaType::Embed.is_in_message(&m));
    assert!(!MessageMediaType::Sticker.is_in_message(&m));

    let mut with_sticker = plain_message("");
    with_sticker.sticker_ids.push(77);
    assert!(MessageMediaType::Sticker.is_in_message(&with_sticker));

    let mut with_embed = plain_message("");
    with_embed.embeds.push(message_index::message::Embed {
        author_name: None,
        description: None,
        fields: Vec::new(),
        footer_text: None,
        title: None,
    });
    assert!(MessageMediaType::Embed.is_in_message(&with_embed));
}

#[test]
fn category_names_and_order() {
    let all = MessageMediaType::all();
    let names: Vec<&str> = all.iter().map(|t| t.name()).collect();
    assert_eq!(names, vec!["link", "embed", "file", "video", "image", "sound", "sticker"]);
}
