use message_index::mapping::MAX_TIMESTAMP_SECS;
use message_index::message::{Attachment, Embed, EmbedField, RawMessage};
use message_index::schema::MessageSchema;
use tantivy::schema::Field;

fn base_message() -> RawMessage {
    RawMessage {
        id: 42,
        author_id: 7,
        channel_id: 9,
        content: String::new(),
        timestamp_secs: 1_600_000_000,
        pinned: false,
        embeds: Vec::new(),
        attachments: Vec::new(),
        mention_user_ids: Vec::new(),
        mention_role_ids: Vec::new(),
        sticker_ids: Vec::new(),
    }
}

fn field(schema: &MessageSchema, name: &str) -> Field {
    schema.inner().get_field(name).expect("field must exist")
}

fn texts(doc: &tantivy::Document, f: Field) -> Vec<String> {
    doc.get_all(f).filter_map(|v| v.as_text()).map(|s| s.to_string()).collect()
}

fn u64s(doc: &tantivy::Document, f: Field) -> Vec<u64> {
    doc.get_all(f).filter_map(|v| v.as_u64()).collect()
}

#[test]
fn link_only_message_scenario() {
    let schema = MessageSchema::build();
    let mut m = base_message();
    m.content = "check this out https://example.com".to_string();
    let doc = schema.parse_message(&m);

    assert_eq!(texts(&doc, field(&schema, "has")), vec!["link".to_string()]);
    assert_eq!(
        texts(&doc, field(&schema, "content")),
        vec!["check this out https://example.com".to_string()],
    );
    assert!(texts(&doc, field(&schema, "embed_content")).is_empty());
    assert!(u64s(&doc, field(&schema, "mention_user_id")).is_empty());
    assert!(u64s(&doc, field(&schema, "mention_role_id")).is_empty());
}

#[test]
fn two_attachments_scenario() {
    let schema = MessageSchema::build();
    let mut m = base_message();
    m.attachments.push(Attachment { content_type: Some("image/png".to_string()) });
    m.attachments.push(Attachment { content_type: Some("video/mp4".to_string()) });
    let doc = schema.parse_message(&m);

    let mut has = texts(&doc, field(&schema, "has"));
    has.sort();
    assert_eq!(has, vec!["file".to_string(), "image".to_string(), "video".to_string()]);
}

#[test]
fn embed_with_title_and_one_field_gives_three_values() {
    let schema = MessageSchema::build();
    let mut m = base_message();
    m.embeds.push(Embed {
        author_name: None,
        description: None,
        fields: vec![EmbedField { name: "n".to_string(), value: "v".to_string() }],
        footer_text: None,
        title: Some("t".to_string()),
    });
    let doc = schema.parse_message(&m);

    let embed_content = texts(&doc, field(&schema, "embed_content"));
    assert_eq!(embed_content.len(), 3);
    assert_eq!(embed_content, vec!["n".to_string(), "v".to_string(), "t".to_string()]);
}

#[test]
fn empty_and_absent_embed_text_is_filtered_out() {
    let schema = MessageSchema::build();
    let mut m = base_message();
    m.embeds.push(Embed {
        author_name: None,
        description: Some(String::new()),
        fields: vec![EmbedField { name: String::new(), value: "v".to_string() }],
        footer_text: None,
        title: Some("t".to_string()),
    });
    let doc = schema.parse_message(&m);

    // the empty description and the empty field name contribute nothing
    let embed_content = texts(&doc, field(&schema, "embed_content"));
    assert_eq!(embed_content, vec!["v".to_string(), "t".to_string()]);
}

#[test]
fn embed_flattening_order_covers_all_subfields() {
    let schema = MessageSchema::build();
    let mut m = base_message();
    m.embeds.push(Embed {
        author_name: Some("a".to_string()),
        description: Some("d".to_string()),
        fields: vec![
            EmbedField { name: "n1".to_string(), value: "v1".to_string() },
            EmbedField { name: "n2".to_string(), value: "v2".to_string() },
        ],
        footer_text: Some("f".to_string()),
        title: Some("t".to_string()),
    });
    m.embeds.push(Embed {
        author_name: None,
        description: Some("d2".to_string()),
        fields: Vec::new(),
        footer_text: None,
        title: None,
    });
    let doc = schema.parse_message(&m);

    let embed_content = texts(&doc, field(&schema, "embed_content"));
    let expected: Vec<String> =
        ["a", "d", "n1", "v1", "n2", "v2", "f", "t", "d2"].iter().map(|s| s.to_string()).collect();
    assert_eq!(embed_content, expected);
}

#[test]
fn mentions_map_one_to_one_without_crossover() {
    let schema = MessageSchema::build();
    let mut m = base_message();
    m.mention_user_ids = vec![10, 20];
    m.mention_role_ids = vec![30];
    let doc = schema.parse_message(&m);

    assert_eq!(u64s(&doc, field(&schema, "mention_user_id")), vec![10, 20]);
    assert_eq!(u64s(&doc, field(&schema, "mention_role_id")), vec![30]);
}

#[test]
fn scalar_fields_are_written_verbatim() {
    let schema = MessageSchema::build();
    let mut m = base_message();
    m.content = String::new();
    m.pinned = true;
    let doc = schema.parse_message(&m);

    assert_eq!(u64s(&doc, field(&schema, "id")), vec![42]);
    assert_eq!(u64s(&doc, field(&schema, "author_id")), vec![7]);
    assert_eq!(u64s(&doc, field(&schema, "channel_id")), vec![9]);
    assert_eq!(texts(&doc, field(&schema, "content")), vec![String::new()]);

    let pinned: Vec<bool> =
        doc.get_all(field(&schema, "pinned")).filter_map(|v| v.as_bool()).collect();
    assert_eq!(pinned, vec![true]);

    let dates: Vec<i64> = doc
        .get_all(field(&schema, "timestamp"))
        .filter_map(|v| v.as_date())
        .map(|d| d.into_timestamp_secs())
        .collect();
    assert_eq!(dates, vec![1_600_000_000]);
}

#[test]
fn out_of_range_timestamp_is_clamped_to_boundary() {
    let schema = MessageSchema::build();
    let mut m = base_message();
    m.timestamp_secs = i64::MAX;
    let doc = schema.parse_message(&m);

    let dates: Vec<i64> = doc
        .get_all(field(&schema, "timestamp"))
        .filter_map(|v| v.as_date())
        .map(|d| d.into_timestamp_secs())
        .collect();
    assert_eq!(dates, vec![MAX_TIMESTAMP_SECS]);

    let mut low = base_message();
    low.timestamp_secs = i64::MIN;
    let doc_low = schema.parse_message(&low);
    let dates_low: Vec<i64> = doc_low
        .get_all(field(&schema, "timestamp"))
        .filter_map(|v| v.as_date())
        .map(|d| d.into_timestamp_secs())
        .collect();
    assert_eq!(dates_low, vec![-MAX_TIMESTAMP_SECS]);
}

#[test]
fn mapping_same_message_twice_is_identical() {
    let schema = MessageSchema::build();
    let mut m = base_message();
    m.content = "hello https://example.com".to_string();
    m.mention_user_ids = vec![5];
    m.embeds.push(Embed {
        author_name: Some("a".to_string()),
        description: None,
        fields: Vec::new(),
        footer_text: None,
        title: None,
    });
    m.sticker_ids.push(3);

    let first = schema.parse_message(&m);
    let second = schema.parse_message(&m);
    assert_eq!(first, second);
    assert_eq!(first.len(), second.len());

    // the same message against a second, independently built schema
    let other_schema = MessageSchema::build();
    let third = other_schema.parse_message(&m);
    assert_eq!(first, third);
}

#[test]
fn has_values_come_from_every_matching_category() {
    let schema = MessageSchema::build();
    let mut m = base_message();
    m.content = "https://example.com".to_string();
    m.embeds.push(Embed {
        author_name: None,
        description: None,
        fields: Vec::new(),
        footer_text: None,
        title: None,
    });
    m.attachments.push(Attachment { content_type: Some("audio/ogg".to_string()) });
    m.sticker_ids.push(1);
    let doc = schema.parse_message(&m);

    assert_eq!(
        texts(&doc, field(&schema, "has")),
        vec![
            "link".to_string(),
            "embed".to_string(),
            "file".to_string(),
            "sound".to_string(),
            "sticker".to_string(),
        ],
    );
}

#[test]
fn document_value_count_matches_message_shape() {
    let schema = MessageSchema::build();
    let m = base_message();
    let doc = schema.parse_message(&m);
    // the six single-valued fields and nothing else for a bare message
    assert_eq!(doc.len(), 6);
}
