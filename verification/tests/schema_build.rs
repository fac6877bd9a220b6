use message_index::schema::MessageSchema;
use tantivy::schema::FieldType;

#[test]
fn schema_field_ids_follow_declaration_order() {
    let schema = MessageSchema::build();
    let inner = schema.inner();
    let names = [
        "id",
        "author_id",
        "channel_id",
        "content",
        "timestamp",
        "pinned",
        "embed_content",
        "mention_user_id",
        "mention_role_id",
        "has",
    ];
    for (expected_id, name) in names.iter().enumerate() {
        let field = inner.get_field(name).expect("field must exist");
        assert_eq!(field.field_id() as usize, expected_id);
    }
    assert_eq!(inner.num_fields(), 10);
}

#[test]
fn schema_flags_match_contract() {
    let schema = MessageSchema::build();
    let inner = schema.inner();

    let id = inner.get_field_entry(inner.get_field("id").unwrap());
    assert!(id.is_stored() && !id.is_indexed() && !id.is_fast());
    assert!(matches!(id.field_type(), FieldType::U64(_)));

    let author_id = inner.get_field_entry(inner.get_field("author_id").unwrap());
    assert!(!author_id.is_stored() && author_id.is_indexed() && !author_id.is_fast());

    let channel_id = inner.get_field_entry(inner.get_field("channel_id").unwrap());
    assert!(!channel_id.is_stored() && channel_id.is_indexed() && channel_id.is_fast());

    let content = inner.get_field_entry(inner.get_field("content").unwrap());
    assert!(content.is_stored() && content.is_indexed());
    match content.field_type() {
        FieldType::Str(opts) => {
            assert_eq!(opts.get_indexing_options().unwrap().tokenizer(), "default");
        }
        other => panic!("content has wrong type: {other:?}"),
    }

    let timestamp = inner.get_field_entry(inner.get_field("timestamp").unwrap());
    assert!(!timestamp.is_stored() && timestamp.is_indexed());
    assert!(matches!(timestamp.field_type(), FieldType::Date(_)));

    let pinned = inner.get_field_entry(inner.get_field("pinned").unwrap());
    assert!(!pinned.is_stored() && pinned.is_indexed());
    assert!(matches!(pinned.field_type(), FieldType::Bool(_)));

    let embed_content = inner.get_field_entry(inner.get_field("embed_content").unwrap());
    assert!(!embed_content.is_stored() && embed_content.is_indexed());
    match embed_content.field_type() {
        FieldType::Str(opts) => {
            assert_eq!(opts.get_indexing_options().unwrap().tokenizer(), "default");
        }
        other => panic!("embed_content has wrong type: {other:?}"),
    }

    let mention_user_id = inner.get_field_entry(inner.get_field("mention_user_id").unwrap());
    assert!(!mention_user_id.is_stored() && mention_user_id.is_indexed());
    assert!(matches!(mention_user_id.field_type(), FieldType::U64(_)));

    let mention_role_id = inner.get_field_entry(inner.get_field("mention_role_id").unwrap());
    assert!(!mention_role_id.is_stored() && mention_role_id.is_indexed());
    assert!(matches!(mention_role_id.field_type(), FieldType::U64(_)));

    let has = inner.get_field_entry(inner.get_field("has").unwrap());
    assert!(!has.is_stored() && has.is_indexed());
    match has.field_type() {
        FieldType::Str(opts) => {
            // exact-match: the untokenized "raw" tokenizer
            assert_eq!(opts.get_indexing_options().unwrap().tokenizer(), "raw");
        }
        other => panic!("has has wrong type: {other:?}"),
    }
}

#[test]
fn schema_build_is_idempotent() {
    let first = MessageSchema::build();
    let second = MessageSchema::build();
    assert_eq!(first.clone_inner(), second.clone_inner());
    assert_eq!(first.inner(), second.inner());
    assert_eq!(first.inner().num_fields(), second.inner().num_fields());
}
