//! The schema definition and the document mapper.
//!
//! [`MessageSchema::build`] declares the complete field table once and
//! hands out stable field handles; [`MessageSchema::parse_message`] flattens
//! one message into one document conforming to that table.

use vstd::prelude::*;
use vstd::string::StrSliceExecFns;
use crate::engine::{
    add_bool_field_indexed, add_date_field_indexed, add_text_field_exact, add_text_field_tokenized,
    add_text_field_tokenized_stored, add_u64_field_indexed, add_u64_field_indexed_fast,
    add_u64_field_stored, build_schema, builder_entries, clone_schema, doc_add_bool, doc_add_text,
    doc_add_timestamp, doc_add_u64, doc_bools, doc_dates, doc_new, doc_texts, doc_u64s, field_ord,
    kind_bool, kind_date, kind_text, kind_u64, name_free, new_schema_builder, schema_entries,
    valid_field_name, FieldEntryModel,
};
use crate::mapping::{
    clamp_timestamp_secs, embed_texts_one, embeds_texts, field_texts_one, fields_texts,
    has_tags_upto, mapped_bools, mapped_dates, mapped_texts, mapped_u64s, opt_text, opt_text_ref,
    tag_ids, tag_if, tag_texts,
};
use crate::media::{category_order, MessageMediaType};
use crate::message::{Embed, RawMessage};

verus! {

/// The complete field table: for each field its name, value kind, and
/// stored / indexed / fast / tokenized flags, in order. A field's ordinal
/// is its index here.
pub open spec fn canonical_entries() -> Seq<FieldEntryModel> {
    seq![
        ("id"@, kind_u64(), true, false, false, false),
        ("author_id"@, kind_u64(), false, true, false, false),
        ("channel_id"@, kind_u64(), false, true, true, false),
        ("content"@, kind_text(), true, true, false, true),
        ("timestamp"@, kind_date(), false, true, false, false),
        ("pinned"@, kind_bool(), false, true, false, false),
        ("embed_content"@, kind_text(), false, true, false, true),
        ("mention_user_id"@, kind_u64(), false, true, false, false),
        ("mention_role_id"@, kind_u64(), false, true, false, false),
        ("has"@, kind_text(), false, true, false, false),
    ]
}

/// The canonical field names are admissible to the builder: each is a
/// valid tantivy field name, and each differs from every name before it
/// in the table.
proof fn lemma_canonical_name_admissible(n: int)
    requires
        0 <= n < canonical_entries().len(),
    ensures
        valid_field_name(canonical_entries()[n].0),
        name_free(canonical_entries().take(n), canonical_entries()[n].0),
{
    reveal_strlit("id");
    reveal_strlit("author_id");
    reveal_strlit("channel_id");
    reveal_strlit("content");
    reveal_strlit("timestamp");
    reveal_strlit("pinned");
    reveal_strlit("embed_content");
    reveal_strlit("mention_user_id");
    reveal_strlit("mention_role_id");
    reveal_strlit("has");
    assert("id"@.len() == 2 && "id"@[0] == 'i');
    assert("author_id"@.len() == 9 && "author_id"@[0] == 'a');
    assert("channel_id"@.len() == 10 && "channel_id"@[0] == 'c');
    assert("content"@.len() == 7 && "content"@[0] == 'c');
    assert("timestamp"@.len() == 9 && "timestamp"@[0] == 't');
    assert("pinned"@.len() == 6 && "pinned"@[0] == 'p');
    assert("embed_content"@.len() == 13 && "embed_content"@[0] == 'e');
    assert("mention_user_id"@.len() == 15 && "mention_user_id"@[0] == 'm');
    assert("mention_role_id"@.len() == 15 && "mention_role_id"@[0] == 'm');
    assert("mention_user_id"@[8] == 'u' && "mention_role_id"@[8] == 'r');
    assert("has"@.len() == 3 && "has"@[0] == 'h');
    assert forall|idx: int| 0 <= idx < n implies canonical_entries().take(n)[idx].0
        != canonical_entries()[n].0 by {
        assert(canonical_entries().take(n)[idx] == canonical_entries()[idx]);
    }
}

/// The document schema for indexed messages, with one handle per field.
pub struct MessageSchema {
    /// message id
    id: tantivy::schema::Field,
    author_id: tantivy::schema::Field,
    channel_id: tantivy::schema::Field,
    /// main message text
    content: tantivy::schema::Field,
    timestamp: tantivy::schema::Field,
    /// if the message is pinned
    pinned: tantivy::schema::Field,
    /// all the text in any embeds on the message (may be multi-valued)
    embed_content: tantivy::schema::Field,
    /// ids of any users mentioned (may be multi-valued)
    mention_user_id: tantivy::schema::Field,
    /// ids of any roles mentioned (may be multi-valued)
    mention_role_id: tantivy::schema::Field,
    /// media type(s) in the message (link, image, etc; may be multi-valued)
    has: tantivy::schema::Field,
    inner: tantivy::schema::Schema,
}

impl MessageSchema {
    /// Each field handle denotes its field's ordinal in the canonical
    /// table, and the finished schema holds exactly that table.
    pub closed spec fn wf(self) -> bool {
        &&& field_ord(self.id) == 0
        &&& field_ord(self.author_id) == 1
        &&& field_ord(self.channel_id) == 2
        &&& field_ord(self.content) == 3
        &&& field_ord(self.timestamp) == 4
        &&& field_ord(self.pinned) == 5
        &&& field_ord(self.embed_content) == 6
        &&& field_ord(self.mention_user_id) == 7
        &&& field_ord(self.mention_role_id) == 8
        &&& field_ord(self.has) == 9
        &&& schema_entries(self.inner) == canonical_entries()
    }

    /// The field table of the built schema.
    pub closed spec fn entries(self) -> Seq<FieldEntryModel> {
        schema_entries(self.inner)
    }

    /// Declares the fields in their fixed order and builds the schema.
    pub fn build() -> (s: Self)
        ensures
            s.wf(),
            s.entries() == canonical_entries(),
    {
        let mut builder = new_schema_builder();
        // never need to search by message id, you can just use a message link for that
        proof {
            assert(builder_entries(builder) =~= canonical_entries().take(0));
            lemma_canonical_name_admissible(0);
        }
        let id = add_u64_field_stored(&mut builder, "id");
        proof {
            assert(builder_entries(builder) =~= canonical_entries().take(1));
            lemma_canonical_name_admissible(1);
        }
        let author_id = add_u64_field_indexed(&mut builder, "author_id");
        // fast so we can filter by the user's permissions
        // also need this for putting a channel mention in the output message
        proof {
            assert(builder_entries(builder) =~= canonical_entries().take(2));
            lemma_canonical_name_admissible(2);
        }
        let channel_id = add_u64_field_indexed_fast(&mut builder, "channel_id");
        // stored so we can display it in the output message
        proof {
            assert(builder_entries(builder) =~= canonical_entries().take(3));
            lemma_canonical_name_admissible(3);
        }
        let content = add_text_field_tokenized_stored(&mut builder, "content");
        // don't need fast here to do unbounded ranges
        // for before, make the start 0
        // for after, make the end the current timestamp
        proof {
            assert(builder_entries(builder) =~= canonical_entries().take(4));
            lemma_canonical_name_admissible(4);
        }
        let timestamp = add_date_field_indexed(&mut builder, "timestamp");
        proof {
            assert(builder_entries(builder) =~= canonical_entries().take(5));
            lemma_canonical_name_admissible(5);
        }
        let pinned = add_bool_field_indexed(&mut builder, "pinned");
        proof {
            assert(builder_entries(builder) =~= canonical_entries().take(6));
            lemma_canonical_name_admissible(6);
        }
        let embed_content = add_text_field_tokenized(&mut builder, "embed_content");
        proof {
            assert(builder_entries(builder) =~= canonical_entries().take(7));
            lemma_canonical_name_admissible(7);
        }
        let mention_user_id = add_u64_field_indexed(&mut builder, "mention_user_id");
        proof {
            assert(builder_entries(builder) =~= canonical_entries().take(8));
            lemma_canonical_name_admissible(8);
        }
        let mention_role_id = add_u64_field_indexed(&mut builder, "mention_role_id");
        // an exact-match string rather than tokenized text, because the
        // values are single-word tags from the media category enumeration
        proof {
            assert(builder_entries(builder) =~= canonical_entries().take(9));
            lemma_canonical_name_admissible(9);
        }
        let has = add_text_field_exact(&mut builder, "has");
        proof {
            assert(builder_entries(builder) =~= canonical_entries());
        }
        // build the schema last
        let inner = build_schema(builder);
        MessageSchema {
            id,
            author_id,
            channel_id,
            content,
            timestamp,
            pinned,
            embed_content,
            mention_user_id,
            mention_role_id,
            has,
            inner,
        }
    }

    /// The built schema, for opening the index.
    pub fn inner(&self) -> (r: &tantivy::schema::Schema)
        ensures
            schema_entries(*r) == self.entries(),
    {
        &self.inner
    }

    /// A clone of the built schema, for handing ownership to the index.
    pub fn clone_inner(&self) -> (r: tantivy::schema::Schema)
        ensures
            schema_entries(r) == self.entries(),
    {
        clone_schema(&self.inner)
    }

    /// Appends one embed text value when the source sub-field is present
    /// and non-empty; absent or empty sub-fields contribute nothing.
    fn add_embed_content(
        &self,
        doc: &mut tantivy::schema::Document,
        content_opt: Option<&String>,
    )
        requires
            field_ord(self.embed_content) == 6,
        ensures
            doc_texts(*final(doc)) == doc_texts(*old(doc)) + tag_texts(
                6,
                opt_text_ref(content_opt),
            ),
            doc_u64s(*final(doc)) == doc_u64s(*old(doc)),
            doc_bools(*final(doc)) == doc_bools(*old(doc)),
            doc_dates(*final(doc)) == doc_dates(*old(doc)),
    {
        match content_opt {
            Option::Some(content) => {
                if content.as_str().unicode_len() > 0 {
                    doc_add_text(doc, &self.embed_content, content.as_str());
                }
                proof {
                    assert(doc_texts(*doc) =~= doc_texts(*old(doc)) + tag_texts(
                        6,
                        opt_text_ref(content_opt),
                    ));
                }
            },
            Option::None => {
                proof {
                    assert(doc_texts(*doc) =~= doc_texts(*old(doc)) + tag_texts(
                        6,
                        opt_text_ref(content_opt),
                    ));
                }
            },
        }
    }

    /// Maps one message onto one document: the five scalar fields, the
    /// flattened embed text, the mentions, and the media tags.
    #[verifier::rlimit(100)]
    pub fn parse_message(&self, message: &RawMessage) -> (doc: tantivy::schema::Document)
        requires
            self.wf(),
        ensures
            doc_u64s(doc) == mapped_u64s(*message),
            doc_texts(doc) == mapped_texts(*message),
            doc_bools(doc) == mapped_bools(*message),
            doc_dates(doc) == mapped_dates(*message),
    {
        // the fields that don't need a loop
        let mut doc = doc_new();
        doc_add_u64(&mut doc, &self.id, message.id);
        doc_add_u64(&mut doc, &self.author_id, message.author_id);
        doc_add_u64(&mut doc, &self.channel_id, message.channel_id);
        doc_add_text(&mut doc, &self.content, message.content.as_str());
        doc_add_timestamp(&mut doc, &self.timestamp, clamp_timestamp_secs(message.timestamp_secs));
        doc_add_bool(&mut doc, &self.pinned, message.pinned);

        let ghost base_u64s = seq![
            (0int, message.id),
            (1int, message.author_id),
            (2int, message.channel_id),
        ];
        let ghost base_texts = seq![(3int, message.content@)];
        proof {
            assert(doc_u64s(doc) =~= base_u64s);
            assert(doc_texts(doc) =~= base_texts);
            assert(doc_bools(doc) =~= mapped_bools(*message));
            assert(doc_dates(doc) =~= mapped_dates(*message));
            assert(message.embeds@.take(0) =~= Seq::<Embed>::empty());
            assert(base_texts + tag_texts(6, embeds_texts(message.embeds@.take(0))) =~= base_texts);
        }

        let mut i: usize = 0;
        while i < message.embeds.len()
            invariant
                self.wf(),
                i <= message.embeds@.len(),
                base_u64s == seq![
                    (0int, message.id),
                    (1int, message.author_id),
                    (2int, message.channel_id),
                ],
                base_texts == seq![(3int, message.content@)],
                doc_u64s(doc) == base_u64s,
                doc_texts(doc) == base_texts + tag_texts(
                    6,
                    embeds_texts(message.embeds@.take(i as int)),
                ),
                doc_bools(doc) == mapped_bools(*message),
                doc_dates(doc) == mapped_dates(*message),
            decreases message.embeds@.len() - i,
        {
            let embed = &message.embeds[i];
            let ghost e = message.embeds@[i as int];
            let ghost pre = doc_texts(doc);
            let author_ref = embed.author_name.as_ref();
            let description_ref = embed.description.as_ref();
            self.add_embed_content(&mut doc, author_ref);
            self.add_embed_content(&mut doc, description_ref);
            proof {
                assert(opt_text_ref(author_ref) =~= opt_text(e.author_name));
                assert(opt_text_ref(description_ref) =~= opt_text(e.description));
                assert(e.fields@.take(0) =~= Seq::<crate::message::EmbedField>::empty());
                assert(doc_texts(doc) =~= pre + tag_texts(6, opt_text(e.author_name)) + tag_texts(
                    6,
                    opt_text(e.description),
                ) + tag_texts(6, fields_texts(e.fields@.take(0))));
            }
            let mut j: usize = 0;
            while j < embed.fields.len()
                invariant
                    self.wf(),
                    j <= embed.fields@.len(),
                    e == *embed,
                    doc_u64s(doc) == base_u64s,
                    doc_texts(doc) == pre + tag_texts(6, opt_text(e.author_name)) + tag_texts(
                        6,
                        opt_text(e.description),
                    ) + tag_texts(6, fields_texts(e.fields@.take(j as int))),
                    doc_bools(doc) == mapped_bools(*message),
                    doc_dates(doc) == mapped_dates(*message),
                decreases embed.fields@.len() - j,
            {
                let field = &embed.fields[j];
                self.add_embed_content(&mut doc, Option::Some(&field.name));
                self.add_embed_content(&mut doc, Option::Some(&field.value));
                proof {
                    assert(e.fields@.take(j as int + 1).drop_last() =~= e.fields@.take(j as int));
                    assert(e.fields@.take(j as int + 1).last() == e.fields@[j as int]);
                    assert(fields_texts(e.fields@.take(j as int + 1)) == fields_texts(
                        e.fields@.take(j as int),
                    ) + field_texts_one(e.fields@[j as int]));
                    assert(doc_texts(doc) =~= pre + tag_texts(6, opt_text(e.author_name))
                        + tag_texts(6, opt_text(e.description)) + tag_texts(
                        6,
                        fields_texts(e.fields@.take(j as int + 1)),
                    ));
                }
                j += 1;
            }
            let footer_ref = embed.footer_text.as_ref();
            let title_ref = embed.title.as_ref();
            self.add_embed_content(&mut doc, footer_ref);
            self.add_embed_content(&mut doc, title_ref);
            proof {
                assert(opt_text_ref(footer_ref) =~= opt_text(e.footer_text));
                assert(opt_text_ref(title_ref) =~= opt_text(e.title));
                assert(e.fields@.take(e.fields@.len() as int) =~= e.fields@);
                assert(doc_texts(doc) =~= pre + tag_texts(6, embed_texts_one(e)));
                assert(message.embeds@.take(i as int + 1).drop_last() =~= message.embeds@.take(
                    i as int,
                ));
                assert(message.embeds@.take(i as int + 1).last() == e);
                assert(embeds_texts(message.embeds@.take(i as int + 1)) == embeds_texts(
                    message.embeds@.take(i as int),
                ) + embed_texts_one(e));
                assert(doc_texts(doc) =~= base_texts + tag_texts(
                    6,
                    embeds_texts(message.embeds@.take(i as int + 1)),
                ));
            }
            i += 1;
        }
        proof {
            assert(message.embeds@.take(message.embeds@.len() as int) =~= message.embeds@);
        }
        let ghost embeds_done_texts = doc_texts(doc);

        let mut k: usize = 0;
        while k < message.mention_user_ids.len()
            invariant
                self.wf(),
                k <= message.mention_user_ids@.len(),
                doc_u64s(doc) == base_u64s + tag_ids(
                    7,
                    message.mention_user_ids@.take(k as int),
                ),
                base_u64s == seq![
                    (0int, message.id),
                    (1int, message.author_id),
                    (2int, message.channel_id),
                ],
                doc_texts(doc) == embeds_done_texts,
                doc_bools(doc) == mapped_bools(*message),
                doc_dates(doc) == mapped_dates(*message),
            decreases message.mention_user_ids@.len() - k,
        {
            doc_add_u64(&mut doc, &self.mention_user_id, message.mention_user_ids[k]);
            proof {
                assert(tag_ids(7, message.mention_user_ids@.take(k as int + 1)) =~= tag_ids(
                    7,
                    message.mention_user_ids@.take(k as int),
                ).push((7int, message.mention_user_ids@[k as int])));
            }
            k += 1;
        }
        proof {
            assert(message.mention_user_ids@.take(message.mention_user_ids@.len() as int)
                =~= message.mention_user_ids@);
            assert(tag_ids(8, message.mention_role_ids@.take(0))
                =~= Seq::<(int, u64)>::empty());
        }
        let ghost users_u64s = doc_u64s(doc);

        let mut l: usize = 0;
        while l < message.mention_role_ids.len()
            invariant
                self.wf(),
                l <= message.mention_role_ids@.len(),
                users_u64s == base_u64s + tag_ids(7, message.mention_user_ids@),
                doc_u64s(doc) == users_u64s + tag_ids(
                    8,
                    message.mention_role_ids@.take(l as int),
                ),
                doc_texts(doc) == embeds_done_texts,
                doc_bools(doc) == mapped_bools(*message),
                doc_dates(doc) == mapped_dates(*message),
            decreases message.mention_role_ids@.len() - l,
        {
            doc_add_u64(&mut doc, &self.mention_role_id, message.mention_role_ids[l]);
            proof {
                assert(tag_ids(8, message.mention_role_ids@.take(l as int + 1)) =~= tag_ids(
                    8,
                    message.mention_role_ids@.take(l as int),
                ).push((8int, message.mention_role_ids@[l as int])));
            }
            l += 1;
        }
        proof {
            assert(message.mention_role_ids@.take(message.mention_role_ids@.len() as int)
                =~= message.mention_role_ids@);
            assert(doc_u64s(doc) =~= mapped_u64s(*message));
        }
        let ghost final_u64s = doc_u64s(doc);

        let categories = MessageMediaType::all();
        proof {
            assert(embeds_done_texts + tag_texts(9, has_tags_upto(*message, 0))
                =~= embeds_done_texts);
        }
        let mut c: usize = 0;
        while c < categories.len()
            invariant
                self.wf(),
                c <= categories@.len(),
                categories@ == category_order(),
                final_u64s == mapped_u64s(*message),
                doc_u64s(doc) == final_u64s,
                doc_texts(doc) == embeds_done_texts + tag_texts(
                    9,
                    has_tags_upto(*message, c as int),
                ),
                doc_bools(doc) == mapped_bools(*message),
                doc_dates(doc) == mapped_dates(*message),
            decreases categories@.len() - c,
        {
            let category = categories[c];
            if category.is_in_message(message) {
                doc_add_text(&mut doc, &self.has, category.name());
            }
            proof {
                assert(has_tags_upto(*message, c as int + 1) == has_tags_upto(*message, c as int)
                    + tag_if(*message, category_order()[c as int]));
                assert(doc_texts(doc) =~= embeds_done_texts + tag_texts(
                    9,
                    has_tags_upto(*message, c as int + 1),
                ));
            }
            c += 1;
        }
        proof {
            assert(categories@.len() == 7);
            assert(doc_texts(doc) =~= mapped_texts(*message));
        }
        doc
    }
}

/// Law: schema construction is deterministic — any two built schemas hold
/// structurally identical field tables, namely the canonical one.
pub proof fn lemma_schema_build_deterministic(a: &MessageSchema, b: &MessageSchema)
    requires
        a.wf(),
        b.wf(),
    ensures
        a.entries() == b.entries(),
        a.entries() == canonical_entries(),
{
}

} // verus!
