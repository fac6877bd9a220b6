//! The mathematical model of the document mapper: for each value kind, the
//! exact sequence of (field ordinal, value) pairs the mapper writes for a
//! given message. A field's ordinal is its index in the schema's field
//! table (see [`crate::schema::canonical_entries`]).

use vstd::prelude::*;
use crate::engine::doc_bools;
use crate::engine::doc_dates;
use crate::engine::doc_texts;
use crate::engine::doc_u64s;
use crate::media::category_order;
use crate::media::spec_has_link;
use crate::media::spec_has_mime_type;
use crate::media::spec_is_in_message;
use crate::media::spec_name;
use crate::media::MessageMediaType;
use crate::message::{Embed, EmbedField, RawMessage};

verus! {

/// Largest whole-second timestamp the schema's date type can hold.
pub const MAX_TIMESTAMP_SECS: i64 = 9_223_372_036_854;

/// Smallest whole-second timestamp the schema's date type can hold.
pub const MIN_TIMESTAMP_SECS: i64 = -9_223_372_036_854;

/// The mapper's policy for timestamps outside the representable range:
/// clamp to the nearest boundary.
pub open spec fn spec_clamp_secs(s: i64) -> i64 {
    if s < MIN_TIMESTAMP_SECS {
        MIN_TIMESTAMP_SECS
    } else if s > MAX_TIMESTAMP_SECS {
        MAX_TIMESTAMP_SECS
    } else {
        s
    }
}

/// A non-empty text contributes one value; an empty one is filtered out.
pub open spec fn nonempty_text(t: Seq<char>) -> Seq<Seq<char>> {
    if t.len() > 0 {
        seq![t]
    } else {
        Seq::empty()
    }
}

/// A present, non-empty optional text contributes one value; an absent or
/// empty one contributes nothing.
pub open spec fn opt_text(o: Option<String>) -> Seq<Seq<char>> {
    match o {
        Option::Some(s) => nonempty_text(s@),
        Option::None => Seq::empty(),
    }
}

/// [`opt_text`] for a borrowed optional text.
pub open spec fn opt_text_ref(o: Option<&String>) -> Seq<Seq<char>> {
    match o {
        Option::Some(s) => nonempty_text(s@),
        Option::None => Seq::empty(),
    }
}

/// Clamps a timestamp to the representable range, the mapper's policy for
/// out-of-range input.
pub fn clamp_timestamp_secs(secs: i64) -> (r: i64)
    ensures
        r == spec_clamp_secs(secs),
        MIN_TIMESTAMP_SECS <= r <= MAX_TIMESTAMP_SECS,
{
    if secs < MIN_TIMESTAMP_SECS {
        MIN_TIMESTAMP_SECS
    } else if secs > MAX_TIMESTAMP_SECS {
        MAX_TIMESTAMP_SECS
    } else {
        secs
    }
}

/// One embed field's text: its name, then its value, empty ones filtered
/// out.
pub open spec fn field_texts_one(f: EmbedField) -> Seq<Seq<char>> {
    nonempty_text(f.name@) + nonempty_text(f.value@)
}

/// All embed fields' text, in field order.
pub open spec fn fields_texts(fs: Seq<EmbedField>) -> Seq<Seq<char>>
    decreases fs.len(),
{
    if fs.len() == 0 {
        Seq::empty()
    } else {
        fields_texts(fs.drop_last()) + field_texts_one(fs.last())
    }
}

/// One embed's flattened text, in the fixed order: author name,
/// description, each field's name then value, footer, title.
pub open spec fn embed_texts_one(e: Embed) -> Seq<Seq<char>> {
    opt_text(e.author_name) + opt_text(e.description) + fields_texts(e.fields@) + opt_text(
        e.footer_text,
    ) + opt_text(e.title)
}

/// All embeds' flattened text, in embed order.
pub open spec fn embeds_texts(es: Seq<Embed>) -> Seq<Seq<char>>
    decreases es.len(),
{
    if es.len() == 0 {
        Seq::empty()
    } else {
        embeds_texts(es.drop_last()) + embed_texts_one(es.last())
    }
}

/// The category's tag if the message exhibits it, else nothing.
pub open spec fn tag_if(m: RawMessage, t: MessageMediaType) -> Seq<Seq<char>> {
    if spec_is_in_message(t, m) {
        seq![spec_name(t)]
    } else {
        Seq::empty()
    }
}

/// The tags of the first `k` categories (in enumeration order) the message
/// exhibits.
pub open spec fn has_tags_upto(m: RawMessage, k: int) -> Seq<Seq<char>>
    decreases k,
{
    if k <= 0 {
        Seq::empty()
    } else {
        has_tags_upto(m, k - 1) + tag_if(m, category_order()[k - 1])
    }
}

/// The tags of every category the message exhibits, in enumeration order.
pub open spec fn has_tags(m: RawMessage) -> Seq<Seq<char>> {
    has_tags_upto(m, category_order().len() as int)
}

/// Pairs each value with the field ordinal it is written under.
pub open spec fn tag_ids(k: int, ids: Seq<u64>) -> Seq<(int, u64)> {
    ids.map_values(|u: u64| (k, u))
}

/// Pairs each text with the field ordinal it is written under.
pub open spec fn tag_texts(k: int, ts: Seq<Seq<char>>) -> Seq<(int, Seq<char>)> {
    ts.map_values(|t: Seq<char>| (k, t))
}

/// The mapped document's u64 values: id, author id, channel id, then one
/// value per user mention, then one per role mention.
pub open spec fn mapped_u64s(m: RawMessage) -> Seq<(int, u64)> {
    seq![(0int, m.id), (1int, m.author_id), (2int, m.channel_id)] + tag_ids(
        7,
        m.mention_user_ids@,
    ) + tag_ids(8, m.mention_role_ids@)
}

/// The mapped document's text values: the content verbatim, then the
/// flattened embed text, then the media tags.
pub open spec fn mapped_texts(m: RawMessage) -> Seq<(int, Seq<char>)> {
    seq![(3int, m.content@)] + tag_texts(6, embeds_texts(m.embeds@)) + tag_texts(9, has_tags(m))
}

/// The mapped document's boolean values: the pinned flag.
pub open spec fn mapped_bools(m: RawMessage) -> Seq<(int, bool)> {
    seq![(5int, m.pinned)]
}

/// The mapped document's date values: the clamped whole-second timestamp.
pub open spec fn mapped_dates(m: RawMessage) -> Seq<(int, i64)> {
    seq![(4int, spec_clamp_secs(m.timestamp_secs))]
}

proof fn lemma_contains_concat(a: Seq<Seq<char>>, b: Seq<Seq<char>>, x: Seq<char>)
    ensures
        (a + b).contains(x) == (a.contains(x) || b.contains(x)),
{
    if (a + b).contains(x) {
        let i = choose|i: int| 0 <= i < (a + b).len() && (a + b)[i] == x;
        if i < a.len() {
            assert(a[i] == x);
        } else {
            assert(b[i - a.len()] == x);
        }
    }
    if a.contains(x) {
        let i = choose|i: int| 0 <= i < a.len() && a[i] == x;
        assert((a + b)[i] == x);
    }
    if b.contains(x) {
        let i = choose|i: int| 0 <= i < b.len() && b[i] == x;
        assert((a + b)[a.len() + i] == x);
    }
}

proof fn lemma_tag_if_contains(m: RawMessage, t: MessageMediaType, x: Seq<char>)
    ensures
        tag_if(m, t).contains(x) == (spec_is_in_message(t, m) && x == spec_name(t)),
{
    if spec_is_in_message(t, m) && x == spec_name(t) {
        assert(tag_if(m, t)[0] == x);
    }
}

proof fn lemma_spec_name_injective(a: MessageMediaType, b: MessageMediaType)
    ensures
        (spec_name(a) == spec_name(b)) == (a == b),
{
    reveal_strlit("link");
    reveal_strlit("embed");
    reveal_strlit("file");
    reveal_strlit("video");
    reveal_strlit("image");
    reveal_strlit("sound");
    reveal_strlit("sticker");
    assert("link"@.len() == 4 && "link"@[0] == 'l');
    assert("embed"@.len() == 5 && "embed"@[0] == 'e');
    assert("file"@.len() == 4 && "file"@[0] == 'f');
    assert("video"@.len() == 5 && "video"@[0] == 'v');
    assert("image"@.len() == 5 && "image"@[0] == 'i');
    assert("sound"@.len() == 5 && "sound"@[0] == 's');
    assert("sticker"@.len() == 7 && "sticker"@[0] == 's');
}

proof fn lemma_has_tags_contains_cat(m: RawMessage, c: MessageMediaType)
    ensures
        has_tags(m).contains(spec_name(c)) == spec_is_in_message(c, m),
{
    let x = spec_name(c);
    let cats = category_order();
    assert(cats.len() == 7);
    assert(has_tags_upto(m, 0) == Seq::<Seq<char>>::empty());
    lemma_contains_concat(has_tags_upto(m, 0), tag_if(m, cats[0]), x);
    lemma_tag_if_contains(m, cats[0], x);
    lemma_spec_name_injective(c, cats[0]);
    lemma_contains_concat(has_tags_upto(m, 1), tag_if(m, cats[1]), x);
    lemma_tag_if_contains(m, cats[1], x);
    lemma_spec_name_injective(c, cats[1]);
    lemma_contains_concat(has_tags_upto(m, 2), tag_if(m, cats[2]), x);
    lemma_tag_if_contains(m, cats[2], x);
    lemma_spec_name_injective(c, cats[2]);
    lemma_contains_concat(has_tags_upto(m, 3), tag_if(m, cats[3]), x);
    lemma_tag_if_contains(m, cats[3], x);
    lemma_spec_name_injective(c, cats[3]);
    lemma_contains_concat(has_tags_upto(m, 4), tag_if(m, cats[4]), x);
    lemma_tag_if_contains(m, cats[4], x);
    lemma_spec_name_injective(c, cats[4]);
    lemma_contains_concat(has_tags_upto(m, 5), tag_if(m, cats[5]), x);
    lemma_tag_if_contains(m, cats[5], x);
    lemma_spec_name_injective(c, cats[5]);
    lemma_contains_concat(has_tags_upto(m, 6), tag_if(m, cats[6]), x);
    lemma_tag_if_contains(m, cats[6], x);
    lemma_spec_name_injective(c, cats[6]);
    assert(has_tags(m) == has_tags_upto(m, 7));
}

/// Law: the `has` tags characterize the message exactly — the tag list
/// carries a category's tag if and only if the message exhibits that
/// category, for every category at once.
pub proof fn lemma_has_tags_characterization(m: RawMessage)
    ensures
        has_tags(m).contains("link"@) == spec_has_link(m.content@),
        has_tags(m).contains("embed"@) == (m.embeds@.len() > 0),
        has_tags(m).contains("file"@) == (m.attachments@.len() > 0),
        has_tags(m).contains("video"@) == spec_has_mime_type(m, "video"@),
        has_tags(m).contains("image"@) == spec_has_mime_type(m, "image"@),
        has_tags(m).contains("sound"@) == spec_has_mime_type(m, "audio"@),
        has_tags(m).contains("sticker"@) == (m.sticker_ids@.len() > 0),
{
    lemma_has_tags_contains_cat(m, MessageMediaType::Link);
    lemma_has_tags_contains_cat(m, MessageMediaType::Embed);
    lemma_has_tags_contains_cat(m, MessageMediaType::File);
    lemma_has_tags_contains_cat(m, MessageMediaType::Video);
    lemma_has_tags_contains_cat(m, MessageMediaType::Image);
    lemma_has_tags_contains_cat(m, MessageMediaType::Sound);
    lemma_has_tags_contains_cat(m, MessageMediaType::Sticker);
}

/// The values written under field ordinal `k` in `s`, in order.
pub open spec fn values_for<V>(s: Seq<(int, V)>, k: int) -> Seq<V>
    decreases s.len(),
{
    if s.len() == 0 {
        Seq::empty()
    } else if s.last().0 == k {
        values_for(s.drop_last(), k).push(s.last().1)
    } else {
        values_for(s.drop_last(), k)
    }
}

proof fn lemma_values_for_concat<V>(a: Seq<(int, V)>, b: Seq<(int, V)>, k: int)
    ensures
        values_for(a + b, k) == values_for(a, k) + values_for(b, k),
    decreases b.len(),
{
    if b.len() == 0 {
        assert(a + b =~= a);
        assert(values_for(b, k) == Seq::<V>::empty());
        assert(values_for(a, k) + Seq::<V>::empty() =~= values_for(a, k));
    } else {
        lemma_values_for_concat(a, b.drop_last(), k);
        assert((a + b).drop_last() =~= a + b.drop_last());
        assert((a + b).last() == b.last());
        if b.last().0 == k {
            assert(values_for(a, k) + values_for(b.drop_last(), k).push(b.last().1) =~= (
            values_for(a, k) + values_for(b.drop_last(), k)).push(b.last().1));
        }
    }
}

proof fn lemma_values_for_tagged<V>(vs: Seq<V>, k: int, f: spec_fn(V) -> (int, V))
    requires
        forall|v: V| (#[trigger] f(v)) == (k, v),
    ensures
        values_for(vs.map_values(f), k) == vs,
        forall|other: int| other != k ==> values_for(vs.map_values(f), other) == Seq::<V>::empty(),
    decreases vs.len(),
{
    if vs.len() == 0 {
        assert(vs.map_values(f) =~= Seq::<(int, V)>::empty());
    } else {
        lemma_values_for_tagged(vs.drop_last(), k, f);
        assert(vs.map_values(f).drop_last() =~= vs.drop_last().map_values(f));
        assert(vs.map_values(f).last() == (k, vs.last()));
        assert(vs.drop_last().push(vs.last()) =~= vs);
        assert forall|other: int| other != k implies values_for(vs.map_values(f), other)
            == Seq::<V>::empty() by {
            assert(values_for(vs.map_values(f), other) == values_for(
                vs.drop_last().map_values(f),
                other,
            ));
        }
    }
}

proof fn lemma_values_for_single<V>(e: (int, V), k: int)
    ensures
        values_for(seq![e], k) == if e.0 == k {
            seq![e.1]
        } else {
            Seq::<V>::empty()
        },
{
    assert(seq![e].drop_last() =~= Seq::<(int, V)>::empty());
    assert(seq![e].last() == e);
    assert(values_for(Seq::<(int, V)>::empty(), k) == Seq::<V>::empty());
    if e.0 == k {
        assert(values_for(seq![e], k) =~= seq![e.1]);
    }
}

/// Law: each mention field carries exactly the source message's mentions of
/// its own kind — one value per mention, in source order, and a role id
/// never reaches the user field nor a user id the role field.
pub proof fn lemma_mention_fields_exact(m: RawMessage)
    ensures
        values_for(mapped_u64s(m), 7) == m.mention_user_ids@,
        values_for(mapped_u64s(m), 8) == m.mention_role_ids@,
{
    let base = seq![(0int, m.id), (1int, m.author_id), (2int, m.channel_id)];
    let users = tag_ids(7, m.mention_user_ids@);
    let roles = tag_ids(8, m.mention_role_ids@);
    let b2 = seq![(0int, m.id), (1int, m.author_id)];
    let b1 = seq![(0int, m.id)];
    assert(base.drop_last() =~= b2);
    assert(b2.drop_last() =~= b1);
    assert(b1.drop_last() =~= Seq::<(int, u64)>::empty());
    assert(values_for(Seq::<(int, u64)>::empty(), 7) == Seq::<u64>::empty());
    assert(values_for(b1, 7) == Seq::<u64>::empty());
    assert(values_for(b2, 7) == Seq::<u64>::empty());
    assert(values_for(base, 7) == Seq::<u64>::empty());
    assert(values_for(Seq::<(int, u64)>::empty(), 8) == Seq::<u64>::empty());
    assert(values_for(b1, 8) == Seq::<u64>::empty());
    assert(values_for(b2, 8) == Seq::<u64>::empty());
    assert(values_for(base, 8) == Seq::<u64>::empty());
    lemma_values_for_concat(base + users, roles, 7);
    lemma_values_for_concat(base, users, 7);
    lemma_values_for_concat(base + users, roles, 8);
    lemma_values_for_concat(base, users, 8);
    lemma_values_for_tagged(m.mention_user_ids@, 7, |u: u64| (7int, u));
    lemma_values_for_tagged(m.mention_role_ids@, 8, |u: u64| (8int, u));
    assert(values_for(mapped_u64s(m), 7) =~= m.mention_user_ids@);
    assert(values_for(mapped_u64s(m), 8) =~= m.mention_role_ids@);
}

/// Law: the document's text fields are exactly what the mapper owes them —
/// one content value verbatim, the flattened embed text under
/// `embed_content`, and the matching categories' tags under `has`.
pub proof fn lemma_text_fields_exact(m: RawMessage)
    ensures
        values_for(mapped_texts(m), 3) == seq![m.content@],
        values_for(mapped_texts(m), 6) == embeds_texts(m.embeds@),
        values_for(mapped_texts(m), 9) == has_tags(m),
{
    let head = seq![(3int, m.content@)];
    let embed_part = tag_texts(6, embeds_texts(m.embeds@));
    let has_part = tag_texts(9, has_tags(m));
    lemma_values_for_single((3int, m.content@), 3);
    lemma_values_for_single((3int, m.content@), 6);
    lemma_values_for_single((3int, m.content@), 9);
    lemma_values_for_concat(head + embed_part, has_part, 3);
    lemma_values_for_concat(head, embed_part, 3);
    lemma_values_for_concat(head + embed_part, has_part, 6);
    lemma_values_for_concat(head, embed_part, 6);
    lemma_values_for_concat(head + embed_part, has_part, 9);
    lemma_values_for_concat(head, embed_part, 9);
    lemma_values_for_tagged(embeds_texts(m.embeds@), 6, |t: Seq<char>| (6int, t));
    lemma_values_for_tagged(has_tags(m), 9, |t: Seq<char>| (9int, t));
    assert(values_for(mapped_texts(m), 3) =~= seq![m.content@]);
    assert(values_for(mapped_texts(m), 6) =~= embeds_texts(m.embeds@));
    assert(values_for(mapped_texts(m), 9) =~= has_tags(m));
}

/// Law: the mapper is a pure function of the message — any two documents
/// mapped from the same message hold identical field contents.
pub proof fn lemma_mapper_deterministic(
    m: RawMessage,
    d1: tantivy::schema::Document,
    d2: tantivy::schema::Document,
)
    requires
        doc_u64s(d1) == mapped_u64s(m),
        doc_texts(d1) == mapped_texts(m),
        doc_bools(d1) == mapped_bools(m),
        doc_dates(d1) == mapped_dates(m),
        doc_u64s(d2) == mapped_u64s(m),
        doc_texts(d2) == mapped_texts(m),
        doc_bools(d2) == mapped_bools(m),
        doc_dates(d2) == mapped_dates(m),
    ensures
        doc_u64s(d1) == doc_u64s(d2),
        doc_texts(d1) == doc_texts(d2),
        doc_bools(d1) == doc_bools(d2),
        doc_dates(d1) == doc_dates(d2),
{
}

} // verus!
