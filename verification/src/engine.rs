//! Trusted declarations for the tantivy search engine.
//!
//! tantivy's builder, schema, field handle and document types are opaque
//! here. Their contents are modelled by uninterpreted functions: a field
//! table entry is the tuple `(name, kind, stored, indexed, fast,
//! tokenized)`, and a document's values are sequences of `(field ordinal,
//! value)` pairs, one sequence per value kind, in order of addition. Every
//! wrapper below states over these models exactly what the tantivy source
//! shows of the one call its body makes.

use vstd::prelude::*;

verus! {

#[verifier::external_type_specification]
#[verifier::external_body]
pub struct ExSchemaBuilder(tantivy::schema::SchemaBuilder);

#[verifier::external_type_specification]
#[verifier::external_body]
pub struct ExSchema(tantivy::schema::Schema);

#[verifier::external_type_specification]
#[verifier::external_body]
pub struct ExField(tantivy::schema::Field);

#[verifier::external_type_specification]
#[verifier::external_body]
pub struct ExDocument(tantivy::schema::Document);

/// A field table entry: name, value kind, stored, indexed, fast, tokenized.
pub type FieldEntryModel = (Seq<char>, int, bool, bool, bool, bool);

/// Model code for u64 fields.
pub open spec fn kind_u64() -> int {
    0
}

/// Model code for text fields.
pub open spec fn kind_text() -> int {
    1
}

/// Model code for date fields.
pub open spec fn kind_date() -> int {
    2
}

/// Model code for boolean fields.
pub open spec fn kind_bool() -> int {
    3
}

/// The field table a builder has accumulated, in order of addition.
pub uninterp spec fn builder_entries(b: tantivy::schema::SchemaBuilder) -> Seq<FieldEntryModel>;

/// The field table of a finished schema, in order of addition.
pub uninterp spec fn schema_entries(s: tantivy::schema::Schema) -> Seq<FieldEntryModel>;

/// The ordinal a field handle denotes: its index in the field table, as
/// `Field::field_id` returns it.
pub uninterp spec fn field_ord(f: tantivy::schema::Field) -> int;

/// The document's u64 values as (field ordinal, value), in order of addition.
pub uninterp spec fn doc_u64s(d: tantivy::schema::Document) -> Seq<(int, u64)>;

/// The document's text values as (field ordinal, text), in order of addition.
pub uninterp spec fn doc_texts(d: tantivy::schema::Document) -> Seq<(int, Seq<char>)>;

/// The document's boolean values as (field ordinal, value), in order of addition.
pub uninterp spec fn doc_bools(d: tantivy::schema::Document) -> Seq<(int, bool)>;

/// The document's date values as (field ordinal, whole-second UNIX
/// timestamp), in order of addition.
pub uninterp spec fn doc_dates(d: tantivy::schema::Document) -> Seq<(int, i64)>;

/// No entry of `entries` is named `name`. tantivy's builder panics when a
/// field name is added twice, so every `add_*_field` wrapper requires this.
pub open spec fn name_free(entries: Seq<FieldEntryModel>, name: Seq<char>) -> bool {
    forall|i: int| 0 <= i < entries.len() ==> entries[i].0 != name
}

/// tantivy's rule for an acceptable field name (`is_valid_field_name`): at
/// least one character, not starting with `-`. `FieldEntry::new` asserts
/// it, so every `add_*_field` wrapper requires this.
pub open spec fn valid_field_name(name: Seq<char>) -> bool {
    name.len() > 0 && name[0] != '-'
}

/// Relies on tantivy's `Schema::builder`: a fresh builder holds no fields.
#[verifier::external_body]
pub(crate) fn new_schema_builder() -> (b: tantivy::schema::SchemaBuilder)
    ensures
        builder_entries(b) == Seq::<FieldEntryModel>::empty(),
{
    tantivy::schema::Schema::builder()
}

/// Relies on tantivy's `SchemaBuilder::add_u64_field` with `STORED`:
/// appends one stored-only u64 entry; handles are numbered in order of
/// addition.
#[verifier::external_body]
pub(crate) fn add_u64_field_stored(
    b: &mut tantivy::schema::SchemaBuilder,
    name: &str,
) -> (f: tantivy::schema::Field)
    requires
        name_free(builder_entries(*old(b)), name@),
        valid_field_name(name@),
    ensures
        builder_entries(*final(b)) == builder_entries(*old(b)).push(
            (name@, kind_u64(), true, false, false, false),
        ),
        field_ord(f) == builder_entries(*old(b)).len() as int,
{
    b.add_u64_field(name, tantivy::schema::STORED)
}

/// Relies on tantivy's `SchemaBuilder::add_u64_field` with `INDEXED`:
/// appends one indexed u64 entry; handles are numbered in order of
/// addition.
#[verifier::external_body]
pub(crate) fn add_u64_field_indexed(
    b: &mut tantivy::schema::SchemaBuilder,
    name: &str,
) -> (f: tantivy::schema::Field)
    requires
        name_free(builder_entries(*old(b)), name@),
        valid_field_name(name@),
    ensures
        builder_entries(*final(b)) == builder_entries(*old(b)).push(
            (name@, kind_u64(), false, true, false, false),
        ),
        field_ord(f) == builder_entries(*old(b)).len() as int,
{
    b.add_u64_field(name, tantivy::schema::INDEXED)
}

/// Relies on tantivy's `SchemaBuilder::add_u64_field` with
/// `INDEXED | FAST`: appends one indexed, fast u64 entry; handles are
/// numbered in order of addition.
#[verifier::external_body]
pub(crate) fn add_u64_field_indexed_fast(
    b: &mut tantivy::schema::SchemaBuilder,
    name: &str,
) -> (f: tantivy::schema::Field)
    requires
        name_free(builder_entries(*old(b)), name@),
        valid_field_name(name@),
    ensures
        builder_entries(*final(b)) == builder_entries(*old(b)).push(
            (name@, kind_u64(), false, true, true, false),
        ),
        field_ord(f) == builder_entries(*old(b)).len() as int,
{
    b.add_u64_field(name, tantivy::schema::INDEXED | tantivy::schema::FAST)
}

/// Relies on tantivy's `SchemaBuilder::add_text_field` with
/// `TEXT | STORED`: appends one tokenized, indexed, stored text entry;
/// handles are numbered in order of addition.
#[verifier::external_body]
pub(crate) fn add_text_field_tokenized_stored(
    b: &mut tantivy::schema::SchemaBuilder,
    name: &str,
) -> (f: tantivy::schema::Field)
    requires
        name_free(builder_entries(*old(b)), name@),
        valid_field_name(name@),
    ensures
        builder_entries(*final(b)) == builder_entries(*old(b)).push(
            (name@, kind_text(), true, true, false, true),
        ),
        field_ord(f) == builder_entries(*old(b)).len() as int,
{
    b.add_text_field(name, tantivy::schema::TEXT | tantivy::schema::STORED)
}

/// Relies on tantivy's `SchemaBuilder::add_text_field` with `TEXT`:
/// appends one tokenized, indexed text entry; handles are numbered in
/// order of addition.
#[verifier::external_body]
pub(crate) fn add_text_field_tokenized(
    b: &mut tantivy::schema::SchemaBuilder,
    name: &str,
) -> (f: tantivy::schema::Field)
    requires
        name_free(builder_entries(*old(b)), name@),
        valid_field_name(name@),
    ensures
        builder_entries(*final(b)) == builder_entries(*old(b)).push(
            (name@, kind_text(), false, true, false, true),
        ),
        field_ord(f) == builder_entries(*old(b)).len() as int,
{
    b.add_text_field(name, tantivy::schema::TEXT)
}

/// Relies on tantivy's `SchemaBuilder::add_text_field` with `STRING`:
/// appends one untokenized, indexed text entry; handles are numbered in
/// order of addition.
#[verifier::external_body]
pub(crate) fn add_text_field_exact(
    b: &mut tantivy::schema::SchemaBuilder,
    name: &str,
) -> (f: tantivy::schema::Field)
    requires
        name_free(builder_entries(*old(b)), name@),
        valid_field_name(name@),
    ensures
        builder_entries(*final(b)) == builder_entries(*old(b)).push(
            (name@, kind_text(), false, true, false, false),
        ),
        field_ord(f) == builder_entries(*old(b)).len() as int,
{
    b.add_text_field(name, tantivy::schema::STRING)
}

/// Relies on tantivy's `SchemaBuilder::add_date_field` with `INDEXED`:
/// appends one indexed date entry; handles are numbered in order of
/// addition.
#[verifier::external_body]
pub(crate) fn add_date_field_indexed(
    b: &mut tantivy::schema::SchemaBuilder,
    name: &str,
) -> (f: tantivy::schema::Field)
    requires
        name_free(builder_entries(*old(b)), name@),
        valid_field_name(name@),
    ensures
        builder_entries(*final(b)) == builder_entries(*old(b)).push(
            (name@, kind_date(), false, true, false, false),
        ),
        field_ord(f) == builder_entries(*old(b)).len() as int,
{
    b.add_date_field(name, tantivy::schema::INDEXED)
}

/// Relies on tantivy's `SchemaBuilder::add_bool_field` with `INDEXED`:
/// appends one indexed boolean entry; handles are numbered in order of
/// addition.
#[verifier::external_body]
pub(crate) fn add_bool_field_indexed(
    b: &mut tantivy::schema::SchemaBuilder,
    name: &str,
) -> (f: tantivy::schema::Field)
    requires
        name_free(builder_entries(*old(b)), name@),
        valid_field_name(name@),
    ensures
        builder_entries(*final(b)) == builder_entries(*old(b)).push(
            (name@, kind_bool(), false, true, false, false),
        ),
        field_ord(f) == builder_entries(*old(b)).len() as int,
{
    b.add_bool_field(name, tantivy::schema::INDEXED)
}

/// Relies on tantivy's `SchemaBuilder::build`: the finished schema holds
/// exactly the fields added to the builder, in order.
#[verifier::external_body]
pub(crate) fn build_schema(b: tantivy::schema::SchemaBuilder) -> (s: tantivy::schema::Schema)
    ensures
        schema_entries(s) == builder_entries(b),
{
    b.build()
}

/// Relies on tantivy's `Schema::clone` (an `Arc` clone of the shared inner
/// schema): the clone holds the same field table.
#[verifier::external_body]
pub(crate) fn clone_schema(s: &tantivy::schema::Schema) -> (r: tantivy::schema::Schema)
    ensures
        schema_entries(r) == schema_entries(*s),
{
    s.clone()
}

/// Relies on tantivy's `Document::new`: a fresh document holds no values.
#[verifier::external_body]
pub(crate) fn doc_new() -> (d: tantivy::schema::Document)
    ensures
        doc_u64s(d) == Seq::<(int, u64)>::empty(),
        doc_texts(d) == Seq::<(int, Seq<char>)>::empty(),
        doc_bools(d) == Seq::<(int, bool)>::empty(),
        doc_dates(d) == Seq::<(int, i64)>::empty(),
{
    tantivy::schema::Document::new()
}

/// Relies on tantivy's `Document::add_u64`: appends one (field, value)
/// pair and touches nothing else.
#[verifier::external_body]
pub(crate) fn doc_add_u64(d: &mut tantivy::schema::Document, f: &tantivy::schema::Field, v: u64)
    ensures
        doc_u64s(*final(d)) == doc_u64s(*old(d)).push((field_ord(*f), v)),
        doc_texts(*final(d)) == doc_texts(*old(d)),
        doc_bools(*final(d)) == doc_bools(*old(d)),
        doc_dates(*final(d)) == doc_dates(*old(d)),
{
    d.add_u64(*f, v)
}

/// Relies on tantivy's `Document::add_text`: appends one (field, text)
/// pair and touches nothing else.
#[verifier::external_body]
pub(crate) fn doc_add_text(d: &mut tantivy::schema::Document, f: &tantivy::schema::Field, v: &str)
    ensures
        doc_texts(*final(d)) == doc_texts(*old(d)).push((field_ord(*f), v@)),
        doc_u64s(*final(d)) == doc_u64s(*old(d)),
        doc_bools(*final(d)) == doc_bools(*old(d)),
        doc_dates(*final(d)) == doc_dates(*old(d)),
{
    d.add_text(*f, v)
}

/// Relies on tantivy's `Document::add_bool`: appends one (field, value)
/// pair and touches nothing else.
#[verifier::external_body]
pub(crate) fn doc_add_bool(d: &mut tantivy::schema::Document, f: &tantivy::schema::Field, v: bool)
    ensures
        doc_bools(*final(d)) == doc_bools(*old(d)).push((field_ord(*f), v)),
        doc_u64s(*final(d)) == doc_u64s(*old(d)),
        doc_texts(*final(d)) == doc_texts(*old(d)),
        doc_dates(*final(d)) == doc_dates(*old(d)),
{
    d.add_bool(*f, v)
}

/// Relies on tantivy's `Document::add_date` and
/// `DateTime::from_timestamp_secs`: appends one (field, date) pair holding
/// the given whole-second UNIX timestamp and touches nothing else.
/// `from_timestamp_secs` multiplies the seconds by 1,000,000 to get
/// microseconds, so the seconds must keep that product inside `i64`.
#[verifier::external_body]
pub(crate) fn doc_add_timestamp(
    d: &mut tantivy::schema::Document,
    f: &tantivy::schema::Field,
    secs: i64,
)
    requires
        -9_223_372_036_854 <= secs <= 9_223_372_036_854,
    ensures
        doc_dates(*final(d)) == doc_dates(*old(d)).push((field_ord(*f), secs)),
        doc_u64s(*final(d)) == doc_u64s(*old(d)),
        doc_texts(*final(d)) == doc_texts(*old(d)),
        doc_bools(*final(d)) == doc_bools(*old(d)),
{
    d.add_date(*f, tantivy::DateTime::from_timestamp_secs(secs))
}

} // verus!
