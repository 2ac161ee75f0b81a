//! The search engine.
//!
//! The engine is `tantivy`. This module declares to it what the library has
//! decided: the fields of the schema, the values of a document and the
//! clauses of a compiled query. What the engine holds after each call is
//! named by an uninterpreted function, and each call states what it does to
//! those contents; the loops that make the calls are verified against that.

use crate::config::field_views;
use crate::config::DataType;
use crate::config::FieldConfig;
use crate::config::FieldConfigView;
use crate::document::Document;
use crate::document::FieldValueView;
use crate::document::Value;
use crate::document::ValueView;
use crate::handler::search::ClauseView;
use crate::handler::search::MatcherView;
use crate::handler::search::PredicateView;
use crate::handler::Clause;
use crate::handler::CompiledQuery;
use crate::handler::Matcher;
use crate::handler::Occurrence;
use crate::handler::Predicate;
use crate::index::catalogue_views;
use crate::index::kind_of;
use crate::index::CatalogueEntry;
use crate::index::CatalogueEntryView;
use crate::index::FieldKind;
use crate::index::TextIndexError;
use crate::index::TextIndexErrorKind;
use crate::index::TextIndexResult;
use vstd::prelude::*;
use vstd::string::StringExecFns;

verus! {

/// `tantivy::schema::SchemaBuilder`, of which only `builder_entries` is
/// known.
#[verifier::external_type_specification]
#[verifier::external_body]
pub struct ExSchemaBuilder(tantivy::schema::SchemaBuilder);

/// `tantivy::schema::Schema`, of which only `schema_entries` is known.
#[verifier::external_type_specification]
#[verifier::external_body]
pub struct ExSchema(tantivy::schema::Schema);

/// `tantivy::TantivyDocument`, of which only `engine_values` is known.
#[verifier::external_type_specification]
#[verifier::external_body]
pub struct ExTantivyDocument(tantivy::TantivyDocument);

/// `tantivy::query::BooleanQuery`, of which only `boolean_clauses` is known.
#[verifier::external_type_specification]
#[verifier::external_body]
pub struct ExBooleanQuery(tantivy::query::BooleanQuery);

/// The fields that were added to a schema builder, in the order in which
/// they were added.
pub uninterp spec fn builder_entries(builder: tantivy::schema::SchemaBuilder) -> Seq<
    CatalogueEntryView,
>;

/// The fields of a schema, in the order of their handles.
pub uninterp spec fn schema_entries(schema: tantivy::schema::Schema) -> Seq<CatalogueEntryView>;

/// The values of an engine document, in the order in which they were added.
pub uninterp spec fn engine_values(document: tantivy::TantivyDocument) -> Seq<FieldValueView>;

/// The clauses of a boolean query of the engine, in order.
pub uninterp spec fn boolean_clauses(query: tantivy::query::BooleanQuery) -> Seq<ClauseView>;

/// The most fields that a schema can have: the engine counts the fields of a
/// document in sixteen bits.
pub const MAX_FIELDS: usize = 65536;

/// Whether the engine takes `name` as the name of a field: it is not empty
/// and does not start with `-`.
pub open spec fn valid_name(name: Seq<char>) -> bool {
    name.len() > 0 && name[0] != '-'
}

/// Whether one of the entries has the name.
pub open spec fn lists(entries: Seq<CatalogueEntryView>, name: Seq<char>) -> bool {
    exists|i: int| 0 <= i < entries.len() && (#[trigger] entries[i]).name == name
}

/// `Schema::builder`: a builder to which no field was added.
#[verifier::external_body]
fn schema_builder() -> (builder: tantivy::schema::SchemaBuilder)
    ensures
        builder_entries(builder).len() == 0,
{
    tantivy::schema::Schema::builder()
}

/// `SchemaBuilder::add_i64_field` with the options `STORED`: adds a signed
/// field that is stored and not indexed, and returns its handle, which is
/// the number of fields added before. The call panics on a name that is
/// not valid or already taken, which `requires` leaves out.
#[verifier::external_body]
fn add_i64_stored(builder: &mut tantivy::schema::SchemaBuilder, name: &str) -> (handle: u32)
    requires
        valid_name(name@),
        !lists(builder_entries(*old(builder)), name@),
        builder_entries(*old(builder)).len() < MAX_FIELDS,
    ensures
        handle == builder_entries(*old(builder)).len(),
        builder_entries(*final(builder)) == builder_entries(*old(builder)).push(
            CatalogueEntryView {
                name: name@,
                handle,
                kind: Some(FieldKind::Int),
                indexed: false,
            },
        ),
{
    builder.add_i64_field(name, tantivy::schema::STORED).field_id()
}

/// `SchemaBuilder::add_i64_field` with the options `INDEXED | STORED`: as
/// `add_i64_stored`, for a field that is indexed too.
#[verifier::external_body]
fn add_i64_indexed(builder: &mut tantivy::schema::SchemaBuilder, name: &str) -> (handle: u32)
    requires
        valid_name(name@),
        !lists(builder_entries(*old(builder)), name@),
        builder_entries(*old(builder)).len() < MAX_FIELDS,
    ensures
        handle == builder_entries(*old(builder)).len(),
        builder_entries(*final(builder)) == builder_entries(*old(builder)).push(
            CatalogueEntryView {
                name: name@,
                handle,
                kind: Some(FieldKind::Int),
                indexed: true,
            },
        ),
{
    builder.add_i64_field(name, tantivy::schema::INDEXED | tantivy::schema::STORED).field_id()
}

/// `SchemaBuilder::add_u64_field` with the options `STORED`: adds an
/// unsigned field that is stored and not indexed, and returns its handle,
/// which is the number of fields added before. The call panics on a name
/// that is not valid or already taken, which `requires` leaves out.
#[verifier::external_body]
fn add_u64_stored(builder: &mut tantivy::schema::SchemaBuilder, name: &str) -> (handle: u32)
    requires
        valid_name(name@),
        !lists(builder_entries(*old(builder)), name@),
        builder_entries(*old(builder)).len() < MAX_FIELDS,
    ensures
        handle == builder_entries(*old(builder)).len(),
        builder_entries(*final(builder)) == builder_entries(*old(builder)).push(
            CatalogueEntryView {
                name: name@,
                handle,
                kind: Some(FieldKind::UInt),
                indexed: false,
            },
        ),
{
    builder.add_u64_field(name, tantivy::schema::STORED).field_id()
}

/// `SchemaBuilder::add_u64_field` with the options `INDEXED | STORED`: as
/// `add_u64_stored`, for a field that is indexed too.
#[verifier::external_body]
fn add_u64_indexed(builder: &mut tantivy::schema::SchemaBuilder, name: &str) -> (handle: u32)
    requires
        valid_name(name@),
        !lists(builder_entries(*old(builder)), name@),
        builder_entries(*old(builder)).len() < MAX_FIELDS,
    ensures
        handle == builder_entries(*old(builder)).len(),
        builder_entries(*final(builder)) == builder_entries(*old(builder)).push(
            CatalogueEntryView {
                name: name@,
                handle,
                kind: Some(FieldKind::UInt),
                indexed: true,
            },
        ),
{
    builder.add_u64_field(name, tantivy::schema::INDEXED | tantivy::schema::STORED).field_id()
}

/// `SchemaBuilder::add_text_field` with the options `TEXT | STORED`: adds a
/// text field that is tokenized, indexed and stored, and returns its
/// handle, which is the number of fields added before. The call panics on a
/// name that is not valid or already taken, which `requires` leaves out.
#[verifier::external_body]
fn add_text(builder: &mut tantivy::schema::SchemaBuilder, name: &str) -> (handle: u32)
    requires
        valid_name(name@),
        !lists(builder_entries(*old(builder)), name@),
        builder_entries(*old(builder)).len() < MAX_FIELDS,
    ensures
        handle == builder_entries(*old(builder)).len(),
        builder_entries(*final(builder)) == builder_entries(*old(builder)).push(
            CatalogueEntryView {
                name: name@,
                handle,
                kind: Some(FieldKind::Text),
                indexed: true,
            },
        ),
{
    builder.add_text_field(name, tantivy::schema::TEXT | tantivy::schema::STORED).field_id()
}

/// `SchemaBuilder::build`: the schema has the fields of the builder.
#[verifier::external_body]
fn finish_schema(builder: tantivy::schema::SchemaBuilder) -> (schema: tantivy::schema::Schema)
    ensures
        schema_entries(schema) == builder_entries(builder),
{
    builder.build()
}

/// Whether a field of this type is indexed: a number where it is declared
/// so, a text always.
pub open spec fn is_indexed(data_type: DataType) -> bool {
    match data_type {
        DataType::Int { indexed } => indexed,
        DataType::UInt { indexed } => indexed,
        DataType::Text => true,
    }
}

/// The complaint about a name that the engine does not take.
pub open spec fn bad_name(name: Seq<char>) -> Seq<char> {
    "Field name `"@ + name + "` is empty or starts with `-`"@
}

/// The complaint about a name that two fields have.
pub open spec fn declared_twice(name: Seq<char>) -> Seq<char> {
    "Field `"@ + name + "` is declared twice"@
}

/// The complaint about a schema that is too long.
pub open spec fn too_many_fields() -> Seq<char> {
    "The schema has more fields than the index can hold"@
}

/// Whether one of the first `upto` fields has the name.
pub open spec fn named_before(fields: Seq<FieldConfigView>, name: Seq<char>, upto: int) -> bool {
    exists|j: int| 0 <= j < upto && (#[trigger] fields[j]).name == name
}

/// The fields that the first `upto` fields of a schema declare to the
/// engine: each under its name, with its position as handle, or the
/// complaint about the first field whose name is not valid or was used
/// before.
pub open spec fn declared(fields: Seq<FieldConfigView>, upto: int) -> Result<
    Seq<CatalogueEntryView>,
    Seq<char>,
>
    decreases upto,
{
    if upto <= 0 {
        Ok(Seq::empty())
    } else {
        match declared(fields, upto - 1) {
            Err(message) => Err(message),
            Ok(before) => {
                let field = fields[upto - 1];
                if !valid_name(field.name) {
                    Err(bad_name(field.name))
                } else if named_before(fields, field.name, upto - 1) {
                    Err(declared_twice(field.name))
                } else {
                    Ok(
                        before.push(
                            CatalogueEntryView {
                                name: field.name,
                                handle: (upto - 1) as u32,
                                kind: Some(kind_of(field.data_type)),
                                indexed: is_indexed(field.data_type),
                            },
                        ),
                    )
                }
            },
        }
    }
}

/// The fields that a schema declares to the engine, or the complaint about
/// it.
pub open spec fn schema_plan(fields: Seq<FieldConfigView>) -> Result<
    Seq<CatalogueEntryView>,
    Seq<char>,
> {
    if fields.len() > MAX_FIELDS {
        Err(too_many_fields())
    } else {
        declared(fields, fields.len() as int)
    }
}

/// A complaint among the first fields is the complaint of the schema.
pub proof fn lemma_first_complaint(fields: Seq<FieldConfigView>, n: int, upto: int)
    requires
        0 <= n <= upto,
        declared(fields, n) is Err,
    ensures
        declared(fields, upto) == declared(fields, n),
    decreases upto - n,
{
    if n < upto {
        lemma_first_complaint(fields, n, upto - 1);
    }
}

/// Whether one of the fields before `upto` has the name.
fn is_named_before(fields: &[FieldConfig], name: &str, upto: usize) -> (found: bool)
    requires
        upto <= fields@.len(),
    ensures
        found == named_before(field_views(fields@), name@, upto as int),
{
    let mut j: usize = 0;
    while j < upto
        invariant
            j <= upto <= fields@.len(),
            !named_before(field_views(fields@), name@, j as int),
        decreases upto - j,
    {
        assert(field_views(fields@)[j as int] == fields@[j as int]@);
        if *fields[j].name() == *name {
            return true;
        }
        j = j + 1;
    }
    false
}

/// The error for a schema that the engine would not take.
fn schema_error(before: &str, name: &str, after: &str) -> (error: TextIndexError)
    ensures
        error@.kind == TextIndexErrorKind::Schema,
        error@.message == before@ + name@ + after@,
{
    let mut message = String::from_str(before);
    message.append(name);
    message.append(after);
    TextIndexError::schema_error(message.as_str())
}

/// Declares the fields of a schema to the engine.
///
/// A number is stored, and indexed where it is declared so; a text is
/// indexed and stored. The handle of a field is its position in the
/// schema. A schema with a name that the engine does not take, with a name
/// used twice or with too many fields is refused with the complaint of
/// `schema_plan`, and nothing is declared.
pub fn build_schema(fields: &[FieldConfig]) -> (result: TextIndexResult<tantivy::schema::Schema>)
    ensures
        match result {
            Ok(schema) => schema_plan(field_views(fields@)) == Ok::<
                Seq<CatalogueEntryView>,
                Seq<char>,
            >(schema_entries(schema)),
            Err(error) => error@.kind == TextIndexErrorKind::Schema && schema_plan(
                field_views(fields@),
            ) == Err::<Seq<CatalogueEntryView>, Seq<char>>(error@.message),
        },
{
    let ghost all = field_views(fields@);
    if fields.len() > MAX_FIELDS {
        return Err(TextIndexError::schema_error("The schema has more fields than the index can hold"));
    }
    let mut builder = schema_builder();
    let mut i: usize = 0;
    assert(builder_entries(builder) =~= Seq::<CatalogueEntryView>::empty());
    while i < fields.len()
        invariant
            i <= fields.len() <= MAX_FIELDS,
            all == field_views(fields@),
            declared(all, i as int) == Ok::<Seq<CatalogueEntryView>, Seq<char>>(
                builder_entries(builder),
            ),
            builder_entries(builder).len() == i,
            forall|j: int| 0 <= j < i ==> (#[trigger] builder_entries(builder)[j]).name == all[j].name,
        decreases fields.len() - i,
    {
        let field = &fields[i];
        let name = field.name();
        assert(all[i as int] == field@);
        if name.is_empty() || name.get_char(0) == '-' {
            proof {
                assert(declared(all, i + 1) == Err::<Seq<CatalogueEntryView>, Seq<char>>(
                    bad_name(name@),
                ));
                lemma_first_complaint(all, i + 1, fields@.len() as int);
            }
            return Err(schema_error("Field name `", name, "` is empty or starts with `-`"));
        }
        if is_named_before(fields, name, i) {
            proof {
                assert(declared(all, i + 1) == Err::<Seq<CatalogueEntryView>, Seq<char>>(
                    declared_twice(name@),
                ));
                lemma_first_complaint(all, i + 1, fields@.len() as int);
            }
            return Err(schema_error("Field `", name, "` is declared twice"));
        }
        let ghost before = builder_entries(builder);
        assert(!lists(before, name@)) by {
            if lists(before, name@) {
                let j = choose|j: int| 0 <= j < before.len() && (#[trigger] before[j]).name == name@;
                assert(all[j].name == name@);
            }
        }
        let handle = match field.data_type() {
            DataType::Int { indexed: true } => add_i64_indexed(&mut builder, name),
            DataType::Int { indexed: false } => add_i64_stored(&mut builder, name),
            DataType::UInt { indexed: true } => add_u64_indexed(&mut builder, name),
            DataType::UInt { indexed: false } => add_u64_stored(&mut builder, name),
            DataType::Text => add_text(&mut builder, name),
        };
        assert(declared(all, i + 1) == Ok::<Seq<CatalogueEntryView>, Seq<char>>(
            builder_entries(builder),
        ));
        i = i + 1;
    }
    Ok(finish_schema(builder))
}

/// `Schema::num_fields`: the number of fields of the schema.
#[verifier::external_body]
fn schema_len(schema: &tantivy::schema::Schema) -> (len: usize)
    ensures
        len == schema_entries(*schema).len(),
{
    schema.num_fields()
}

/// `Schema::get_field_entry` for the handle `at`, read through the getters
/// of `FieldEntry`: the name of the field, whether it is indexed, and its
/// type where that is text, `u64` or `i64`. The handle of a field is its
/// position. The call panics on a handle that the schema does not have,
/// which `requires` leaves out.
#[verifier::external_body]
fn schema_entry(schema: &tantivy::schema::Schema, at: u32) -> (entry: CatalogueEntry)
    requires
        at < schema_entries(*schema).len(),
    ensures
        entry@ == schema_entries(*schema)[at as int],
        entry@.handle == at,
{
    let entry = schema.get_field_entry(tantivy::schema::Field::from_field_id(at));
    let kind = match entry.field_type() {
        tantivy::schema::FieldType::Str(_) => Some(FieldKind::Text),
        tantivy::schema::FieldType::U64(_) => Some(FieldKind::UInt),
        tantivy::schema::FieldType::I64(_) => Some(FieldKind::Int),
        _ => None,
    };
    CatalogueEntry { name: entry.name().to_owned(), handle: at, kind, indexed: entry.is_indexed() }
}

/// The catalogue of a schema of the engine: its fields in the order of their
/// handles. `None` for a schema with more fields than handles can count.
pub fn catalogue_of(schema: &tantivy::schema::Schema) -> (catalogue: Option<Vec<CatalogueEntry>>)
    ensures
        match catalogue {
            Some(catalogue) => catalogue_views(catalogue@) == schema_entries(*schema),
            None => schema_entries(*schema).len() > u32::MAX,
        },
{
    let len = schema_len(schema);
    if len > u32::MAX as usize {
        return None;
    }
    let mut catalogue: Vec<CatalogueEntry> = Vec::new();
    let mut at: u32 = 0;
    while (at as usize) < len
        invariant
            at <= len <= u32::MAX,
            len == schema_entries(*schema).len(),
            catalogue_views(catalogue@) == schema_entries(*schema).take(at as int),
        decreases len - at,
    {
        let entry = schema_entry(schema, at);
        let ghost before = catalogue_views(catalogue@);
        catalogue.push(entry);
        assert(catalogue_views(catalogue@) =~= before.push(entry@));
        assert(catalogue_views(catalogue@) =~= schema_entries(*schema).take(at + 1));
        at = at + 1;
    }
    assert(schema_entries(*schema).take(at as int) =~= schema_entries(*schema));
    Some(catalogue)
}

/// What a schema that the engine took declares: one entry for each field,
/// at the position of the field, with the type and the searchability that
/// the field asks for, and no two fields under one name.
pub proof fn lemma_declared(fields: Seq<FieldConfigView>, upto: int)
    requires
        0 <= upto <= fields.len(),
        declared(fields, upto) is Ok,
    ensures
        declared(fields, upto)->Ok_0.len() == upto,
        forall|i: int|
            0 <= i < upto ==> (#[trigger] declared(fields, upto)->Ok_0[i]) == (CatalogueEntryView {
                name: fields[i].name,
                handle: i as u32,
                kind: Some(kind_of(fields[i].data_type)),
                indexed: is_indexed(fields[i].data_type),
            }),
        forall|i: int, j: int|
            0 <= i < j < upto ==> (#[trigger] fields[i]).name != (#[trigger] fields[j]).name,
    decreases upto,
{
    if upto > 0 {
        lemma_declared(fields, upto - 1);
        let name = fields[upto - 1].name;
        assert(!named_before(fields, name, upto - 1));
        assert forall|i: int, j: int| 0 <= i < j < upto implies (#[trigger] fields[i]).name != (
        #[trigger] fields[j]).name by {
            if j == upto - 1 && fields[i].name == name {
                assert(named_before(fields, name, upto - 1));
            }
        }
    }
}

/// The first entry of a catalogue with a name and a type is at `at` where
/// that entry has them and no earlier entry has the name.
pub proof fn lemma_listed_at(
    catalogue: Seq<CatalogueEntryView>,
    name: Seq<char>,
    kind: FieldKind,
    from: int,
    at: int,
)
    requires
        0 <= from <= at < catalogue.len(),
        catalogue[at].name == name,
        catalogue[at].kind == Some(kind),
        forall|j: int| from <= j < at ==> (#[trigger] catalogue[j]).name != name,
    ensures
        crate::index::listed_at(catalogue, name, kind, from) == at,
    decreases at - from,
{
    if from < at {
        lemma_listed_at(catalogue, name, kind, from + 1, at);
    }
}

/// Every field of a schema that the engine took is in the field table of the
/// index that was made from it: under its name, with its position as
/// handle, and one handle for each name.
pub proof fn law_declared_fields_resolve(fields: Seq<FieldConfigView>, upto: int)
    requires
        0 <= upto <= fields.len(),
        schema_plan(fields) is Ok,
    ensures
        crate::index::resolved(fields, schema_plan(fields)->Ok_0, upto).len() == upto,
        forall|i: int|
            0 <= i < upto ==> (#[trigger] crate::index::resolved(
                fields,
                schema_plan(fields)->Ok_0,
                upto,
            )[i]) == (crate::index::FieldEntryView {
                name: fields[i].name,
                handle: i as u32,
                kind: kind_of(fields[i].data_type),
                indexed: is_indexed(fields[i].data_type),
            }),
    decreases upto,
{
    let catalogue = schema_plan(fields)->Ok_0;
    lemma_declared(fields, fields.len() as int);
    if upto > 0 {
        law_declared_fields_resolve(fields, upto - 1);
        let field = fields[upto - 1];
        assert(catalogue[upto - 1].name == field.name);
        assert forall|j: int| 0 <= j < upto - 1 implies (#[trigger] catalogue[j]).name
            != field.name by {
            assert(fields[j].name != fields[upto - 1].name);
        }
        lemma_listed_at(catalogue, field.name, kind_of(field.data_type), 0, upto - 1);
    }
}

/// `TantivyDocument::new`: a document without values.
#[verifier::external_body]
fn new_document() -> (document: tantivy::TantivyDocument)
    ensures
        engine_values(document).len() == 0,
{
    tantivy::TantivyDocument::new()
}

/// `TantivyDocument::add_i64`: appends the value under the field. The call
/// panics on a handle beyond sixteen bits, which `requires` leaves out.
#[verifier::external_body]
fn add_i64(document: &mut tantivy::TantivyDocument, field: u32, value: i64)
    requires
        field < MAX_FIELDS,
    ensures
        engine_values(*final(document)) == engine_values(*old(document)).push(
            FieldValueView { field, value: ValueView::I64(value) },
        ),
{
    document.add_i64(tantivy::schema::Field::from_field_id(field), value)
}

/// `TantivyDocument::add_u64`: appends the value under the field. The call
/// panics on a handle beyond sixteen bits, which `requires` leaves out.
#[verifier::external_body]
fn add_u64(document: &mut tantivy::TantivyDocument, field: u32, value: u64)
    requires
        field < MAX_FIELDS,
    ensures
        engine_values(*final(document)) == engine_values(*old(document)).push(
            FieldValueView { field, value: ValueView::U64(value) },
        ),
{
    document.add_u64(tantivy::schema::Field::from_field_id(field), value)
}

/// `TantivyDocument::add_text`: appends the text under the field. The call
/// panics on a handle beyond sixteen bits, which `requires` leaves out.
#[verifier::external_body]
fn add_str(document: &mut tantivy::TantivyDocument, field: u32, text: &str)
    requires
        field < MAX_FIELDS,
    ensures
        engine_values(*final(document)) == engine_values(*old(document)).push(
            FieldValueView { field, value: ValueView::Str(text@) },
        ),
{
    document.add_text(tantivy::schema::Field::from_field_id(field), text)
}

/// Whether the engine can be given the value: its handle is one of a field,
/// and its type is one that the library writes.
pub open spec fn writable(value: FieldValueView) -> bool {
    value.field < MAX_FIELDS && !(value.value is Other)
}

/// Whether the engine can be given every value of the document.
pub open spec fn all_writable(document: Seq<FieldValueView>) -> bool {
    forall|i: int| 0 <= i < document.len() ==> writable(#[trigger] document[i])
}

/// The document as the engine takes it: the same values under the same
/// handles, in the same order. `None` for a document with a value that the
/// engine cannot be given.
pub fn engine_document(document: &Document) -> (result: Option<tantivy::TantivyDocument>)
    ensures
        match result {
            Some(made) => all_writable(document@) && engine_values(made) == document@,
            None => !all_writable(document@),
        },
{
    let mut made = new_document();
    let mut i: usize = 0;
    assert(engine_values(made) =~= document@.take(0));
    while i < document.field_values.len()
        invariant
            i <= document.field_values.len(),
            engine_values(made) == document@.take(i as int),
            forall|j: int| 0 <= j < i ==> writable(#[trigger] document@[j]),
        decreases document.field_values.len() - i,
    {
        let field_value = &document.field_values[i];
        assert(document@[i as int] == field_value@);
        if field_value.field as usize >= MAX_FIELDS {
            return None;
        }
        match &field_value.value {
            Value::I64(number) => add_i64(&mut made, field_value.field, *number),
            Value::U64(number) => add_u64(&mut made, field_value.field, *number),
            Value::Str(text) => add_str(&mut made, field_value.field, text.as_str()),
            Value::Other => {
                return None;
            },
        }
        assert(engine_values(made) =~= document@.take(i + 1));
        i = i + 1;
    }
    assert(document@.take(i as int) =~= document@);
    Some(made)
}

/// `tantivy::query::Occur`, with its three variants `Should`, `Must` and
/// `MustNot`.
#[verifier::external_type_specification]
pub struct ExOccur(tantivy::query::Occur);

/// The clauses collected for a boolean query of the engine: each an
/// occurrence and a boxed query of the engine. The queries are trait
/// objects of the engine, so the list is kept opaque and only
/// `engine_clauses` is known of it.
#[verifier::external_body]
pub struct EngineClauses {
    items: Vec<(tantivy::query::Occur, Box<dyn tantivy::query::Query>)>,
}

/// The clauses that were collected, in the order in which they were added.
pub uninterp spec fn engine_clauses(clauses: EngineClauses) -> Seq<ClauseView>;

/// The occurrence that the engine's occurrence stands for.
pub open spec fn occur_model(occur: tantivy::query::Occur) -> Occurrence {
    match occur {
        tantivy::query::Occur::Should => Occurrence::Should,
        tantivy::query::Occur::Must => Occurrence::Must,
        tantivy::query::Occur::MustNot => Occurrence::MustNot,
    }
}

/// The engine's occurrence for an occurrence.
pub fn engine_occur(occur: Occurrence) -> (made: tantivy::query::Occur)
    ensures
        occur_model(made) == occur,
{
    match occur {
        Occurrence::Should => tantivy::query::Occur::Should,
        Occurrence::Must => tantivy::query::Occur::Must,
        Occurrence::MustNot => tantivy::query::Occur::MustNot,
    }
}

/// `Vec::new`: a list to which no clause was added.
#[verifier::external_body]
fn new_clauses() -> (clauses: EngineClauses)
    ensures
        engine_clauses(clauses).len() == 0,
{
    EngineClauses { items: Vec::new() }
}

/// `TermQuery::new` over `Term::from_field_text`, with term frequencies:
/// appends a clause that matches where the text field holds the term.
#[verifier::external_body]
fn push_term_text(
    clauses: &mut EngineClauses,
    occur: tantivy::query::Occur,
    field: u32,
    text: &str,
)
    ensures
        engine_clauses(*final(clauses)) == engine_clauses(*old(clauses)).push(
            ClauseView {
                occur: occur_model(occur),
                matcher: MatcherView::One(PredicateView::Text { field, value: text@ }),
            },
        ),
{
    let term = tantivy::Term::from_field_text(tantivy::schema::Field::from_field_id(field), text);
    let query = tantivy::query::TermQuery::new(term, tantivy::schema::IndexRecordOption::WithFreqs);
    clauses.items.push((occur, Box::new(query)));
}

/// `TermQuery::new` over `Term::from_field_u64`, with term frequencies:
/// appends a clause that matches where the field holds the number.
#[verifier::external_body]
fn push_term_u64(
    clauses: &mut EngineClauses,
    occur: tantivy::query::Occur,
    field: u32,
    value: u64,
)
    ensures
        engine_clauses(*final(clauses)) == engine_clauses(*old(clauses)).push(
            ClauseView {
                occur: occur_model(occur),
                matcher: MatcherView::One(PredicateView::UInt { field, value }),
            },
        ),
{
    let term = tantivy::Term::from_field_u64(tantivy::schema::Field::from_field_id(field), value);
    let query = tantivy::query::TermQuery::new(term, tantivy::schema::IndexRecordOption::WithFreqs);
    clauses.items.push((occur, Box::new(query)));
}

/// `TermQuery::new` over `Term::from_field_i64`, with term frequencies:
/// appends a clause that matches where the field holds the number.
#[verifier::external_body]
fn push_term_i64(
    clauses: &mut EngineClauses,
    occur: tantivy::query::Occur,
    field: u32,
    value: i64,
)
    ensures
        engine_clauses(*final(clauses)) == engine_clauses(*old(clauses)).push(
            ClauseView {
                occur: occur_model(occur),
                matcher: MatcherView::One(PredicateView::Int { field, value }),
            },
        ),
{
    let term = tantivy::Term::from_field_i64(tantivy::schema::Field::from_field_id(field), value);
    let query = tantivy::query::TermQuery::new(term, tantivy::schema::IndexRecordOption::WithFreqs);
    clauses.items.push((occur, Box::new(query)));
}

/// `RangeQuery::new` over two included bounds made by
/// `Term::from_field_u64`: appends a clause that matches where the field
/// lies between the bounds, both included.
#[verifier::external_body]
fn push_range_u64(
    clauses: &mut EngineClauses,
    occur: tantivy::query::Occur,
    field: u32,
    lower: u64,
    upper: u64,
)
    ensures
        engine_clauses(*final(clauses)) == engine_clauses(*old(clauses)).push(
            ClauseView {
                occur: occur_model(occur),
                matcher: MatcherView::One(
                    PredicateView::UIntRange { field, lower: Some(lower), upper: Some(upper) },
                ),
            },
        ),
{
    let field = tantivy::schema::Field::from_field_id(field);
    let lower = std::ops::Bound::Included(tantivy::Term::from_field_u64(field, lower));
    let upper = std::ops::Bound::Included(tantivy::Term::from_field_u64(field, upper));
    clauses.items.push((occur, Box::new(tantivy::query::RangeQuery::new(lower, upper))));
}

/// `RangeQuery::new` over two included bounds made by
/// `Term::from_field_i64`: appends a clause that matches where the field
/// lies between the bounds, both included.
#[verifier::external_body]
fn push_range_i64(
    clauses: &mut EngineClauses,
    occur: tantivy::query::Occur,
    field: u32,
    lower: i64,
    upper: i64,
)
    ensures
        engine_clauses(*final(clauses)) == engine_clauses(*old(clauses)).push(
            ClauseView {
                occur: occur_model(occur),
                matcher: MatcherView::One(
                    PredicateView::IntRange { field, lower: Some(lower), upper: Some(upper) },
                ),
            },
        ),
{
    let field = tantivy::schema::Field::from_field_id(field);
    let lower = std::ops::Bound::Included(tantivy::Term::from_field_i64(field, lower));
    let upper = std::ops::Bound::Included(tantivy::Term::from_field_i64(field, upper));
    clauses.items.push((occur, Box::new(tantivy::query::RangeQuery::new(lower, upper))));
}

/// The predicates of clauses that hold one predicate each.
pub open spec fn alternatives(clauses: Seq<ClauseView>) -> Seq<PredicateView> {
    Seq::new(clauses.len(), |i: int| clauses[i].matcher->One_0)
}

/// Whether every clause is optional and holds one predicate.
pub open spec fn all_optional(clauses: Seq<ClauseView>) -> bool {
    forall|i: int|
        0 <= i < clauses.len() ==> (#[trigger] clauses[i]).occur == Occurrence::Should
            && clauses[i].matcher is One
}

/// `BooleanQuery::new` over optional clauses of one predicate each, as a
/// clause of its own: appends a clause that matches where any of the
/// predicates does.
#[verifier::external_body]
fn push_any_of(clauses: &mut EngineClauses, occur: tantivy::query::Occur, inner: EngineClauses)
    requires
        all_optional(engine_clauses(inner)),
    ensures
        engine_clauses(*final(clauses)) == engine_clauses(*old(clauses)).push(
            ClauseView {
                occur: occur_model(occur),
                matcher: MatcherView::AnyOf(alternatives(engine_clauses(inner))),
            },
        ),
{
    clauses.items.push((occur, Box::new(tantivy::query::BooleanQuery::new(inner.items))));
}

/// `BooleanQuery::new`: the query has the clauses that were collected.
#[verifier::external_body]
fn boolean_query(clauses: EngineClauses) -> (query: tantivy::query::BooleanQuery)
    ensures
        boolean_clauses(query) == engine_clauses(clauses),
{
    tantivy::query::BooleanQuery::new(clauses.items)
}

/// A predicate as the engine is given it: an open bound of a range is the
/// least or the largest number of the type, which bounds nothing.
pub open spec fn closed(predicate: PredicateView) -> PredicateView {
    match predicate {
        PredicateView::UIntRange { field, lower, upper } => PredicateView::UIntRange {
            field,
            lower: Some(
                match lower {
                    Some(bound) => bound,
                    None => u64::MIN,
                },
            ),
            upper: Some(
                match upper {
                    Some(bound) => bound,
                    None => u64::MAX,
                },
            ),
        },
        PredicateView::IntRange { field, lower, upper } => PredicateView::IntRange {
            field,
            lower: Some(
                match lower {
                    Some(bound) => bound,
                    None => i64::MIN,
                },
            ),
            upper: Some(
                match upper {
                    Some(bound) => bound,
                    None => i64::MAX,
                },
            ),
        },
        _ => predicate,
    }
}

/// A clause as the engine is given it.
pub open spec fn closed_clause(clause: ClauseView) -> ClauseView {
    ClauseView {
        occur: clause.occur,
        matcher: match clause.matcher {
            MatcherView::One(predicate) => MatcherView::One(closed(predicate)),
            MatcherView::AnyOf(predicates) => MatcherView::AnyOf(
                Seq::new(predicates.len(), |i: int| closed(predicates[i])),
            ),
        },
    }
}

/// The clauses of a query as the engine is given them.
pub open spec fn closed_clauses(clauses: Seq<ClauseView>) -> Seq<ClauseView> {
    Seq::new(clauses.len(), |i: int| closed_clause(clauses[i]))
}

/// Appends the clause of one predicate.
fn push_predicate(clauses: &mut EngineClauses, occur: Occurrence, predicate: &Predicate)
    ensures
        engine_clauses(*final(clauses)) == engine_clauses(*old(clauses)).push(
            ClauseView { occur, matcher: MatcherView::One(closed(predicate@)) },
        ),
{
    let occur = engine_occur(occur);
    match predicate {
        Predicate::Text { field, value } => push_term_text(clauses, occur, *field, value.as_str()),
        Predicate::UInt { field, value } => push_term_u64(clauses, occur, *field, *value),
        Predicate::Int { field, value } => push_term_i64(clauses, occur, *field, *value),
        Predicate::UIntRange { field, lower, upper } => {
            let lower: u64 = match lower {
                Some(bound) => *bound,
                None => u64::MIN,
            };
            let upper: u64 = match upper {
                Some(bound) => *bound,
                None => u64::MAX,
            };
            push_range_u64(clauses, occur, *field, lower, upper)
        },
        Predicate::IntRange { field, lower, upper } => {
            let lower: i64 = match lower {
                Some(bound) => *bound,
                None => i64::MIN,
            };
            let upper: i64 = match upper {
                Some(bound) => *bound,
                None => i64::MAX,
            };
            push_range_i64(clauses, occur, *field, lower, upper)
        },
    }
}

/// Appends a clause.
fn push_clause(clauses: &mut EngineClauses, clause: &Clause)
    ensures
        engine_clauses(*final(clauses)) == engine_clauses(*old(clauses)).push(
            closed_clause(clause@),
        ),
{
    match &clause.matcher {
        Matcher::One(predicate) => push_predicate(clauses, clause.occur, predicate),
        Matcher::AnyOf(predicates) => {
            let mut inner = new_clauses();
            let mut i: usize = 0;
            while i < predicates.len()
                invariant
                    i <= predicates.len(),
                    engine_clauses(inner).len() == i,
                    all_optional(engine_clauses(inner)),
                    forall|j: int|
                        0 <= j < i ==> (#[trigger] engine_clauses(inner)[j]).matcher
                            == MatcherView::One(closed(predicates@[j]@)),
                decreases predicates.len() - i,
            {
                push_predicate(&mut inner, Occurrence::Should, &predicates[i]);
                i = i + 1;
            }
            assert(alternatives(engine_clauses(inner)) =~= Seq::new(
                predicates@.len(),
                |i: int| closed(crate::handler::search::predicate_views(predicates@)[i]),
            ));
            push_any_of(clauses, engine_occur(clause.occur), inner)
        },
    }
}

/// The query as the engine takes it: the same clauses in the same order,
/// with the open bounds of ranges closed.
pub fn engine_query(query: &CompiledQuery) -> (made: tantivy::query::BooleanQuery)
    ensures
        boolean_clauses(made) == closed_clauses(query@),
{
    let mut clauses = new_clauses();
    let mut i: usize = 0;
    while i < query.clauses.len()
        invariant
            i <= query.clauses.len(),
            engine_clauses(clauses) == closed_clauses(query@.take(i as int)),
        decreases query.clauses.len() - i,
    {
        assert(query@[i as int] == query.clauses@[i as int]@);
        push_clause(&mut clauses, &query.clauses[i]);
        assert(engine_clauses(clauses) =~= closed_clauses(query@.take(i + 1)));
        i = i + 1;
    }
    assert(query@.take(i as int) =~= query@);
    boolean_query(clauses)
}

} // verus!
