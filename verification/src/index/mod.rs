//! The index: its field table and its write protocol.

mod error;

pub use self::error::TextIndexError;
pub use self::error::TextIndexErrorKind;
pub use self::error::TextIndexErrorView;
pub use self::error::TextIndexResult;

use crate::config::DataType;
use crate::config::FieldConfig;
use crate::config::FieldConfigView;
use crate::document::FieldValueView;
use vstd::prelude::*;

verus! {

/// The type of the values of a field.
#[derive(Clone, Copy, Debug, PartialEq, Eq, Structural)]
pub enum FieldKind {
    Text,
    UInt,
    Int,
}

/// One field of the index: its name, the handle by which the engine knows
/// it, the type of its values and whether it can be searched.
#[derive(Clone, Debug, PartialEq, Eq)]
pub struct FieldEntry {
    pub name: String,
    pub handle: u32,
    pub kind: FieldKind,
    pub indexed: bool,
}

/// A field entry as a mathematical value.
pub struct FieldEntryView {
    pub name: Seq<char>,
    pub handle: u32,
    pub kind: FieldKind,
    pub indexed: bool,
}

impl View for FieldEntry {
    type V = FieldEntryView;

    open spec fn view(&self) -> FieldEntryView {
        FieldEntryView {
            name: self.name@,
            handle: self.handle,
            kind: self.kind,
            indexed: self.indexed,
        }
    }
}

/// The fields of the index, in the order of the schema.
#[derive(Clone, Debug, PartialEq, Eq)]
pub struct FieldTable {
    pub entries: Vec<FieldEntry>,
}

impl View for FieldTable {
    type V = Seq<FieldEntryView>;

    open spec fn view(&self) -> Seq<FieldEntryView> {
        Seq::new(self.entries@.len(), |i: int| self.entries@[i]@)
    }
}

/// The position of the first entry at or after `from` that is named `name`,
/// or the length of `table` if there is none.
pub open spec fn position_of(table: Seq<FieldEntryView>, name: Seq<char>, from: int) -> int
    decreases table.len() - from,
{
    if !(0 <= from < table.len()) {
        table.len() as int
    } else if table[from].name == name {
        from
    } else {
        position_of(table, name, from + 1)
    }
}

/// The entry of the field named `name`, if the table has one.
pub open spec fn entry_of(table: Seq<FieldEntryView>, name: Seq<char>) -> Option<FieldEntryView> {
    let at = position_of(table, name, 0);
    if at < table.len() {
        Some(table[at])
    } else {
        None
    }
}

/// The entry that is found for a name is an entry of the table with that
/// name.
pub proof fn lemma_entry_of(table: Seq<FieldEntryView>, name: Seq<char>, from: int)
    requires
        0 <= from <= table.len(),
    ensures
        from <= position_of(table, name, from) <= table.len(),
        position_of(table, name, from) < table.len() ==> table[position_of(
            table,
            name,
            from,
        )].name == name,
    decreases table.len() - from,
{
    if from < table.len() && table[from].name != name {
        lemma_entry_of(table, name, from + 1);
    }
}

/// One field as the engine lists it: its name, its handle, the type of its
/// values where it is one that this library writes, and whether it can be
/// searched.
#[derive(Clone, Debug, PartialEq, Eq)]
pub struct CatalogueEntry {
    pub name: String,
    pub handle: u32,
    pub kind: Option<FieldKind>,
    pub indexed: bool,
}

/// A catalogue entry as a mathematical value.
pub struct CatalogueEntryView {
    pub name: Seq<char>,
    pub handle: u32,
    pub kind: Option<FieldKind>,
    pub indexed: bool,
}

impl View for CatalogueEntry {
    type V = CatalogueEntryView;

    open spec fn view(&self) -> CatalogueEntryView {
        CatalogueEntryView {
            name: self.name@,
            handle: self.handle,
            kind: self.kind,
            indexed: self.indexed,
        }
    }
}

/// The views of a sequence of catalogue entries.
pub open spec fn catalogue_views(catalogue: Seq<CatalogueEntry>) -> Seq<CatalogueEntryView> {
    Seq::new(catalogue.len(), |i: int| catalogue[i]@)
}

/// The type of the values of a field of the schema.
pub open spec fn kind_of(data_type: DataType) -> FieldKind {
    match data_type {
        DataType::Int { .. } => FieldKind::Int,
        DataType::UInt { .. } => FieldKind::UInt,
        DataType::Text => FieldKind::Text,
    }
}

/// Decides `kind_of`.
pub fn field_kind(data_type: DataType) -> (kind: FieldKind)
    ensures
        kind == kind_of(data_type),
{
    match data_type {
        DataType::Int { .. } => FieldKind::Int,
        DataType::UInt { .. } => FieldKind::UInt,
        DataType::Text => FieldKind::Text,
    }
}

/// The position of the first catalogue entry at or after `from` that has
/// the given name and type, or the length of the catalogue if there is none.
pub open spec fn listed_at(
    catalogue: Seq<CatalogueEntryView>,
    name: Seq<char>,
    kind: FieldKind,
    from: int,
) -> int
    decreases catalogue.len() - from,
{
    if !(0 <= from < catalogue.len()) {
        catalogue.len() as int
    } else if catalogue[from].name == name && catalogue[from].kind == Some(kind) {
        from
    } else {
        listed_at(catalogue, name, kind, from + 1)
    }
}

/// The field table of an index: of the first `upto` fields of the schema,
/// in that order, those that the catalogue of the engine lists under the
/// same name and with the same type, each with the handle and the
/// searchability that the catalogue gives.
pub open spec fn resolved(
    schema: Seq<FieldConfigView>,
    catalogue: Seq<CatalogueEntryView>,
    upto: int,
) -> Seq<FieldEntryView>
    decreases upto,
{
    if upto <= 0 {
        Seq::empty()
    } else {
        let before = resolved(schema, catalogue, upto - 1);
        let field = schema[upto - 1];
        let at = listed_at(catalogue, field.name, kind_of(field.data_type), 0);
        if at < catalogue.len() {
            before.push(
                FieldEntryView {
                    name: field.name,
                    handle: catalogue[at].handle,
                    kind: kind_of(field.data_type),
                    indexed: catalogue[at].indexed,
                },
            )
        } else {
            before
        }
    }
}

/// What the engine is told at the end of a write.
#[derive(Clone, Copy, Debug, PartialEq, Eq, Structural)]
pub enum WriteAction {
    /// Publish what the batch added.
    Commit,
    /// Forget what the batch added.
    Rollback,
}

/// How the index is opened.
#[derive(Clone, Copy, Debug, PartialEq, Eq, Structural)]
pub enum OpenMode {
    /// Create the index anew; one that exists is destroyed.
    Create,
    /// Open the index that exists, or create it.
    OpenOrCreate,
}

/// How the index is opened: created anew exactly when a rebuild is asked
/// for.
pub open spec fn mode_for(new_index: bool) -> OpenMode {
    if new_index {
        OpenMode::Create
    } else {
        OpenMode::OpenOrCreate
    }
}

/// The end of a write: a batch that succeeded is committed, one that failed
/// is rolled back.
pub open spec fn action_for<T, E>(result: Result<T, E>) -> WriteAction {
    match result {
        Ok(_) => WriteAction::Commit,
        Err(_) => WriteAction::Rollback,
    }
}

/// The documents of an index as the engine is taken to hold them: those that
/// readers see, and those that the writer holds since the last commit or
/// rollback.
pub struct IndexView {
    pub visible: Seq<Seq<FieldValueView>>,
    pub staged: Seq<Seq<FieldValueView>>,
}

impl IndexView {
    /// The index after the writer was given `documents`.
    pub open spec fn stage(self, documents: Seq<Seq<FieldValueView>>) -> IndexView {
        IndexView { visible: self.visible, staged: self.staged + documents }
    }

    /// The index after the engine did `action`: a commit publishes what was
    /// staged, a rollback forgets it.
    pub open spec fn apply(self, action: WriteAction) -> IndexView {
        match action {
            WriteAction::Commit => IndexView {
                visible: self.visible + self.staged,
                staged: Seq::empty(),
            },
            WriteAction::Rollback => IndexView { visible: self.visible, staged: Seq::empty() },
        }
    }

    /// The index after it was opened: empty where it was created anew.
    pub open spec fn open(self, mode: OpenMode) -> IndexView {
        match mode {
            OpenMode::Create => IndexView { visible: Seq::empty(), staged: Seq::empty() },
            OpenMode::OpenOrCreate => IndexView { visible: self.visible, staged: Seq::empty() },
        }
    }

    /// The index after a write in which the writer was given `documents` and
    /// the batch ended with `result`.
    pub open spec fn write<T, E>(
        self,
        documents: Seq<Seq<FieldValueView>>,
        result: Result<T, E>,
    ) -> IndexView {
        self.stage(documents).apply(action_for(result))
    }
}

/// A batch that fails leaves readers with exactly what they saw before,
/// whatever it had given the writer.
pub proof fn law_failed_write_shows_nothing<T, E>(
    index: IndexView,
    documents: Seq<Seq<FieldValueView>>,
    result: Result<T, E>,
)
    requires
        result is Err,
    ensures
        index.write(documents, result).visible == index.visible,
        index.write(documents, result).staged.len() == 0,
{
}

/// A batch that succeeds shows readers all that it gave the writer, after
/// what they saw before.
pub proof fn law_successful_write_shows_all<T, E>(
    index: IndexView,
    documents: Seq<Seq<FieldValueView>>,
    result: Result<T, E>,
)
    requires
        result is Ok,
        index.staged.len() == 0,
    ensures
        index.write(documents, result).visible == index.visible + documents,
        index.write(documents, result).staged.len() == 0,
{
    assert(index.staged + documents =~= documents);
}

/// The library's side of the index: the field table that ingestion and
/// query compilation consult, and the protocol of a write.
#[derive(Clone, Debug, PartialEq, Eq)]
pub struct TextIndex {
    fields: FieldTable,
}

impl View for TextIndex {
    type V = Seq<FieldEntryView>;

    /// The field table.
    closed spec fn view(&self) -> Seq<FieldEntryView> {
        self.fields@
    }
}

impl TextIndex {
    /// How the index is to be opened: created anew exactly when `new_index`
    /// is set.
    pub fn open_mode(new_index: bool) -> (mode: OpenMode)
        ensures
            mode == mode_for(new_index),
    {
        if new_index {
            OpenMode::Create
        } else {
            OpenMode::OpenOrCreate
        }
    }

    /// Resolves the fields of the schema against the catalogue of the opened
    /// index, once and for all.
    pub fn new(schema: &[FieldConfig], catalogue: &[CatalogueEntry]) -> (index: TextIndex)
        ensures
            index@ == resolved(
                crate::config::field_views(schema@),
                catalogue_views(catalogue@),
                schema@.len() as int,
            ),
    {
        let ghost fields = crate::config::field_views(schema@);
        let ghost listed = catalogue_views(catalogue@);
        let mut entries: Vec<FieldEntry> = Vec::new();
        let mut table = FieldTable { entries };
        assert(table@ =~= resolved(fields, listed, 0));
        let mut i: usize = 0;
        while i < schema.len()
            invariant
                i <= schema.len(),
                fields == crate::config::field_views(schema@),
                listed == catalogue_views(catalogue@),
                table@ == resolved(fields, listed, i as int),
            decreases schema.len() - i,
        {
            let field = &schema[i];
            assert(fields[i as int] == field@);
            let kind = field_kind(field.data_type());
            let ghost before = table@;
            match find_listed(catalogue, field.name(), kind) {
                Some(at) => {
                    assert(listed[at as int] == catalogue@[at as int]@);
                    table.entries.push(
                        FieldEntry {
                            name: field.name().to_owned(),
                            handle: catalogue[at].handle,
                            kind,
                            indexed: catalogue[at].indexed,
                        },
                    );
                    assert(table@ =~= resolved(fields, listed, i + 1));
                },
                None => {},
            }
            i = i + 1;
        }
        TextIndex { fields: table }
    }

    /// The field table.
    pub fn fields(&self) -> (fields: &FieldTable)
        ensures
            fields@ == self@,
    {
        &self.fields
    }

    /// What the engine is told at the end of a write whose batch gave
    /// `result`: to commit after a success, to roll back after a failure.
    pub fn write<T, E>(&self, result: &Result<T, E>) -> (action: WriteAction)
        ensures
            action == action_for(*result),
    {
        match result {
            Ok(_) => WriteAction::Commit,
            Err(_) => WriteAction::Rollback,
        }
    }

    /// What a write returns once the engine has answered: the failure of the
    /// engine if it failed, else the result of the batch, unchanged.
    pub fn written<T, E>(result: Result<T, E>, engine: TextIndexResult<()>) -> (outcome:
        TextIndexResult<Result<T, E>>)
        ensures
            match engine {
                Ok(_) => outcome == Ok::<Result<T, E>, TextIndexError>(result),
                Err(error) => outcome == Err::<Result<T, E>, TextIndexError>(error),
            },
    {
        match engine {
            Ok(_) => Ok(result),
            Err(error) => Err(error),
        }
    }
}

/// The position of the first catalogue entry with the given name and type.
pub fn find_listed(catalogue: &[CatalogueEntry], name: &str, kind: FieldKind) -> (at: Option<usize>)
    ensures
        match at {
            Some(at) => at == listed_at(catalogue_views(catalogue@), name@, kind, 0) && at
                < catalogue@.len(),
            None => listed_at(catalogue_views(catalogue@), name@, kind, 0) == catalogue@.len(),
        },
{
    let ghost listed = catalogue_views(catalogue@);
    let mut i: usize = 0;
    while i < catalogue.len()
        invariant
            i <= catalogue.len(),
            listed == catalogue_views(catalogue@),
            listed_at(listed, name@, kind, 0) == listed_at(listed, name@, kind, i as int),
        decreases catalogue.len() - i,
    {
        let entry = &catalogue[i];
        assert(listed[i as int] == entry@);
        let same_kind = match entry.kind {
            Some(listed_kind) => listed_kind == kind,
            None => false,
        };
        if same_kind && *entry.name.as_str() == *name {
            return Some(i);
        }
        i = i + 1;
    }
    None
}

impl FieldTable {
    /// The entry of the field named `name`, if the table has one.
    pub fn get(&self, name: &str) -> (entry: Option<&FieldEntry>)
        ensures
            match entry {
                Some(entry) => entry_of(self@, name@) == Some(entry@),
                None => entry_of(self@, name@) is None,
            },
    {
        let mut i: usize = 0;
        while i < self.entries.len()
            invariant
                i <= self.entries.len(),
                position_of(self@, name@, 0) == position_of(self@, name@, i as int),
            decreases self.entries.len() - i,
        {
            assert(self@[i as int] == self.entries@[i as int]@);
            if *self.entries[i].name.as_str() == *name {
                return Some(&self.entries[i]);
            }
            i = i + 1;
        }
        None
    }
}

} // verus!
