//! One cycle of the worker: documents from the rows of the source, and the
//! checkpoint after the batch.

use super::error::WorkerError;
use super::error::WorkerErrorKind;
use super::error::WorkerErrorView;
use super::error::WorkerResult;
use super::error::not_found;
use super::error::wrong_type;
use crate::config::field_views;
use crate::config::DataType;
use crate::config::DatasourceConfig;
use crate::config::DatasourceConfigView;
use crate::config::FieldConfig;
use crate::config::FieldConfigView;
use crate::document::document_views;
use crate::document::Document;
use crate::document::FieldValueView;
use crate::document::ValueView;
use crate::index::entry_of;
use crate::index::FieldEntryView;
use crate::index::FieldTable;
use crate::text::chars_of;
use crate::text::decimal;
use crate::text::symbols_of;
use crate::text::trim_text;
use crate::text::trimmed;
use crate::text::u64_to_string;
use vstd::prelude::*;
use vstd::string::StringExecFns;

verus! {

/// The checkpoint: the largest key among the rows that were committed.
#[derive(Debug, Clone, Copy, PartialEq, Eq, Structural)]
pub struct State {
    pub last_key: i64,
}

impl Default for State {
    /// The checkpoint before anything was ingested: the least key there is.
    fn default() -> (state: State)
        ensures
            state == (State { last_key: i64::MIN }),
    {
        State { last_key: i64::MIN }
    }
}

/// A value of a row of the source, read as the type of its field.
#[derive(Debug, Clone, PartialEq, Eq)]
pub enum SourceValue {
    Int(i64),
    UInt(u32),
    Text(String),
}

/// A source value as a mathematical value.
pub enum SourceValueView {
    Int(i64),
    UInt(u32),
    Text(Seq<char>),
}

impl View for SourceValue {
    type V = SourceValueView;

    open spec fn view(&self) -> SourceValueView {
        match *self {
            SourceValue::Int(number) => SourceValueView::Int(number),
            SourceValue::UInt(number) => SourceValueView::UInt(number),
            SourceValue::Text(text) => SourceValueView::Text(text@),
        }
    }
}

/// A row of the source: for each field of the schema, in order, the value of
/// its column, or `None` where the column holds none.
#[derive(Debug, Clone, PartialEq, Eq)]
pub struct SourceRow {
    pub values: Vec<Option<SourceValue>>,
}

/// The view of an optional source value.
pub open spec fn cell_view(cell: Option<SourceValue>) -> Option<SourceValueView> {
    match cell {
        Some(value) => Some(value@),
        None => None,
    }
}

impl View for SourceRow {
    type V = Seq<Option<SourceValueView>>;

    open spec fn view(&self) -> Seq<Option<SourceValueView>> {
        Seq::new(self.values@.len(), |i: int| cell_view(self.values@[i]))
    }
}

/// The views of a sequence of rows.
pub open spec fn row_views(rows: Seq<SourceRow>) -> Seq<Seq<Option<SourceValueView>>> {
    Seq::new(rows.len(), |i: int| rows[i]@)
}

/// The value of a row for the field at `at`; a row that ends before it has
/// none.
pub open spec fn cell(row: Seq<Option<SourceValueView>>, at: int) -> Option<SourceValueView> {
    if 0 <= at < row.len() {
        row[at]
    } else {
        None
    }
}

/// The larger of two optional keys.
pub open spec fn larger(a: Option<i64>, b: Option<i64>) -> Option<i64> {
    match (a, b) {
        (None, _) => b,
        (_, None) => a,
        (Some(x), Some(y)) => if x >= y {
            Some(x)
        } else {
            Some(y)
        },
    }
}

/// The largest of a sequence of keys, if there is any.
pub open spec fn max_key(keys: Seq<i64>) -> Option<i64>
    decreases keys.len(),
{
    if keys.len() == 0 {
        None
    } else {
        larger(max_key(keys.drop_last()), Some(keys.last()))
    }
}

/// The largest key of two sequences one after the other is the larger of
/// their largest keys.
pub proof fn lemma_max_key_concat(a: Seq<i64>, b: Seq<i64>)
    ensures
        max_key(a + b) == larger(max_key(a), max_key(b)),
    decreases b.len(),
{
    if b.len() == 0 {
        assert(a + b =~= a);
    } else {
        assert((a + b).drop_last() =~= a + b.drop_last());
        lemma_max_key_concat(a, b.drop_last());
    }
}

/// The largest key is a key, and none is larger.
pub proof fn law_max_key_is_the_largest(keys: Seq<i64>)
    ensures
        keys.len() == 0 <==> max_key(keys) is None,
        forall|i: int| 0 <= i < keys.len() ==> #[trigger] keys[i] <= max_key(keys)->0,
        keys.len() > 0 ==> exists|i: int| 0 <= i < keys.len() && #[trigger] keys[i] == max_key(keys)->0,
    decreases keys.len(),
{
    if keys.len() > 0 {
        let init = keys.drop_last();
        law_max_key_is_the_largest(init);
        assert forall|i: int| 0 <= i < keys.len() implies #[trigger] keys[i] <= max_key(keys)->0 by {
            if i < init.len() {
                assert(init[i] == keys[i]);
            }
        }
        if max_key(keys) == Some(keys.last()) {
            assert(keys[keys.len() - 1] == max_key(keys)->0);
        } else {
            let i = choose|i: int| 0 <= i < init.len() && #[trigger] init[i] == max_key(init)->0;
            assert(keys[i] == max_key(keys)->0);
        }
    }
}

/// What a row gives: its document, and the keys that it holds.
pub struct RowView {
    pub document: Seq<FieldValueView>,
    pub keys: Seq<i64>,
}

/// What a batch gives: the documents of its rows in order, and the keys of
/// its rows.
pub struct BatchView {
    pub documents: Seq<Seq<FieldValueView>>,
    pub keys: Seq<i64>,
}

/// The error for a field of the schema that the index does not have.
pub open spec fn field_not_found(name: Seq<char>) -> WorkerErrorView {
    WorkerErrorView { kind: WorkerErrorKind::FieldNotFound, message: not_found(name) }
}

/// The error for a value that is not of the type of its field.
pub open spec fn type_error(column: Seq<char>) -> WorkerErrorView {
    WorkerErrorView { kind: WorkerErrorKind::Value, message: wrong_type(column) }
}

/// What the row adds for one field.
///
/// The field must be in the table. A value that is absent leaves the field
/// unset. A signed number is stored as it is, and is a key of the row where
/// the field is read from the key column. An unsigned number is widened. A
/// text is stored without the white space at its ends. A value of another
/// type than the field is an error.
pub open spec fn field_spec(
    table: Seq<FieldEntryView>,
    key_name: Seq<char>,
    field: FieldConfigView,
    value: Option<SourceValueView>,
    before: RowView,
) -> Result<RowView, WorkerErrorView> {
    match entry_of(table, field.name) {
        None => Err(field_not_found(field.name)),
        Some(entry) => match (field.data_type, value) {
            (_, None) => Ok(before),
            (DataType::Int { .. }, Some(SourceValueView::Int(number))) => Ok(
                RowView {
                    document: before.document.push(
                        FieldValueView { field: entry.handle, value: ValueView::I64(number) },
                    ),
                    keys: if field.column == key_name {
                        before.keys.push(number)
                    } else {
                        before.keys
                    },
                },
            ),
            (DataType::UInt { .. }, Some(SourceValueView::UInt(number))) => Ok(
                RowView {
                    document: before.document.push(
                        FieldValueView {
                            field: entry.handle,
                            value: ValueView::U64(number as u64),
                        },
                    ),
                    keys: before.keys,
                },
            ),
            (DataType::Text, Some(SourceValueView::Text(text))) => Ok(
                RowView {
                    document: before.document.push(
                        FieldValueView {
                            field: entry.handle,
                            value: ValueView::Str(chars_of(trimmed(symbols_of(text)))),
                        },
                    ),
                    keys: before.keys,
                },
            ),
            _ => Err(type_error(field.column)),
        },
    }
}

/// What a row gives for the first `upto` fields of the schema, or the error
/// of the first field that has one.
pub open spec fn row_spec(
    table: Seq<FieldEntryView>,
    key_name: Seq<char>,
    schema: Seq<FieldConfigView>,
    row: Seq<Option<SourceValueView>>,
    upto: int,
) -> Result<RowView, WorkerErrorView>
    decreases upto,
{
    if upto <= 0 {
        Ok(RowView { document: Seq::empty(), keys: Seq::empty() })
    } else {
        match row_spec(table, key_name, schema, row, upto - 1) {
            Err(error) => Err(error),
            Ok(before) => field_spec(table, key_name, schema[upto - 1], cell(row, upto - 1), before),
        }
    }
}

/// What the first `upto` rows give, or the error of the first row that has
/// one.
pub open spec fn rows_spec(
    table: Seq<FieldEntryView>,
    key_name: Seq<char>,
    schema: Seq<FieldConfigView>,
    rows: Seq<Seq<Option<SourceValueView>>>,
    upto: int,
) -> Result<BatchView, WorkerErrorView>
    decreases upto,
{
    if upto <= 0 {
        Ok(BatchView { documents: Seq::empty(), keys: Seq::empty() })
    } else {
        match rows_spec(table, key_name, schema, rows, upto - 1) {
            Err(error) => Err(error),
            Ok(before) => match row_spec(
                table,
                key_name,
                schema,
                rows[upto - 1],
                schema.len() as int,
            ) {
                Err(error) => Err(error),
                Ok(row) => Ok(
                    BatchView {
                        documents: before.documents.push(row.document),
                        keys: before.keys + row.keys,
                    },
                ),
            },
        }
    }
}

/// An error among the first rows is the error of the batch.
pub proof fn lemma_first_bad_row(
    table: Seq<FieldEntryView>,
    key_name: Seq<char>,
    schema: Seq<FieldConfigView>,
    rows: Seq<Seq<Option<SourceValueView>>>,
    n: int,
    upto: int,
)
    requires
        0 <= n <= upto,
        rows_spec(table, key_name, schema, rows, n) is Err,
    ensures
        rows_spec(table, key_name, schema, rows, upto) == rows_spec(
            table,
            key_name,
            schema,
            rows,
            n,
        ),
    decreases upto - n,
{
    if n < upto {
        lemma_first_bad_row(table, key_name, schema, rows, n, upto - 1);
    }
}

/// An error among the first fields is the error of the row.
pub proof fn lemma_first_bad_field(
    table: Seq<FieldEntryView>,
    key_name: Seq<char>,
    schema: Seq<FieldConfigView>,
    row: Seq<Option<SourceValueView>>,
    n: int,
    upto: int,
)
    requires
        0 <= n <= upto,
        row_spec(table, key_name, schema, row, n) is Err,
    ensures
        row_spec(table, key_name, schema, row, upto) == row_spec(table, key_name, schema, row, n),
    decreases upto - n,
{
    if n < upto {
        lemma_first_bad_field(table, key_name, schema, row, n, upto - 1);
    }
}

/// Whether a value is held under the handle of a field of the table.
pub open spec fn under_handle(table: Seq<FieldEntryView>, value: FieldValueView) -> bool {
    exists|i: int| 0 <= i < table.len() && (#[trigger] table[i]).handle == value.field
}

/// A document holds values only under handles of the table, at most one for
/// each field of the schema, and a row has at most one key for each field.
pub proof fn law_document_uses_table_handles(
    table: Seq<FieldEntryView>,
    key_name: Seq<char>,
    schema: Seq<FieldConfigView>,
    row: Seq<Option<SourceValueView>>,
    upto: int,
)
    requires
        0 <= upto,
        row_spec(table, key_name, schema, row, upto) is Ok,
    ensures
        row_spec(table, key_name, schema, row, upto)->Ok_0.document.len() <= upto,
        row_spec(table, key_name, schema, row, upto)->Ok_0.keys.len() <= upto,
        forall|j: int|
            0 <= j < row_spec(table, key_name, schema, row, upto)->Ok_0.document.len()
                ==> under_handle(
                table,
                #[trigger] row_spec(table, key_name, schema, row, upto)->Ok_0.document[j],
            ),
    decreases upto,
{
    if upto > 0 {
        law_document_uses_table_handles(table, key_name, schema, row, upto - 1);
        let before = row_spec(table, key_name, schema, row, upto - 1)->Ok_0;
        let after = row_spec(table, key_name, schema, row, upto)->Ok_0;
        let field = schema[upto - 1];
        crate::index::lemma_entry_of(table, field.name, 0);
        let at = crate::index::position_of(table, field.name, 0);
        assert forall|j: int| 0 <= j < after.document.len() implies under_handle(
            table,
            #[trigger] after.document[j],
        ) by {
            if j < before.document.len() {
                assert(after.document[j] == before.document[j]);
            } else {
                assert(table[at].handle == after.document[j].field);
            }
        }
    }
}

/// The documents of a batch and the largest key among its rows.
#[derive(Debug, Clone, PartialEq, Eq)]
pub struct Batch {
    pub documents: Vec<Document>,
    pub last_key: Option<i64>,
}

/// The larger of two optional keys.
pub fn larger_key(a: Option<i64>, b: Option<i64>) -> (r: Option<i64>)
    ensures
        r == larger(a, b),
{
    match (a, b) {
        (None, _) => b,
        (_, None) => a,
        (Some(x), Some(y)) => if x >= y {
            Some(x)
        } else {
            Some(y)
        },
    }
}

/// Builds the document of one row, and finds the largest key that the row
/// holds.
pub fn build_document(
    table: &FieldTable,
    key_name: &str,
    config_schema: &[FieldConfig],
    row: &SourceRow,
) -> (result: WorkerResult<(Document, Option<i64>)>)
    ensures
        match result {
            Ok((document, key)) => row_spec(
                table@,
                key_name@,
                field_views(config_schema@),
                row@,
                config_schema@.len() as int,
            ) matches Ok(expected) && document@ == expected.document && key == max_key(
                expected.keys,
            ),
            Err(error) => row_spec(
                table@,
                key_name@,
                field_views(config_schema@),
                row@,
                config_schema@.len() as int,
            ) == Err::<RowView, WorkerErrorView>(error@),
        },
{
    let ghost schema = field_views(config_schema@);
    let ghost cells = row@;
    let mut document = Document::new();
    let mut key: Option<i64> = None;
    let ghost mut keys: Seq<i64> = Seq::empty();
    let mut i: usize = 0;
    while i < config_schema.len()
        invariant
            i <= config_schema.len(),
            schema == field_views(config_schema@),
            cells == row@,
            row_spec(table@, key_name@, schema, cells, i as int) == Ok::<RowView, WorkerErrorView>(
                RowView { document: document@, keys },
            ),
            key == max_key(keys),
        decreases config_schema.len() - i,
    {
        let field = &config_schema[i];
        assert(schema[i as int] == field@);
        let ghost before = RowView { document: document@, keys };
        let ghost value = cell(cells, i as int);
        let entry = match table.get(field.name()) {
            Some(entry) => entry,
            None => {
                proof {
                    assert(row_spec(table@, key_name@, schema, cells, i + 1) == Err::<
                        RowView,
                        WorkerErrorView,
                    >(field_not_found(field@.name)));
                    lemma_first_bad_field(
                        table@,
                        key_name@,
                        schema,
                        cells,
                        i + 1,
                        config_schema@.len() as int,
                    );
                }
                return Err(WorkerError::field_not_found(field.name()));
            },
        };
        if i < row.values.len() {
            assert(cells[i as int] == cell_view(row.values@[i as int]));
            match &row.values[i] {
                None => {},
                Some(SourceValue::Int(number)) => {
                    match field.data_type() {
                        DataType::Int { .. } => {
                            document.add_i64(entry.handle, *number);
                            if *field.column() == *key_name {
                                key = larger_key(key, Some(*number));
                                proof {
                                    assert(keys.push(*number).drop_last() =~= keys);
                                    keys = keys.push(*number);
                                }
                            }
                        },
                        _ => {
                            proof {
                                assert(row_spec(table@, key_name@, schema, cells, i + 1) == Err::<
                                    RowView,
                                    WorkerErrorView,
                                >(type_error(field@.column)));
                                lemma_first_bad_field(
                                    table@,
                                    key_name@,
                                    schema,
                                    cells,
                                    i + 1,
                                    config_schema@.len() as int,
                                );
                            }
                            return Err(WorkerError::type_error(field.column()));
                        },
                    }
                },
                Some(SourceValue::UInt(number)) => {
                    match field.data_type() {
                        DataType::UInt { .. } => {
                            document.add_u64(entry.handle, *number as u64);
                        },
                        _ => {
                            proof {
                                assert(row_spec(table@, key_name@, schema, cells, i + 1) == Err::<
                                    RowView,
                                    WorkerErrorView,
                                >(type_error(field@.column)));
                                lemma_first_bad_field(
                                    table@,
                                    key_name@,
                                    schema,
                                    cells,
                                    i + 1,
                                    config_schema@.len() as int,
                                );
                            }
                            return Err(WorkerError::type_error(field.column()));
                        },
                    }
                },
                Some(SourceValue::Text(text)) => {
                    match field.data_type() {
                        DataType::Text => {
                            let kept = trim_text(text.as_str());
                            document.add_text(entry.handle, kept.as_str());
                        },
                        _ => {
                            proof {
                                assert(row_spec(table@, key_name@, schema, cells, i + 1) == Err::<
                                    RowView,
                                    WorkerErrorView,
                                >(type_error(field@.column)));
                                lemma_first_bad_field(
                                    table@,
                                    key_name@,
                                    schema,
                                    cells,
                                    i + 1,
                                    config_schema@.len() as int,
                                );
                            }
                            return Err(WorkerError::type_error(field.column()));
                        },
                    }
                },
            }
        }
        assert(row_spec(table@, key_name@, schema, cells, i + 1) == Ok::<RowView, WorkerErrorView>(
            RowView { document: document@, keys },
        ));
        i = i + 1;
    }
    Ok((document, key))
}

/// Builds the documents of a batch of rows, in the order of the rows, and
/// finds the largest key among them.
///
/// A batch is all or nothing: the first row in error is the error of the
/// batch, and no document of the batch is handed out.
pub fn read_rows(
    table: &FieldTable,
    key_name: &str,
    config_schema: &[FieldConfig],
    rows: &[SourceRow],
) -> (result: WorkerResult<Batch>)
    ensures
        match result {
            Ok(batch) => rows_spec(
                table@,
                key_name@,
                field_views(config_schema@),
                row_views(rows@),
                rows@.len() as int,
            ) matches Ok(expected) && document_views(batch.documents@) == expected.documents
                && batch.last_key == max_key(expected.keys),
            Err(error) => rows_spec(
                table@,
                key_name@,
                field_views(config_schema@),
                row_views(rows@),
                rows@.len() as int,
            ) == Err::<BatchView, WorkerErrorView>(error@),
        },
{
    let ghost schema = field_views(config_schema@);
    let ghost all = row_views(rows@);
    let mut documents: Vec<Document> = Vec::new();
    let mut last_key: Option<i64> = None;
    let ghost mut keys: Seq<i64> = Seq::empty();
    let mut i: usize = 0;
    assert(document_views(documents@) =~= Seq::<Seq<FieldValueView>>::empty());
    while i < rows.len()
        invariant
            i <= rows.len(),
            schema == field_views(config_schema@),
            all == row_views(rows@),
            rows_spec(table@, key_name@, schema, all, i as int) == Ok::<BatchView, WorkerErrorView>(
                BatchView { documents: document_views(documents@), keys },
            ),
            last_key == max_key(keys),
        decreases rows.len() - i,
    {
        assert(all[i as int] == rows@[i as int]@);
        match build_document(table, key_name, config_schema, &rows[i]) {
            Ok((document, key)) => {
                let ghost row = row_spec(
                    table@,
                    key_name@,
                    schema,
                    all[i as int],
                    schema.len() as int,
                )->Ok_0;
                let ghost before = document_views(documents@);
                documents.push(document);
                last_key = larger_key(last_key, key);
                proof {
                    assert(document_views(documents@) =~= before.push(row.document));
                    lemma_max_key_concat(keys, row.keys);
                    keys = keys + row.keys;
                }
            },
            Err(error) => {
                proof {
                    assert(rows_spec(table@, key_name@, schema, all, i + 1) == Err::<
                        BatchView,
                        WorkerErrorView,
                    >(error@));
                    lemma_first_bad_row(table@, key_name@, schema, all, i + 1, rows@.len() as int);
                }
                return Err(error);
            },
        }
        i = i + 1;
    }
    Ok(Batch { documents, last_key })
}

/// The keys of a batch that is read page by page.
///
/// A batch may be too large to hold at once. `Ingest` takes it in pages and
/// keeps the largest key of the pages taken so far.
pub struct Ingest {
    last_key: Option<i64>,
    keys: Ghost<Seq<i64>>,
}

impl Ingest {
    #[verifier::type_invariant]
    spec fn well_formed(self) -> bool {
        self.last_key == max_key(self.keys@)
    }

    /// The keys of the rows of the pages taken so far, in order.
    pub closed spec fn keys(self) -> Seq<i64> {
        self.keys@
    }

    /// Before the first page.
    pub fn new() -> (ingest: Ingest)
        ensures
            ingest.keys() == Seq::<i64>::empty(),
    {
        Ingest { last_key: None, keys: Ghost(Seq::empty()) }
    }

    /// Takes a page of rows and gives their documents, in the order of the
    /// rows. A page in error gives no document and leaves the keys as they
    /// were.
    pub fn page(
        &mut self,
        table: &FieldTable,
        key_name: &str,
        config_schema: &[FieldConfig],
        rows: &[SourceRow],
    ) -> (result: WorkerResult<Vec<Document>>)
        ensures
            match result {
                Ok(documents) => rows_spec(
                    table@,
                    key_name@,
                    field_views(config_schema@),
                    row_views(rows@),
                    rows@.len() as int,
                ) matches Ok(expected) && document_views(documents@) == expected.documents
                    && final(self).keys() == old(self).keys() + expected.keys,
                Err(error) => rows_spec(
                    table@,
                    key_name@,
                    field_views(config_schema@),
                    row_views(rows@),
                    rows@.len() as int,
                ) == Err::<BatchView, WorkerErrorView>(error@) && final(self).keys() == old(
                    self,
                ).keys(),
            },
    {
        proof {
            use_type_invariant(&*self);
        }
        match read_rows(table, key_name, config_schema, rows) {
            Ok(batch) => {
                let ghost expected = rows_spec(
                    table@,
                    key_name@,
                    field_views(config_schema@),
                    row_views(rows@),
                    rows@.len() as int,
                )->Ok_0;
                proof {
                    lemma_max_key_concat(self.keys@, expected.keys);
                }
                let last_key = larger_key(self.last_key, batch.last_key);
                *self = Ingest { last_key, keys: Ghost(self.keys@ + expected.keys) };
                Ok(batch.documents)
            },
            Err(error) => Err(error),
        }
    }

    /// The largest key of the pages taken so far, if they had any.
    pub fn last_key(&self) -> (key: Option<i64>)
        ensures
            key == max_key(self.keys()),
    {
        proof {
            use_type_invariant(self);
        }
        self.last_key
    }
}

/// The checkpoint to persist after a committed batch whose largest key is
/// `key`: none where the batch had no key, else the larger of the old
/// checkpoint and the key.
pub open spec fn advance_spec(state: State, key: Option<i64>) -> Option<State> {
    match key {
        None => None,
        Some(key) => Some(
            State {
                last_key: if key > state.last_key {
                    key
                } else {
                    state.last_key
                },
            },
        ),
    }
}

impl State {
    /// The checkpoint to persist after a committed batch whose largest key
    /// is `key`, if it is to be persisted at all. It never moves back.
    pub fn advance(&self, key: Option<i64>) -> (next: Option<State>)
        ensures
            next == advance_spec(*self, key),
            next matches Some(next) ==> next.last_key >= self.last_key,
    {
        match key {
            None => None,
            Some(key) => Some(
                State {
                    last_key: if key > self.last_key {
                        key
                    } else {
                        self.last_key
                    },
                },
            ),
        }
    }
}

/// The checkpoint that a cycle starts from: the stored one, or the initial
/// one where none is stored.
pub open spec fn state_of(stored: Option<State>) -> State {
    match stored {
        Some(state) => state,
        None => State { last_key: i64::MIN },
    }
}

/// The checkpoint that a cycle starts from: the stored one, or the initial
/// one where none is stored.
pub fn read_state(stored: Option<State>) -> (state: State)
    ensures
        state == state_of(stored),
{
    match stored {
        Some(state) => state,
        None => State::default(),
    }
}

/// The address of a datasource.
pub open spec fn url_spec(datasource: DatasourceConfigView) -> Seq<char> {
    "postgresql://"@ + datasource.user + ":"@ + datasource.password + "@"@ + datasource.host
        + ":"@ + decimal(datasource.port as int) + "/"@ + datasource.database
}

/// The address under which the datasource is reached.
pub fn connection_url(datasource: &DatasourceConfig) -> (url: String)
    ensures
        url@ == url_spec(datasource@),
{
    let port = u64_to_string(datasource.port() as u64);
    let mut url = String::from_str("postgresql://");
    url.append(datasource.user());
    url.append(":");
    url.append(datasource.password());
    url.append("@");
    url.append(datasource.host());
    url.append(":");
    url.append(port.as_str());
    url.append("/");
    url.append(datasource.database());
    url
}

} // verus!
