//! Documents: what the index stores for one source row.

use vstd::prelude::*;

verus! {

/// The value of one field of a document.
#[derive(Clone, Debug, PartialEq, Eq)]
pub enum Value {
    Str(String),
    U64(u64),
    I64(i64),
    /// A value of a type that no field of the schema has.
    Other,
}

/// A value as a mathematical value.
pub enum ValueView {
    Str(Seq<char>),
    U64(u64),
    I64(i64),
    Other,
}

impl View for Value {
    type V = ValueView;

    open spec fn view(&self) -> ValueView {
        match *self {
            Value::Str(text) => ValueView::Str(text@),
            Value::U64(number) => ValueView::U64(number),
            Value::I64(number) => ValueView::I64(number),
            Value::Other => ValueView::Other,
        }
    }
}

/// A value together with the handle of the field that holds it.
#[derive(Clone, Debug, PartialEq, Eq)]
pub struct FieldValue {
    pub field: u32,
    pub value: Value,
}

/// A field value as a mathematical value.
pub struct FieldValueView {
    pub field: u32,
    pub value: ValueView,
}

impl View for FieldValue {
    type V = FieldValueView;

    open spec fn view(&self) -> FieldValueView {
        FieldValueView { field: self.field, value: self.value@ }
    }
}

/// The values of the fields of one row, in the order in which they were
/// added. A field without a value has no entry.
#[derive(Clone, Debug, PartialEq, Eq)]
pub struct Document {
    pub field_values: Vec<FieldValue>,
}

impl View for Document {
    type V = Seq<FieldValueView>;

    open spec fn view(&self) -> Seq<FieldValueView> {
        Seq::new(self.field_values@.len(), |i: int| self.field_values@[i]@)
    }
}

/// The views of a sequence of documents.
pub open spec fn document_views(documents: Seq<Document>) -> Seq<Seq<FieldValueView>> {
    Seq::new(documents.len(), |i: int| documents[i]@)
}

impl Document {
    /// A document without values.
    pub fn new() -> (document: Document)
        ensures
            document@ == Seq::<FieldValueView>::empty(),
    {
        let document = Document { field_values: Vec::new() };
        assert(document@ =~= Seq::<FieldValueView>::empty());
        document
    }

    /// Adds a value.
    pub fn add(&mut self, field: u32, value: Value)
        ensures
            final(self)@ == old(self)@.push(FieldValueView { field, value: value@ }),
    {
        self.field_values.push(FieldValue { field, value });
        assert(self@ =~= old(self)@.push(FieldValueView { field, value: value@ }));
    }

    /// Adds a signed number.
    pub fn add_i64(&mut self, field: u32, value: i64)
        ensures
            final(self)@ == old(self)@.push(FieldValueView { field, value: ValueView::I64(value) }),
    {
        self.add(field, Value::I64(value));
    }

    /// Adds an unsigned number.
    pub fn add_u64(&mut self, field: u32, value: u64)
        ensures
            final(self)@ == old(self)@.push(FieldValueView { field, value: ValueView::U64(value) }),
    {
        self.add(field, Value::U64(value));
    }

    /// Adds a text.
    pub fn add_text(&mut self, field: u32, text: &str)
        ensures
            final(self)@ == old(self)@.push(
                FieldValueView { field, value: ValueView::Str(text@) },
            ),
    {
        self.add(field, Value::Str(text.to_owned()));
    }
}

} // verus!
