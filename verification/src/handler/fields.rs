//! The fields of the schema as a client is told of them.

use crate::config::field_views;
use crate::config::ConfigRef;
use crate::config::DataType;
use crate::config::FieldConfig;
use crate::config::FieldConfigView;
use vstd::prelude::*;

verus! {

/// Answers what fields there are.
#[derive(Debug)]
pub struct FieldsHandler {
    config: ConfigRef,
}

/// A field as a client is told of it: its name, its label, and whether it
/// holds numbers or strings.
#[derive(Debug, Clone, PartialEq, Eq)]
pub struct ResponseField {
    pub name: String,
    pub display: String,
    pub data_type: String,
}

/// A response field as a mathematical value.
pub struct ResponseFieldView {
    pub name: Seq<char>,
    pub display: Seq<char>,
    pub data_type: Seq<char>,
}

impl View for ResponseField {
    type V = ResponseFieldView;

    open spec fn view(&self) -> ResponseFieldView {
        ResponseFieldView {
            name: self.name@,
            display: self.display@,
            data_type: self.data_type@,
        }
    }
}

/// The word for a type: both kinds of integers are numbers.
pub open spec fn type_word(data_type: DataType) -> Seq<char> {
    match data_type {
        DataType::Int { .. } => "number"@,
        DataType::UInt { .. } => "number"@,
        DataType::Text => "string"@,
    }
}

/// What a client is told of a field.
pub open spec fn response_of(field: FieldConfigView) -> ResponseFieldView {
    ResponseFieldView {
        name: field.name,
        display: field.display,
        data_type: type_word(field.data_type),
    }
}

impl ResponseField {
    /// What a client is told of `field`.
    pub fn from_field(field: &FieldConfig) -> (response: ResponseField)
        ensures
            response@ == response_of(field@),
    {
        let data_type = match field.data_type() {
            DataType::Int { .. } => "number",
            DataType::UInt { .. } => "number",
            DataType::Text => "string",
        };
        ResponseField {
            name: field.name().to_owned(),
            display: field.display().to_owned(),
            data_type: data_type.to_owned(),
        }
    }
}

impl FieldsHandler {
    /// A handler over the fields of `config`.
    pub fn new(config: &ConfigRef) -> (handler: FieldsHandler)
        ensures
            handler.config()@ == config@,
    {
        FieldsHandler { config: config.clone() }
    }

    /// The configuration.
    pub closed spec fn config(&self) -> ConfigRef {
        self.config
    }

    /// The fields of the schema, in the order in which they were declared.
    pub fn fields(&self) -> (fields: Vec<ResponseField>)
        ensures
            fields@.len() == self.config()@.schema.len(),
            forall|i: int|
                0 <= i < fields@.len() ==> (#[trigger] fields@[i])@ == response_of(
                    self.config()@.schema[i],
                ),
    {
        let schema = self.config.schema();
        let mut fields: Vec<ResponseField> = Vec::new();
        let mut i: usize = 0;
        while i < schema.len()
            invariant
                i <= schema.len(),
                field_views(schema@) == self.config()@.schema,
                fields@.len() == i,
                forall|j: int|
                    0 <= j < i ==> (#[trigger] fields@[j])@ == response_of(
                        self.config()@.schema[j],
                    ),
            decreases schema.len() - i,
        {
            assert(field_views(schema@)[i as int] == schema@[i as int]@);
            fields.push(ResponseField::from_field(&schema[i]));
            i = i + 1;
        }
        fields
    }
}

} // verus!
