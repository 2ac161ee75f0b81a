//! The configuration: where the index and the checkpoint live, how often the
//! source is polled, how the source is reached, and the fields.

mod error;
mod validate;

pub use self::error::ConfigError;
pub use self::error::ConfigResult;
pub use self::validate::validate;
pub use self::validate::validate_dir;
pub use self::validate::validate_file;
pub use self::validate::validate_number;
pub use self::validate::PathStatus;

use std::sync::Arc;
use vstd::prelude::*;

verus! {

pub type ConfigRef = Arc<Config>;

/// The type of a field, and for a number whether the field can be searched.
/// Text can always be searched.
#[derive(Debug, Clone, Copy, PartialEq, Eq, Structural)]
pub enum DataType {
    Int { indexed: bool },
    UInt { indexed: bool },
    Text,
}

/// One field: its name in the index, the column of the source it is read
/// from, the label it is shown with, and its type.
#[derive(Debug)]
pub struct FieldConfig {
    name: String,
    column: String,
    display: String,
    data_type: DataType,
}

/// A field as a mathematical value.
pub struct FieldConfigView {
    pub name: Seq<char>,
    pub column: Seq<char>,
    pub display: Seq<char>,
    pub data_type: DataType,
}

impl View for FieldConfig {
    type V = FieldConfigView;

    closed spec fn view(&self) -> FieldConfigView {
        FieldConfigView {
            name: self.name@,
            column: self.column@,
            display: self.display@,
            data_type: self.data_type,
        }
    }
}

impl FieldConfig {
    pub fn new(name: &str, column: &str, display: &str, data_type: DataType) -> (field: FieldConfig)
        ensures
            field@ == (FieldConfigView {
                name: name@,
                column: column@,
                display: display@,
                data_type,
            }),
    {
        FieldConfig {
            name: name.to_owned(),
            column: column.to_owned(),
            display: display.to_owned(),
            data_type,
        }
    }

    pub fn name(&self) -> (name: &str)
        ensures
            name@ == self@.name,
    {
        self.name.as_str()
    }

    pub fn column(&self) -> (column: &str)
        ensures
            column@ == self@.column,
    {
        self.column.as_str()
    }

    pub fn display(&self) -> (display: &str)
        ensures
            display@ == self@.display,
    {
        self.display.as_str()
    }

    pub fn data_type(&self) -> (data_type: DataType)
        ensures
            data_type == self@.data_type,
    {
        self.data_type
    }
}

/// The views of a sequence of fields.
pub open spec fn field_views(fields: Seq<FieldConfig>) -> Seq<FieldConfigView> {
    Seq::new(fields.len(), |i: int| fields[i]@)
}

/// How the source is reached, which column is the key, and the query that
/// fetches the rows after a key.
#[derive(Debug)]
pub struct DatasourceConfig {
    host: String,
    port: u16,
    database: String,
    user: String,
    password: String,
    key: String,
    query: String,
}

/// A datasource as a mathematical value.
pub struct DatasourceConfigView {
    pub host: Seq<char>,
    pub port: u16,
    pub database: Seq<char>,
    pub user: Seq<char>,
    pub password: Seq<char>,
    pub key: Seq<char>,
    pub query: Seq<char>,
}

impl View for DatasourceConfig {
    type V = DatasourceConfigView;

    closed spec fn view(&self) -> DatasourceConfigView {
        DatasourceConfigView {
            host: self.host@,
            port: self.port,
            database: self.database@,
            user: self.user@,
            password: self.password@,
            key: self.key@,
            query: self.query@,
        }
    }
}

impl DatasourceConfig {
    pub fn new(
        host: &str,
        port: u16,
        database: &str,
        user: &str,
        password: &str,
        key: &str,
        query: &str,
    ) -> (datasource: DatasourceConfig)
        ensures
            datasource@ == (DatasourceConfigView {
                host: host@,
                port,
                database: database@,
                user: user@,
                password: password@,
                key: key@,
                query: query@,
            }),
    {
        DatasourceConfig {
            host: host.to_owned(),
            port,
            database: database.to_owned(),
            user: user.to_owned(),
            password: password.to_owned(),
            key: key.to_owned(),
            query: query.to_owned(),
        }
    }

    pub fn host(&self) -> (host: &str)
        ensures
            host@ == self@.host,
    {
        self.host.as_str()
    }

    pub fn port(&self) -> (port: u16)
        ensures
            port == self@.port,
    {
        self.port
    }

    pub fn database(&self) -> (database: &str)
        ensures
            database@ == self@.database,
    {
        self.database.as_str()
    }

    pub fn user(&self) -> (user: &str)
        ensures
            user@ == self@.user,
    {
        self.user.as_str()
    }

    pub fn password(&self) -> (password: &str)
        ensures
            password@ == self@.password,
    {
        self.password.as_str()
    }

    pub fn key(&self) -> (key: &str)
        ensures
            key@ == self@.key,
    {
        self.key.as_str()
    }

    pub fn query(&self) -> (query: &str)
        ensures
            query@ == self@.query,
    {
        self.query.as_str()
    }
}

/// The whole configuration.
#[derive(Debug)]
pub struct Config {
    index_path: String,
    state_file: String,
    interval: u64,
    datasource: DatasourceConfig,
    schema: Vec<FieldConfig>,
}

/// A configuration as a mathematical value.
pub struct ConfigView {
    pub index_path: Seq<char>,
    pub state_file: Seq<char>,
    pub interval: u64,
    pub datasource: DatasourceConfigView,
    pub schema: Seq<FieldConfigView>,
}

impl View for Config {
    type V = ConfigView;

    closed spec fn view(&self) -> ConfigView {
        ConfigView {
            index_path: self.index_path@,
            state_file: self.state_file@,
            interval: self.interval,
            datasource: self.datasource@,
            schema: field_views(self.schema@),
        }
    }
}

impl Config {
    pub fn new(
        index_path: &str,
        state_file: &str,
        interval: u64,
        datasource: DatasourceConfig,
        schema: Vec<FieldConfig>,
    ) -> (config: Config)
        ensures
            config@ == (ConfigView {
                index_path: index_path@,
                state_file: state_file@,
                interval,
                datasource: datasource@,
                schema: field_views(schema@),
            }),
    {
        Config {
            index_path: index_path.to_owned(),
            state_file: state_file.to_owned(),
            interval,
            datasource,
            schema,
        }
    }

    /// The directory of the index.
    pub fn index_path(&self) -> (path: &str)
        ensures
            path@ == self@.index_path,
    {
        self.index_path.as_str()
    }

    /// The file of the checkpoint.
    pub fn state_file(&self) -> (path: &str)
        ensures
            path@ == self@.state_file,
    {
        self.state_file.as_str()
    }

    /// The seconds to wait between two polls of the source.
    pub fn interval(&self) -> (interval: u64)
        ensures
            interval == self@.interval,
    {
        self.interval
    }

    pub fn datasource(&self) -> (datasource: &DatasourceConfig)
        ensures
            datasource@ == self@.datasource,
    {
        &self.datasource
    }

    /// The fields, in the order in which they were declared.
    pub fn schema(&self) -> (schema: &[FieldConfig])
        ensures
            field_views(schema@) == self@.schema,
    {
        self.schema.as_slice()
    }
}

} // verus!
