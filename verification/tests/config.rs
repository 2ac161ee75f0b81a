use query_index::config::validate;
use query_index::config::validate_dir;
use query_index::config::validate_file;
use query_index::config::validate_number;
use query_index::config::Config;
use query_index::config::ConfigError;
use query_index::config::ConfigRef;
use query_index::config::DataType;
use query_index::config::DatasourceConfig;
use query_index::config::FieldConfig;
use query_index::config::PathStatus;
use query_index::handler::FieldsHandler;
use query_index::handler::ResponseField;
use std::sync::Arc;

const DIR: PathStatus = PathStatus { exists: true, is_dir: true, is_file: false };
const FILE: PathStatus = PathStatus { exists: true, is_dir: false, is_file: true };
const ABSENT: PathStatus = PathStatus { exists: false, is_dir: false, is_file: false };
const OTHER: PathStatus = PathStatus { exists: true, is_dir: false, is_file: false };

fn config(interval: u64) -> Config {
    Config::new(
        "/var/index",
        "/var/state.yaml",
        interval,
        DatasourceConfig::new("localhost", 5432, "shop", "reader", "pw", "id", "select 1"),
        vec![
            FieldConfig::new("id", "id", "Id", DataType::Int { indexed: true }),
            FieldConfig::new("age", "years", "Age", DataType::UInt { indexed: false }),
            FieldConfig::new("title", "name", "Title", DataType::Text),
        ],
    )
}

#[test]
fn configuration_gives_back_what_it_was_made_of() {
    let config = config(30);
    assert_eq!(config.index_path(), "/var/index");
    assert_eq!(config.state_file(), "/var/state.yaml");
    assert_eq!(config.interval(), 30);
    assert_eq!(config.schema().len(), 3);

    let datasource = config.datasource();
    assert_eq!(datasource.host(), "localhost");
    assert_eq!(datasource.port(), 5432);
    assert_eq!(datasource.database(), "shop");
    assert_eq!(datasource.user(), "reader");
    assert_eq!(datasource.password(), "pw");
    assert_eq!(datasource.key(), "id");
    assert_eq!(datasource.query(), "select 1");

    let field = &config.schema()[1];
    assert_eq!(field.name(), "age");
    assert_eq!(field.column(), "years");
    assert_eq!(field.display(), "Age");
    assert_eq!(field.data_type(), DataType::UInt { indexed: false });
    assert_eq!(config.schema()[0].data_type(), DataType::Int { indexed: true });
    assert_eq!(config.schema()[2].data_type(), DataType::Text);
}

fn complaint(result: Result<(), ConfigError>) -> Option<String> {
    result.err().map(|error| error.to_string())
}

#[test]
fn valid_configuration_passes() {
    assert_eq!(complaint(validate(&config(1), DIR, FILE)), None);
    assert_eq!(complaint(validate(&config(u64::MAX), DIR, ABSENT)), None);
}

#[test]
fn interval_must_be_positive() {
    assert_eq!(
        complaint(validate(&config(0), DIR, FILE)),
        Some("Numbers of interval must be greater than zero, but 0 given".to_string())
    );
    assert_eq!(
        complaint(validate_number(0, "retries")),
        Some("Numbers of retries must be greater than zero, but 0 given".to_string())
    );
    assert_eq!(complaint(validate_number(1, "retries")), None);
}

#[test]
fn index_path_must_be_an_existing_directory() {
    assert_eq!(
        complaint(validate(&config(1), ABSENT, FILE)),
        Some("File index path (/var/index) is not exists".to_string())
    );
    assert_eq!(
        complaint(validate(&config(1), FILE, FILE)),
        Some("File index path (/var/index) is not a directory".to_string())
    );
    assert_eq!(
        complaint(validate_dir(OTHER, "/dev/null", "spool")),
        Some("File spool (/dev/null) is not a directory".to_string())
    );
    assert_eq!(complaint(validate_dir(DIR, "/tmp", "spool")), None);
}

#[test]
fn state_file_must_be_a_file_where_it_exists() {
    assert_eq!(
        complaint(validate(&config(1), DIR, DIR)),
        Some("state file directory (/var/state.yaml) is not a file".to_string())
    );
    assert_eq!(
        complaint(validate_file(OTHER, "/dev/null", "log")),
        Some("log directory (/dev/null) is not a file".to_string())
    );
    assert_eq!(complaint(validate_file(ABSENT, "/x", "log")), None);
    assert_eq!(complaint(validate_file(FILE, "/x", "log")), None);
}

#[test]
fn first_complaint_is_reported() {
    assert_eq!(
        complaint(validate(&config(0), ABSENT, DIR)),
        Some("Numbers of interval must be greater than zero, but 0 given".to_string())
    );
    assert_eq!(
        complaint(validate(&config(5), ABSENT, DIR)),
        Some("File index path (/var/index) is not exists".to_string())
    );
}

#[test]
fn config_error_keeps_its_message() {
    assert_eq!(ConfigError::new("broken").to_string(), "broken");
}

#[test]
fn fields_are_told_with_name_label_and_kind() {
    let config: ConfigRef = Arc::new(config(1));
    let handler = FieldsHandler::new(&config);
    assert_eq!(
        handler.fields(),
        vec![
            ResponseField { name: "id".into(), display: "Id".into(), data_type: "number".into() },
            ResponseField {
                name: "age".into(),
                display: "Age".into(),
                data_type: "number".into()
            },
            ResponseField {
                name: "title".into(),
                display: "Title".into(),
                data_type: "string".into()
            },
        ]
    );
}

#[test]
fn response_field_of_a_text_field() {
    let field = FieldConfig::new("body", "text", "Body", DataType::Text);
    assert_eq!(
        ResponseField::from_field(&field),
        ResponseField { name: "body".into(), display: "Body".into(), data_type: "string".into() }
    );
}
