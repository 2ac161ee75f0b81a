use query_index::config::DataType;
use query_index::config::FieldConfig;
use query_index::error::ApplicationError;
use query_index::config::ConfigError;
use query_index::index::CatalogueEntry;
use query_index::index::FieldEntry;
use query_index::index::FieldKind;
use query_index::index::OpenMode;
use query_index::index::TextIndex;
use query_index::index::TextIndexError;
use query_index::index::TextIndexErrorKind;
use query_index::index::WriteAction;
use query_index::worker::WorkerError;

fn listed(name: &str, handle: u32, kind: Option<FieldKind>, indexed: bool) -> CatalogueEntry {
    CatalogueEntry { name: name.to_string(), handle, kind, indexed }
}

fn schema() -> Vec<FieldConfig> {
    vec![
        FieldConfig::new("id", "id", "Id", DataType::Int { indexed: true }),
        FieldConfig::new("age", "age", "Age", DataType::UInt { indexed: false }),
        FieldConfig::new("title", "name", "Title", DataType::Text),
    ]
}

#[test]
fn table_holds_the_fields_that_schema_and_catalogue_share() {
    let catalogue = vec![
        listed("title", 0, Some(FieldKind::Text), true),
        listed("extra", 1, Some(FieldKind::Text), true),
        listed("id", 2, Some(FieldKind::Int), false),
    ];
    let index = TextIndex::new(&schema(), &catalogue);
    assert_eq!(
        index.fields().entries,
        vec![
            FieldEntry { name: "id".into(), handle: 2, kind: FieldKind::Int, indexed: false },
            FieldEntry { name: "title".into(), handle: 0, kind: FieldKind::Text, indexed: true },
        ]
    );
}

#[test]
fn field_listed_with_another_type_is_left_out() {
    let catalogue = vec![
        listed("id", 0, Some(FieldKind::UInt), true),
        listed("age", 1, None, true),
        listed("title", 2, Some(FieldKind::Int), true),
    ];
    let index = TextIndex::new(&schema(), &catalogue);
    assert_eq!(index.fields().entries, vec![]);
}

#[test]
fn first_listing_of_a_name_and_type_gives_the_handle() {
    let catalogue = vec![
        listed("id", 4, Some(FieldKind::UInt), true),
        listed("id", 5, Some(FieldKind::Int), true),
        listed("id", 6, Some(FieldKind::Int), false),
    ];
    let index = TextIndex::new(&schema(), &catalogue);
    assert_eq!(
        index.fields().entries,
        vec![FieldEntry { name: "id".into(), handle: 5, kind: FieldKind::Int, indexed: true }]
    );
}

#[test]
fn table_finds_a_field_by_its_name() {
    let catalogue = vec![
        listed("id", 0, Some(FieldKind::Int), true),
        listed("age", 1, Some(FieldKind::UInt), false),
    ];
    let index = TextIndex::new(&schema(), &catalogue);
    assert_eq!(index.fields().get("age").map(|entry| entry.handle), Some(1));
    assert_eq!(index.fields().get("id").map(|entry| entry.handle), Some(0));
    assert_eq!(index.fields().get("title"), None);
    assert_eq!(index.fields().get("Age"), None);
    assert_eq!(index.fields().get(""), None);
}

#[test]
fn empty_schema_gives_an_empty_table() {
    let index = TextIndex::new(&[], &[listed("id", 0, Some(FieldKind::Int), true)]);
    assert_eq!(index.fields().entries, vec![]);
}

#[test]
fn successful_batch_is_committed_and_failed_batch_rolled_back() {
    let index = TextIndex::new(&[], &[]);
    let good: Result<u8, &str> = Ok(1);
    let bad: Result<u8, &str> = Err("row 3");
    assert_eq!(index.write(&good), WriteAction::Commit);
    assert_eq!(index.write(&bad), WriteAction::Rollback);
}

#[test]
fn write_returns_the_result_of_the_batch_unchanged() {
    let good: Result<u8, String> = Ok(1);
    let bad: Result<u8, String> = Err("row 3".to_string());
    assert_eq!(TextIndex::written(good, Ok(())).unwrap(), Ok(1));
    assert_eq!(TextIndex::written(bad, Ok(())).unwrap(), Err("row 3".to_string()));
}

#[test]
fn failure_of_the_engine_is_the_error_of_the_write() {
    let good: Result<u8, String> = Ok(1);
    let error = TextIndex::written(good, Err(TextIndexError::tantivy_error("no space")))
        .unwrap_err();
    assert_eq!(error.kind(), TextIndexErrorKind::Engine);
    assert_eq!(error.to_string(), "no space");

    let bad: Result<u8, String> = Err("row 3".to_string());
    let error = TextIndex::written(bad, Err(TextIndexError::tantivy_error("lost"))).unwrap_err();
    assert_eq!(error.to_string(), "lost");
}

#[test]
fn rebuild_creates_the_index_anew() {
    assert_eq!(TextIndex::open_mode(true), OpenMode::Create);
    assert_eq!(TextIndex::open_mode(false), OpenMode::OpenOrCreate);
}

#[test]
fn index_errors_keep_kind_and_message() {
    let error = TextIndexError::open_directory_error("missing");
    assert_eq!(error.kind(), TextIndexErrorKind::OpenDirectory);
    assert_eq!(error.to_string(), "missing");
    let error = TextIndexError::tantivy_error("broken");
    assert_eq!(error.kind(), TextIndexErrorKind::Engine);
    assert_eq!(error.to_string(), "broken");
    let error = TextIndexError::poison_error("poisoned");
    assert_eq!(error.kind(), TextIndexErrorKind::Poison);
    assert_eq!(error.to_string(), "poisoned");
    let error = TextIndexError::schema_error("twice");
    assert_eq!(error.kind(), TextIndexErrorKind::Schema);
    assert_eq!(error.to_string(), "twice");
}

#[test]
fn application_errors_keep_the_message() {
    let error = ApplicationError::config_error(ConfigError::new("bad interval"));
    assert!(matches!(error, ApplicationError::ConfigError { .. }));
    assert_eq!(error.to_string(), "bad interval");

    let error = ApplicationError::text_index_error(TextIndexError::tantivy_error("broken"));
    assert!(matches!(error, ApplicationError::TextIndexError { .. }));
    assert_eq!(error.to_string(), "broken");

    let error = ApplicationError::worker_error(WorkerError::io_error("denied"));
    assert!(matches!(error, ApplicationError::WorkerError { .. }));
    assert_eq!(error.to_string(), "denied");

    let error = ApplicationError::server_error("port taken");
    assert!(matches!(error, ApplicationError::WorkerError { .. }));
    assert_eq!(error.to_string(), "port taken");
}
