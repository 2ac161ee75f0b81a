use query_index::config::DataType;
use query_index::config::FieldConfig;
use query_index::document::Document;
use query_index::document::Value;
use query_index::engine::build_schema;
use query_index::engine::catalogue_of;
use query_index::engine::engine_document;
use query_index::engine::engine_occur;
use query_index::engine::engine_query;
use query_index::engine::MAX_FIELDS;
use query_index::handler::plan_search;
use query_index::handler::render_rows;
use query_index::handler::Clause;
use query_index::handler::CompiledQuery;
use query_index::handler::Matcher;
use query_index::handler::Occurrence;
use query_index::handler::Predicate;
use query_index::handler::RowField;
use query_index::handler::SearchPlan;
use query_index::index::CatalogueEntry;
use query_index::index::FieldKind;
use query_index::index::TextIndex;
use query_index::index::TextIndexErrorKind;
use query_index::index::WriteAction;
use query_index::worker::read_rows;
use query_index::worker::SourceRow;
use query_index::worker::SourceValue;
use query_index::worker::WorkerError;
use tantivy::collector::TopDocs;
use tantivy::query::Occur;
use tantivy::schema::OwnedValue;
use tantivy::schema::Schema;
use tantivy::Index;
use tantivy::IndexReader;
use tantivy::IndexWriter;
use tantivy::ReloadPolicy;
use tantivy::TantivyDocument;

fn fields() -> Vec<FieldConfig> {
    vec![
        FieldConfig::new("id", "id", "Id", DataType::Int { indexed: true }),
        FieldConfig::new("age", "age", "Age", DataType::UInt { indexed: true }),
        FieldConfig::new("title", "name", "Title", DataType::Text),
        FieldConfig::new("weight", "weight", "Weight", DataType::UInt { indexed: false }),
        FieldConfig::new("delta", "delta", "Delta", DataType::Int { indexed: false }),
    ]
}

#[test]
fn schema_declares_each_field_at_its_position() {
    let schema = build_schema(&fields()).unwrap();
    assert_eq!(schema.num_fields(), 5);
    let names: Vec<(u32, String, bool, bool)> = schema
        .fields()
        .map(|(field, entry)| {
            (field.field_id(), entry.name().to_string(), entry.is_indexed(), entry.is_stored())
        })
        .collect();
    assert_eq!(
        names,
        vec![
            (0, "id".to_string(), true, true),
            (1, "age".to_string(), true, true),
            (2, "title".to_string(), true, true),
            (3, "weight".to_string(), false, true),
            (4, "delta".to_string(), false, true),
        ]
    );
    assert_eq!(schema.get_field("title").unwrap().field_id(), 2);
}

#[test]
fn catalogue_lists_what_the_schema_declares() {
    let schema = build_schema(&fields()).unwrap();
    assert_eq!(
        catalogue_of(&schema).unwrap(),
        vec![
            CatalogueEntry {
                name: "id".into(),
                handle: 0,
                kind: Some(FieldKind::Int),
                indexed: true
            },
            CatalogueEntry {
                name: "age".into(),
                handle: 1,
                kind: Some(FieldKind::UInt),
                indexed: true
            },
            CatalogueEntry {
                name: "title".into(),
                handle: 2,
                kind: Some(FieldKind::Text),
                indexed: true
            },
            CatalogueEntry {
                name: "weight".into(),
                handle: 3,
                kind: Some(FieldKind::UInt),
                indexed: false
            },
            CatalogueEntry {
                name: "delta".into(),
                handle: 4,
                kind: Some(FieldKind::Int),
                indexed: false
            },
        ]
    );
}

#[test]
fn catalogue_lists_fields_of_other_types_without_a_kind() {
    let mut builder = Schema::builder();
    builder.add_bool_field("flag", tantivy::schema::INDEXED);
    builder.add_text_field("note", tantivy::schema::STORED);
    let schema = builder.build();
    assert_eq!(
        catalogue_of(&schema).unwrap(),
        vec![
            CatalogueEntry { name: "flag".into(), handle: 0, kind: None, indexed: true },
            CatalogueEntry {
                name: "note".into(),
                handle: 1,
                kind: Some(FieldKind::Text),
                indexed: false
            },
        ]
    );
}

#[test]
fn every_declared_field_resolves_to_its_position() {
    let fields = fields();
    let schema = build_schema(&fields).unwrap();
    let index = TextIndex::new(&fields, &catalogue_of(&schema).unwrap());
    let table = index.fields();
    assert_eq!(table.entries.len(), 5);
    for (position, field) in fields.iter().enumerate() {
        let entry = table.get(field.name()).unwrap();
        assert_eq!(entry.handle as usize, position);
        assert_eq!(entry.name, field.name());
    }
    assert_eq!(table.get("weight").unwrap().indexed, false);
    assert_eq!(table.get("age").unwrap().indexed, true);
    assert_eq!(table.get("title").unwrap().kind, FieldKind::Text);
}

#[test]
fn schema_refuses_a_name_the_engine_does_not_take() {
    let bad = vec![
        FieldConfig::new("id", "id", "Id", DataType::Text),
        FieldConfig::new("-x", "x", "X", DataType::Text),
        FieldConfig::new("", "y", "Y", DataType::Text),
    ];
    let error = build_schema(&bad).unwrap_err();
    assert_eq!(error.kind(), TextIndexErrorKind::Schema);
    assert_eq!(error.to_string(), "Field name `-x` is empty or starts with `-`");

    let bad = vec![FieldConfig::new("", "y", "Y", DataType::Int { indexed: true })];
    assert_eq!(
        build_schema(&bad).unwrap_err().to_string(),
        "Field name `` is empty or starts with `-`"
    );
}

#[test]
fn schema_refuses_a_name_used_twice() {
    let bad = vec![
        FieldConfig::new("id", "id", "Id", DataType::Text),
        FieldConfig::new("age", "age", "Age", DataType::UInt { indexed: true }),
        FieldConfig::new("id", "other", "Other", DataType::Int { indexed: false }),
    ];
    let error = build_schema(&bad).unwrap_err();
    assert_eq!(error.kind(), TextIndexErrorKind::Schema);
    assert_eq!(error.to_string(), "Field `id` is declared twice");
}

#[test]
fn schema_refuses_more_fields_than_handles() {
    let many: Vec<FieldConfig> = (0..MAX_FIELDS + 1)
        .map(|number| FieldConfig::new(&format!("f{}", number), "c", "F", DataType::Text))
        .collect();
    let error = build_schema(&many).unwrap_err();
    assert_eq!(error.kind(), TextIndexErrorKind::Schema);
    assert_eq!(error.to_string(), "The schema has more fields than the index can hold");
}

#[test]
fn schema_without_fields_is_empty() {
    assert_eq!(build_schema(&[]).unwrap().num_fields(), 0);
    assert_eq!(MAX_FIELDS, 65536);
}

fn values(document: &TantivyDocument) -> Vec<(u32, OwnedValue)> {
    document
        .field_values()
        .map(|(field, value)| (field.field_id(), OwnedValue::from(value)))
        .collect()
}

#[test]
fn engine_document_holds_the_same_values() {
    let mut document = Document::new();
    document.add_text(2, "Hello");
    document.add_i64(0, -5);
    document.add_u64(1, 30);
    document.add_u64(65535, 1);
    let made = engine_document(&document).unwrap();
    assert_eq!(
        values(&made),
        vec![
            (2, OwnedValue::Str("Hello".to_string())),
            (0, OwnedValue::I64(-5)),
            (1, OwnedValue::U64(30)),
            (65535, OwnedValue::U64(1)),
        ]
    );
    assert_eq!(values(&engine_document(&Document::new()).unwrap()), vec![]);
}

#[test]
fn engine_takes_no_handle_beyond_sixteen_bits_and_no_foreign_value() {
    let mut document = Document::new();
    document.add_u64(65536, 1);
    assert!(engine_document(&document).is_none());

    let mut document = Document::new();
    document.add_u64(1, 1);
    document.add(2, Value::Other);
    assert!(engine_document(&document).is_none());
}

#[test]
fn engine_occurrences() {
    assert_eq!(engine_occur(Occurrence::Should), Occur::Should);
    assert_eq!(engine_occur(Occurrence::Must), Occur::Must);
    assert_eq!(engine_occur(Occurrence::MustNot), Occur::MustNot);
}

#[test]
fn engine_query_has_the_clauses_of_the_compiled_query() {
    let query = CompiledQuery {
        clauses: vec![
            Clause {
                occur: Occurrence::Must,
                matcher: Matcher::One(Predicate::UInt { field: 1, value: 30 }),
            },
            Clause {
                occur: Occurrence::MustNot,
                matcher: Matcher::AnyOf(vec![
                    Predicate::Text { field: 2, value: "a".into() },
                    Predicate::Text { field: 5, value: "a".into() },
                ]),
            },
            Clause {
                occur: Occurrence::Should,
                matcher: Matcher::One(Predicate::IntRange {
                    field: 0,
                    lower: Some(-3),
                    upper: None,
                }),
            },
        ],
    };
    let made = engine_query(&query);
    let occurs: Vec<Occur> = made.clauses().iter().map(|(occur, _)| *occur).collect();
    assert_eq!(occurs, vec![Occur::Must, Occur::MustNot, Occur::Should]);

    let shown = format!("{:?}", made);
    assert!(shown.contains("TermQuery"));
    assert!(shown.contains("RangeQuery"));
    assert_eq!(shown.matches("BooleanQuery").count(), 2);
    assert_eq!(engine_query(&CompiledQuery { clauses: vec![] }).clauses().len(), 0);
}

struct Engine {
    index: TextIndex,
    catalogue: Vec<CatalogueEntry>,
    reader: IndexReader,
    writer: IndexWriter,
}

fn open() -> Engine {
    let fields = fields();
    let schema = build_schema(&fields).unwrap();
    let engine = Index::create_in_ram(schema);
    let catalogue = catalogue_of(&engine.schema()).unwrap();
    let index = TextIndex::new(&fields, &catalogue);
    let reader =
        engine.reader_builder().reload_policy(ReloadPolicy::Manual).try_into().unwrap();
    let writer = engine.writer_with_num_threads(1, 15_000_000).unwrap();
    Engine { index, catalogue, reader, writer }
}

fn ingest(engine: &mut Engine, rows: &[SourceRow]) -> Result<Option<i64>, WorkerError> {
    let result = match read_rows(engine.index.fields(), "id", &fields(), rows) {
        Ok(batch) => {
            for document in &batch.documents {
                engine.writer.add_document(engine_document(document).unwrap()).unwrap();
            }
            Ok(batch.last_key)
        }
        Err(error) => Err(error),
    };
    match engine.index.write(&result) {
        WriteAction::Commit => {
            engine.writer.commit().unwrap();
        }
        WriteAction::Rollback => {
            engine.writer.rollback().unwrap();
        }
    }
    engine.reader.reload().unwrap();
    TextIndex::written(result, Ok(())).unwrap()
}

fn search(engine: &Engine, query: &str) -> Vec<Vec<RowField>> {
    match plan_search(query, engine.index.fields()).unwrap() {
        SearchPlan::Nothing => Vec::new(),
        SearchPlan::Run(query) => {
            let searcher = engine.reader.searcher();
            let found = searcher
                .search(&engine_query(&query), &TopDocs::with_limit(50).order_by_score())
                .unwrap();
            let mut documents = Vec::new();
            for (_score, address) in found {
                let stored: TantivyDocument = searcher.doc(address).unwrap();
                let mut document = Document::new();
                for (field, value) in stored.field_values() {
                    let value = match OwnedValue::from(value) {
                        OwnedValue::Str(text) => Value::Str(text),
                        OwnedValue::U64(number) => Value::U64(number),
                        OwnedValue::I64(number) => Value::I64(number),
                        _ => Value::Other,
                    };
                    document.add(field.field_id(), value);
                }
                documents.push(document);
            }
            render_rows(&engine.catalogue, &documents)
        }
    }
}

fn row(id: i64, age: Option<u32>, title: &str) -> SourceRow {
    SourceRow {
        values: vec![
            Some(SourceValue::Int(id)),
            age.map(SourceValue::UInt),
            Some(SourceValue::Text(title.to_string())),
        ],
    }
}

fn titles(rows: &[Vec<RowField>]) -> Vec<String> {
    let mut titles: Vec<String> = rows
        .iter()
        .map(|row| {
            row.iter().find(|field| field.name == "title").unwrap().value.clone().unwrap()
        })
        .collect();
    titles.sort();
    titles
}

#[test]
fn text_is_stored_and_rendered_trimmed() {
    let mut engine = open();
    assert_eq!(ingest(&mut engine, &[row(1, Some(30), "  Hello  ")]).unwrap(), Some(1));
    assert_eq!(
        search(&engine, "hello"),
        vec![vec![
            RowField { name: "id".into(), value: Some("1".into()) },
            RowField { name: "age".into(), value: Some("30".into()) },
            RowField { name: "title".into(), value: Some("Hello".into()) },
        ]]
    );
}

#[test]
fn unset_field_is_not_rendered() {
    let mut engine = open();
    ingest(&mut engine, &[row(-4, None, "solo")]).unwrap();
    assert_eq!(
        search(&engine, "id:-4"),
        vec![vec![
            RowField { name: "id".into(), value: Some("-4".into()) },
            RowField { name: "title".into(), value: Some("solo".into()) },
        ]]
    );
}

#[test]
fn failed_batch_shows_no_document() {
    let mut engine = open();
    ingest(&mut engine, &[row(1, Some(30), "first")]).unwrap();

    let wrong = SourceRow { values: vec![Some(SourceValue::Text("x".into()))] };
    let error =
        ingest(&mut engine, &[row(2, Some(31), "second"), wrong, row(3, Some(32), "third")])
            .unwrap_err();
    assert_eq!(error.to_string(), "Value of column `id` has the wrong type");

    assert_eq!(titles(&search(&engine, "age:0..100")), vec!["first"]);
    assert_eq!(engine.reader.searcher().num_docs(), 1);
}

#[test]
fn rolled_back_documents_never_show() {
    let mut engine = open();
    let staged = read_rows(engine.index.fields(), "id", &fields(), &[row(9, Some(1), "ghost")])
        .unwrap();
    for document in &staged.documents {
        engine.writer.add_document(engine_document(document).unwrap()).unwrap();
    }
    let failed: Result<(), &str> = Err("source went away");
    assert_eq!(engine.index.write(&failed), WriteAction::Rollback);
    engine.writer.rollback().unwrap();
    engine.reader.reload().unwrap();
    assert_eq!(engine.reader.searcher().num_docs(), 0);

    ingest(&mut engine, &[row(10, Some(2), "real")]).unwrap();
    assert_eq!(titles(&search(&engine, "age:0..100")), vec!["real"]);
}

#[test]
fn cycle_without_rows_changes_nothing() {
    let mut engine = open();
    ingest(&mut engine, &[row(1, Some(30), "first")]).unwrap();
    let before = search(&engine, "first");
    assert_eq!(ingest(&mut engine, &[]).unwrap(), None);
    assert_eq!(ingest(&mut engine, &[]).unwrap(), None);
    assert_eq!(search(&engine, "first"), before);
    assert_eq!(engine.reader.searcher().num_docs(), 1);
}

#[test]
fn queries_find_what_they_ask_for() {
    let mut engine = open();
    let key = ingest(
        &mut engine,
        &[
            row(1, Some(10), "Red Apple"),
            row(2, Some(20), "green apple"),
            row(3, Some(30), "Red Cherry"),
            row(-7, None, "plum"),
        ],
    )
    .unwrap();
    assert_eq!(key, Some(3));

    assert_eq!(titles(&search(&engine, "APPLE")), vec!["Red Apple", "green apple"]);
    assert_eq!(titles(&search(&engine, "+red +apple")), vec!["Red Apple"]);
    assert_eq!(titles(&search(&engine, "+red_apple")), vec!["Red Apple"]);
    assert_eq!(titles(&search(&engine, "+apple -red")), vec!["green apple"]);
    assert_eq!(titles(&search(&engine, "title:Cherry")), vec!["Red Cherry"]);
    assert_eq!(titles(&search(&engine, "age:20")), vec!["green apple"]);
    assert_eq!(titles(&search(&engine, "age:10..20")), vec!["Red Apple", "green apple"]);
    assert_eq!(titles(&search(&engine, "age:20..")), vec!["Red Cherry", "green apple"]);
    assert_eq!(titles(&search(&engine, "age:..10")), vec!["Red Apple"]);
    assert_eq!(
        titles(&search(&engine, "age:..")),
        vec!["Red Apple", "Red Cherry", "green apple"]
    );
    assert_eq!(titles(&search(&engine, "id:-7")), vec!["plum"]);
    assert_eq!(titles(&search(&engine, "+id:2..3 -age:30")), vec!["green apple"]);
    assert_eq!(search(&engine, "pear"), Vec::<Vec<RowField>>::new());
    assert_eq!(search(&engine, ""), Vec::<Vec<RowField>>::new());
}

#[test]
fn search_returns_at_most_fifty_rows() {
    let mut engine = open();
    let rows: Vec<SourceRow> = (0..70).map(|id| row(id, Some(1), "same")).collect();
    assert_eq!(ingest(&mut engine, &rows).unwrap(), Some(69));
    assert_eq!(search(&engine, "same").len(), 50);
}
