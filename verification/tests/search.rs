use query_index::document::Document;
use query_index::document::Value;
use query_index::handler::build_query;
use query_index::handler::create_bound_query_i64;
use query_index::handler::create_bound_query_u64;
use query_index::handler::create_term_query_i64;
use query_index::handler::create_term_query_text;
use query_index::handler::create_term_query_u64;
use query_index::handler::map_occurance;
use query_index::handler::parse_bound_i64;
use query_index::handler::parse_bound_u64;
use query_index::handler::plan_search;
use query_index::handler::plan_tokens;
use query_index::handler::render_document;
use query_index::handler::render_rows;
use query_index::handler::value_to_string;
use query_index::handler::Clause;
use query_index::handler::CompiledQuery;
use query_index::handler::HandlerError;
use query_index::handler::Matcher;
use query_index::handler::Occurrence;
use query_index::handler::Predicate;
use query_index::handler::RowField;
use query_index::handler::SearchPlan;
use query_index::handler::RESULT_LIMIT;
use query_index::index::CatalogueEntry;
use query_index::index::FieldEntry;
use query_index::index::FieldKind;
use query_index::index::FieldTable;
use query_index::parser::parse_query;
use query_index::parser::Occurance;
use query_index::parser::Token;

fn entry(name: &str, handle: u32, kind: FieldKind, indexed: bool) -> FieldEntry {
    FieldEntry { name: name.to_string(), handle, kind, indexed }
}

fn table() -> FieldTable {
    FieldTable {
        entries: vec![
            entry("title", 0, FieldKind::Text, true),
            entry("age", 1, FieldKind::UInt, true),
            entry("balance", 2, FieldKind::Int, true),
            entry("body", 3, FieldKind::Text, true),
            entry("hidden", 4, FieldKind::Int, false),
        ],
    }
}

fn compile(query: &str) -> Result<Vec<Clause>, String> {
    let tokens = parse_query(query).unwrap();
    match build_query(&tokens, &table()) {
        Ok(query) => Ok(query.clauses),
        Err(error) => Err(error.to_string()),
    }
}

fn text(field: u32, value: &str) -> Predicate {
    Predicate::Text { field, value: value.to_string() }
}

fn one(occur: Occurrence, predicate: Predicate) -> Clause {
    Clause { occur, matcher: Matcher::One(predicate) }
}

#[test]
fn text_term_asks_every_indexed_text_field_for_each_word() {
    assert_eq!(
        compile("+Hello_World").unwrap(),
        vec![
            Clause {
                occur: Occurrence::Must,
                matcher: Matcher::AnyOf(vec![text(0, "hello"), text(3, "hello")]),
            },
            Clause {
                occur: Occurrence::Must,
                matcher: Matcher::AnyOf(vec![text(0, "world"), text(3, "world")]),
            },
        ]
    );
}

#[test]
fn text_term_without_words_gives_no_clause() {
    assert_eq!(compile("-___").unwrap(), vec![]);
}

#[test]
fn text_term_without_text_fields_matches_nothing() {
    let numbers = FieldTable { entries: vec![entry("age", 0, FieldKind::UInt, true)] };
    let tokens = parse_query("word").unwrap();
    assert_eq!(
        build_query(&tokens, &numbers).unwrap().clauses,
        vec![Clause { occur: Occurrence::Should, matcher: Matcher::AnyOf(vec![]) }]
    );
}

#[test]
fn equality_on_text_is_lower_cased() {
    assert_eq!(
        compile("title:RuSt").unwrap(),
        vec![one(Occurrence::Should, text(0, "rust"))]
    );
    assert_eq!(
        compile("title:\u{00C4}\u{0394}").unwrap(),
        vec![one(Occurrence::Should, text(0, "\u{00E4}\u{03B4}"))]
    );
}

#[test]
fn equality_on_numbers_parses_decimal() {
    assert_eq!(
        compile("-age:42").unwrap(),
        vec![one(Occurrence::MustNot, Predicate::UInt { field: 1, value: 42 })]
    );
    assert_eq!(
        compile("age:+007").unwrap(),
        vec![one(Occurrence::Should, Predicate::UInt { field: 1, value: 7 })]
    );
    assert_eq!(
        compile("age:18446744073709551615").unwrap(),
        vec![one(Occurrence::Should, Predicate::UInt { field: 1, value: u64::MAX })]
    );
    assert_eq!(
        compile("+balance:-5").unwrap(),
        vec![one(Occurrence::Must, Predicate::Int { field: 2, value: -5 })]
    );
    assert_eq!(
        compile("balance:-9223372036854775808").unwrap(),
        vec![one(Occurrence::Should, Predicate::Int { field: 2, value: i64::MIN })]
    );
}

#[test]
fn equality_reports_value_and_field_of_a_bad_number() {
    assert_eq!(compile("age:abc").unwrap_err(), "Failed to parse value `abc` of field `age`");
    assert_eq!(compile("age:-1").unwrap_err(), "Failed to parse value `-1` of field `age`");
    assert_eq!(compile("age:").unwrap_err(), "Failed to parse value `` of field `age`");
    assert_eq!(compile("age:+").unwrap_err(), "Failed to parse value `+` of field `age`");
    assert_eq!(compile("age:1_0").unwrap_err(), "Failed to parse value `1_0` of field `age`");
    assert_eq!(
        compile("age:18446744073709551616").unwrap_err(),
        "Failed to parse value `18446744073709551616` of field `age`"
    );
    assert_eq!(
        compile("balance:9223372036854775808").unwrap_err(),
        "Failed to parse value `9223372036854775808` of field `balance`"
    );
    assert_eq!(
        compile("balance:--1").unwrap_err(),
        "Failed to parse value `--1` of field `balance`"
    );
}

#[test]
fn equality_on_undeclared_field_is_not_defined() {
    assert_eq!(compile("nope:1").unwrap_err(), "Field `nope` not defined");
    assert_eq!(compile(":1").unwrap_err(), "Field `` not defined");
}

#[test]
fn field_that_is_not_indexed_is_not_defined() {
    assert_eq!(compile("hidden:1").unwrap_err(), "Field `hidden` not defined");
    assert_eq!(compile("hidden:1..2").unwrap_err(), "Field `hidden` not defined");
}

#[test]
fn range_on_text_field_is_not_numeric() {
    assert_eq!(compile("title:1..2").unwrap_err(), "Field `title` not numeric");
}

#[test]
fn range_on_undeclared_field_is_not_defined() {
    assert_eq!(compile("nope:1..2").unwrap_err(), "Field `nope` not defined");
}

#[test]
fn range_bounds_are_inclusive_numbers_or_open() {
    assert_eq!(
        compile("age:10..20").unwrap(),
        vec![one(
            Occurrence::Should,
            Predicate::UIntRange { field: 1, lower: Some(10), upper: Some(20) }
        )]
    );
    assert_eq!(
        compile("+age:..20").unwrap(),
        vec![one(
            Occurrence::Must,
            Predicate::UIntRange { field: 1, lower: None, upper: Some(20) }
        )]
    );
    assert_eq!(
        compile("-balance:10..").unwrap(),
        vec![one(
            Occurrence::MustNot,
            Predicate::IntRange { field: 2, lower: Some(10), upper: None }
        )]
    );
    assert_eq!(
        compile("balance:..").unwrap(),
        vec![one(Occurrence::Should, Predicate::IntRange { field: 2, lower: None, upper: None })]
    );
}

#[test]
fn range_bound_that_is_numeric_but_not_decimal_fails_to_compile() {
    assert_eq!(
        compile("age:\u{2460}..5").unwrap_err(),
        "Failed to parse value `\u{2460}` of field `age`"
    );
    assert_eq!(
        compile("age:1..99999999999999999999").unwrap_err(),
        "Failed to parse value `99999999999999999999` of field `age`"
    );
}

#[test]
fn empty_bound_text_is_open() {
    let tokens = vec![Token::FilterRange {
        occurance: Some(Occurance::Must),
        field: "age".into(),
        left_bound: Some("".into()),
        right_bound: Some("3".into()),
    }];
    assert_eq!(
        build_query(&tokens, &table()).unwrap().clauses,
        vec![one(Occurrence::Must, Predicate::UIntRange { field: 1, lower: None, upper: Some(3) })]
    );
}

#[test]
fn left_bound_of_a_range_is_compiled_first() {
    let tokens = vec![Token::FilterRange {
        occurance: None,
        field: "balance".into(),
        left_bound: Some("x".into()),
        right_bound: Some("y".into()),
    }];
    assert_eq!(
        build_query(&tokens, &table()).unwrap_err().to_string(),
        "Failed to parse value `x` of field `balance`"
    );
}

#[test]
fn first_error_aborts_the_whole_query() {
    assert_eq!(compile("good nope:1 title:1..2").unwrap_err(), "Field `nope` not defined");
    assert_eq!(compile("title:1..2 nope:1").unwrap_err(), "Field `title` not numeric");
}

#[test]
fn clauses_follow_the_tokens_in_order() {
    assert_eq!(
        compile("age:1 +a_b -title:X").unwrap(),
        vec![
            one(Occurrence::Should, Predicate::UInt { field: 1, value: 1 }),
            Clause {
                occur: Occurrence::Must,
                matcher: Matcher::AnyOf(vec![text(0, "a"), text(3, "a")]),
            },
            Clause {
                occur: Occurrence::Must,
                matcher: Matcher::AnyOf(vec![text(0, "b"), text(3, "b")]),
            },
            one(Occurrence::MustNot, text(0, "x")),
        ]
    );
}

#[test]
fn no_tokens_compile_to_no_clauses() {
    assert_eq!(build_query(&[], &table()).unwrap(), CompiledQuery { clauses: vec![] });
}

#[test]
fn first_entry_of_a_name_decides() {
    let doubled = FieldTable {
        entries: vec![
            entry("x", 7, FieldKind::UInt, true),
            entry("x", 8, FieldKind::Text, true),
        ],
    };
    let tokens = parse_query("x:5").unwrap();
    assert_eq!(
        build_query(&tokens, &doubled).unwrap().clauses,
        vec![one(Occurrence::Should, Predicate::UInt { field: 7, value: 5 })]
    );
}

#[test]
fn occurrence_of_a_mark() {
    assert_eq!(map_occurance(&Some(Occurance::Must)), Occurrence::Must);
    assert_eq!(map_occurance(&Some(Occurance::MustNot)), Occurrence::MustNot);
    assert_eq!(map_occurance(&None), Occurrence::Should);
}

#[test]
fn predicates_hold_what_they_were_made_of() {
    assert_eq!(create_term_query_text(3, "word"), text(3, "word"));
    assert_eq!(create_term_query_u64(1, 9), Predicate::UInt { field: 1, value: 9 });
    assert_eq!(create_term_query_i64(2, -9), Predicate::Int { field: 2, value: -9 });
    assert_eq!(
        create_bound_query_u64(1, Some(1), None),
        Predicate::UIntRange { field: 1, lower: Some(1), upper: None }
    );
    assert_eq!(
        create_bound_query_i64(2, None, Some(-1)),
        Predicate::IntRange { field: 2, lower: None, upper: Some(-1) }
    );
}

#[test]
fn bounds_are_read_as_numbers() {
    assert_eq!(parse_bound_u64(&None, "age").unwrap(), None);
    assert_eq!(parse_bound_u64(&Some("".into()), "age").unwrap(), None);
    assert_eq!(parse_bound_u64(&Some("12".into()), "age").unwrap(), Some(12));
    assert_eq!(
        parse_bound_u64(&Some("-12".into()), "age").unwrap_err().to_string(),
        "Failed to parse value `-12` of field `age`"
    );
    assert_eq!(parse_bound_i64(&None, "balance").unwrap(), None);
    assert_eq!(parse_bound_i64(&Some("-12".into()), "balance").unwrap(), Some(-12));
    assert_eq!(
        parse_bound_i64(&Some("1.5".into()), "balance").unwrap_err().to_string(),
        "Failed to parse value `1.5` of field `balance`"
    );
}

#[test]
fn empty_query_is_answered_without_the_index() {
    assert_eq!(plan_search("", &table()).unwrap(), SearchPlan::Nothing);
    assert_eq!(plan_search(" \t\n", &table()).unwrap(), SearchPlan::Nothing);
    assert_eq!(plan_tokens(&[], &table()).unwrap(), SearchPlan::Nothing);
}

#[test]
fn query_with_tokens_is_run() {
    assert_eq!(
        plan_search("age:3", &table()).unwrap(),
        SearchPlan::Run(CompiledQuery {
            clauses: vec![one(Occurrence::Should, Predicate::UInt { field: 1, value: 3 })],
        })
    );
    assert_eq!(
        plan_search("_", &table()).unwrap(),
        SearchPlan::Run(CompiledQuery { clauses: vec![] })
    );
}

#[test]
fn search_reports_the_error_of_the_parser_and_of_the_compiler() {
    assert_eq!(
        plan_search("age:a..2", &table()).unwrap_err().to_string(),
        "Value `a` is not a number"
    );
    assert_eq!(
        plan_search("nope:2", &table()).unwrap_err().to_string(),
        "Field `nope` not defined"
    );
}

#[test]
fn handler_error_keeps_its_message() {
    assert_eq!(HandlerError::new("broken").to_string(), "broken");
}

#[test]
fn values_are_shown_as_text() {
    assert_eq!(value_to_string(&Value::Str("Hello".into())), Some("Hello".to_string()));
    assert_eq!(value_to_string(&Value::U64(0)), Some("0".to_string()));
    assert_eq!(value_to_string(&Value::U64(1234567890)), Some("1234567890".to_string()));
    assert_eq!(value_to_string(&Value::U64(u64::MAX)), Some("18446744073709551615".to_string()));
    assert_eq!(value_to_string(&Value::I64(-42)), Some("-42".to_string()));
    assert_eq!(value_to_string(&Value::I64(i64::MIN)), Some("-9223372036854775808".to_string()));
    assert_eq!(value_to_string(&Value::Other), None);
}

fn catalogue() -> Vec<CatalogueEntry> {
    vec![
        CatalogueEntry {
            name: "title".into(),
            handle: 0,
            kind: Some(FieldKind::Text),
            indexed: true,
        },
        CatalogueEntry { name: "age".into(), handle: 1, kind: Some(FieldKind::UInt), indexed: true },
        CatalogueEntry { name: "stamp".into(), handle: 2, kind: None, indexed: false },
    ]
}

#[test]
fn document_is_rendered_under_the_names_of_its_fields() {
    let mut document = Document::new();
    document.add_u64(1, 30);
    document.add_text(0, "Hello");
    document.add(2, Value::Other);
    document.add_i64(9, 1);

    assert_eq!(
        render_document(&catalogue(), &document),
        vec![
            RowField { name: "age".into(), value: Some("30".into()) },
            RowField { name: "title".into(), value: Some("Hello".into()) },
            RowField { name: "stamp".into(), value: None },
        ]
    );
}

#[test]
fn unset_fields_are_omitted() {
    let mut document = Document::new();
    document.add_text(0, "only");
    assert_eq!(
        render_document(&catalogue(), &document),
        vec![RowField { name: "title".into(), value: Some("only".into()) }]
    );
    assert_eq!(render_document(&catalogue(), &Document::new()), vec![]);
}

#[test]
fn result_is_capped_at_fifty_rows() {
    assert_eq!(RESULT_LIMIT, 50);

    let mut found = Vec::new();
    for number in 0..60u64 {
        let mut document = Document::new();
        document.add_u64(1, number);
        found.push(document);
    }
    let rows = render_rows(&catalogue(), &found);
    assert_eq!(rows.len(), 50);
    assert_eq!(rows[0], vec![RowField { name: "age".into(), value: Some("0".into()) }]);
    assert_eq!(rows[49], vec![RowField { name: "age".into(), value: Some("49".into()) }]);

    assert_eq!(render_rows(&catalogue(), &found[..3]).len(), 3);
    assert_eq!(render_rows(&catalogue(), &found[..50]).len(), 50);
    assert_eq!(render_rows(&catalogue(), &[]).len(), 0);
}
