use query_index::parser::parse_query;
use query_index::parser::Occurance;
use query_index::parser::Token;

fn strings(words: &[&str]) -> Vec<String> {
    words.iter().cloned().map(String::from).collect()
}

#[test]
fn should_parse_empty_query() {
    let tokens = parse_query("");

    assert_eq!(tokens.is_ok(), true);
    assert_eq!(tokens.unwrap(), vec![]);
}

#[test]
fn should_parse_text_token() {
    let tokens = parse_query("_test_line_");

    assert_eq!(tokens.is_ok(), true);
    assert_eq!(
        tokens.unwrap(),
        vec![Token::Text {
            occurance: None,
            strings: ["test", "line"].iter().cloned().map(String::from).collect(),
        }]
    );
}

#[test]
fn should_parse_two_tokens() {
    let tokens = parse_query("test line");

    assert_eq!(tokens.is_ok(), true);
    assert_eq!(
        tokens.unwrap(),
        vec![
            Token::Text {
                occurance: None,
                strings: ["test"].iter().cloned().map(String::from).collect(),
            },
            Token::Text {
                occurance: None,
                strings: ["line"].iter().cloned().map(String::from).collect(),
            }
        ]
    );
}

#[test]
fn should_parse_must_occuranceance() {
    let tokens = parse_query("+test");

    assert_eq!(tokens.is_ok(), true);
    assert_eq!(
        tokens.unwrap(),
        vec![Token::Text {
            occurance: Some(Occurance::Must),
            strings: ["test"].iter().cloned().map(String::from).collect(),
        }]
    );
}

#[test]
fn should_parse_must_not_occuranceance() {
    let tokens = parse_query("-test");

    assert_eq!(tokens.is_ok(), true);
    assert_eq!(
        tokens.unwrap(),
        vec![Token::Text {
            occurance: Some(Occurance::MustNot),
            strings: ["test"].iter().cloned().map(String::from).collect(),
        }]
    );
}

#[test]
fn should_parse_filter_field_equals() {
    let tokens = parse_query("field:_test_value_");

    assert_eq!(tokens.is_ok(), true);
    assert_eq!(
        tokens.unwrap(),
        vec![Token::FilterEquals {
            occurance: None,
            field: "field".into(),
            value: "_test_value_".into(),
        }]
    );
}

#[test]
fn should_parse_filter_field_greater() {
    let tokens = parse_query("field:10..");

    assert_eq!(tokens.is_ok(), true);
    assert_eq!(
        tokens.unwrap(),
        vec![Token::FilterRange {
            occurance: None,
            field: "field".into(),
            left_bound: Some("10".into()),
            right_bound: None,
        }]
    );
}

#[test]
fn should_parse_filter_field_less() {
    let tokens = parse_query("field:..20");

    assert_eq!(tokens.is_ok(), true);
    assert_eq!(
        tokens.unwrap(),
        vec![Token::FilterRange {
            occurance: None,
            field: "field".into(),
            left_bound: None,
            right_bound: Some("20".into()),
        }]
    );
}

#[test]
fn should_parse_filter_field_between() {
    let tokens = parse_query("field:10..20");

    assert_eq!(tokens.is_ok(), true);
    assert_eq!(
        tokens.unwrap(),
        vec![Token::FilterRange {
            occurance: None,
            field: "field".into(),
            left_bound: Some("10".into()),
            right_bound: Some("20".into()),
        }]
    );
}

#[test]
fn should_fail_when_left_bound_not_number() {
    let tokens = parse_query("field:a..20");

    assert_eq!(tokens.is_err(), true);
}

#[test]
fn should_fail_when_right_bound_not_number() {
    let tokens = parse_query("field:10..a");

    assert_eq!(tokens.is_err(), true);
}

#[test]
fn occurrences_of_three_words() {
    let tokens = parse_query("+a -b c").unwrap();

    assert_eq!(
        tokens,
        vec![
            Token::Text { occurance: Some(Occurance::Must), strings: strings(&["a"]) },
            Token::Text { occurance: Some(Occurance::MustNot), strings: strings(&["b"]) },
            Token::Text { occurance: None, strings: strings(&["c"]) },
        ]
    );
}

#[test]
fn range_over_age() {
    assert_eq!(
        parse_query("age:10..20").unwrap(),
        vec![Token::FilterRange {
            occurance: None,
            field: "age".into(),
            left_bound: Some("10".into()),
            right_bound: Some("20".into()),
        }]
    );
    assert_eq!(
        parse_query("age:..20").unwrap(),
        vec![Token::FilterRange {
            occurance: None,
            field: "age".into(),
            left_bound: None,
            right_bound: Some("20".into()),
        }]
    );
    assert_eq!(
        parse_query("age:10..").unwrap(),
        vec![Token::FilterRange {
            occurance: None,
            field: "age".into(),
            left_bound: Some("10".into()),
            right_bound: None,
        }]
    );
}

#[test]
fn bad_bound_is_named_in_the_error() {
    let error = parse_query("age:a..20").unwrap_err();
    assert_eq!(error.to_string(), "Value `a` is not a number");

    let error = parse_query("x age:1..2b y:z..").unwrap_err();
    assert_eq!(error.to_string(), "Value `2b` is not a number");
}

#[test]
fn left_bound_is_reported_before_right_bound() {
    let error = parse_query("age:a..b").unwrap_err();
    assert_eq!(error.to_string(), "Value `a` is not a number");
}

#[test]
fn white_space_only_is_empty() {
    assert_eq!(parse_query("  \t \n ").unwrap(), vec![]);
}

#[test]
fn words_are_split_at_any_white_space() {
    let tokens = parse_query("  a\tb\u{a0}c\n").unwrap();
    assert_eq!(
        tokens,
        vec![
            Token::Text { occurance: None, strings: strings(&["a"]) },
            Token::Text { occurance: None, strings: strings(&["b"]) },
            Token::Text { occurance: None, strings: strings(&["c"]) },
        ]
    );
}

#[test]
fn lone_marks_and_underscores_give_text_without_words() {
    assert_eq!(
        parse_query("+ - ___").unwrap(),
        vec![
            Token::Text { occurance: Some(Occurance::Must), strings: vec![] },
            Token::Text { occurance: Some(Occurance::MustNot), strings: vec![] },
            Token::Text { occurance: None, strings: vec![] },
        ]
    );
}

#[test]
fn first_colon_ends_the_field() {
    assert_eq!(
        parse_query("-a:b:c").unwrap(),
        vec![Token::FilterEquals {
            occurance: Some(Occurance::MustNot),
            field: "a".into(),
            value: "b:c".into(),
        }]
    );
    assert_eq!(
        parse_query(":").unwrap(),
        vec![Token::FilterEquals { occurance: None, field: "".into(), value: "".into() }]
    );
}

#[test]
fn first_pair_of_dots_splits_the_range() {
    assert_eq!(
        parse_query("n:..").unwrap(),
        vec![Token::FilterRange {
            occurance: None,
            field: "n".into(),
            left_bound: None,
            right_bound: None,
        }]
    );
    let error = parse_query("n:1...5").unwrap_err();
    assert_eq!(error.to_string(), "Value `.5` is not a number");
    assert_eq!(
        parse_query("n:1.5").unwrap(),
        vec![Token::FilterEquals { occurance: None, field: "n".into(), value: "1.5".into() }]
    );
}

#[test]
fn numeric_characters_outside_ascii_pass_the_parser() {
    assert_eq!(
        parse_query("n:\u{0663}..\u{2460}").unwrap(),
        vec![Token::FilterRange {
            occurance: None,
            field: "n".into(),
            left_bound: Some("\u{0663}".into()),
            right_bound: Some("\u{2460}".into()),
        }]
    );
}

#[test]
fn mark_is_only_read_at_the_start() {
    assert_eq!(
        parse_query("a+b ++c").unwrap(),
        vec![
            Token::Text { occurance: None, strings: strings(&["a+b"]) },
            Token::Text { occurance: Some(Occurance::Must), strings: strings(&["+c"]) },
        ]
    );
}
