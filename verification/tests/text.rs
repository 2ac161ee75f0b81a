use query_index::text::characters;
use query_index::text::classify;
use query_index::text::find_separator;
use query_index::text::i64_to_string;
use query_index::text::parse_digits;
use query_index::text::parse_i64;
use query_index::text::parse_u64;
use query_index::text::part;
use query_index::text::split;
use query_index::text::text_of;
use query_index::text::trim;
use query_index::text::trim_text;
use query_index::text::u64_to_string;
use query_index::text::Separator;
use query_index::text::Symbol;

fn spelled(pieces: &[Vec<Symbol>]) -> Vec<String> {
    pieces.iter().map(text_of).collect()
}

#[test]
fn classification_keeps_the_characters() {
    let symbols = classify("a 1\u{a0}\u{2460}");
    assert_eq!(
        symbols,
        vec![
            Symbol { ch: 'a', space: false, numeric: false },
            Symbol { ch: ' ', space: true, numeric: false },
            Symbol { ch: '1', space: false, numeric: true },
            Symbol { ch: '\u{a0}', space: true, numeric: false },
            Symbol { ch: '\u{2460}', space: false, numeric: true },
        ]
    );
    assert_eq!(text_of(&symbols), "a 1\u{a0}\u{2460}");
    assert_eq!(classify(""), vec![]);
    assert_eq!(characters("h\u{e9}llo"), vec!['h', '\u{e9}', 'l', 'l', 'o']);
}

#[test]
fn text_is_split_at_separators_and_empty_pieces_dropped() {
    assert_eq!(spelled(&split(&classify("  a b\t\tc "), Separator::Space)), vec!["a", "b", "c"]);
    assert_eq!(spelled(&split(&classify("_a__b_"), Separator::Underscore)), vec!["a", "b"]);
    assert_eq!(spelled(&split(&classify("a:b"), Separator::Colon)), vec!["a", "b"]);
    assert_eq!(spelled(&split(&classify("a b"), Separator::Underscore)), vec!["a b"]);
    assert_eq!(spelled(&split(&classify("___"), Separator::Underscore)), Vec::<String>::new());
    assert_eq!(spelled(&split(&classify(""), Separator::Space)), Vec::<String>::new());
}

#[test]
fn first_separator_is_found() {
    let symbols = classify("ab:cd:e");
    assert_eq!(find_separator(&symbols, Separator::Colon, 0), 2);
    assert_eq!(find_separator(&symbols, Separator::Colon, 2), 2);
    assert_eq!(find_separator(&symbols, Separator::Colon, 3), 5);
    assert_eq!(find_separator(&symbols, Separator::Colon, 6), 7);
    assert_eq!(find_separator(&symbols, Separator::Colon, 7), 7);
    assert_eq!(find_separator(&symbols, Separator::Space, 0), 7);
    assert_eq!(text_of(&part(&symbols, 3, 5)), "cd");
    assert_eq!(text_of(&part(&symbols, 7, 7)), "");
}

#[test]
fn white_space_is_trimmed_at_both_ends_only() {
    assert_eq!(trim_text("  Hello  "), "Hello");
    assert_eq!(trim_text("Hello"), "Hello");
    assert_eq!(trim_text(" a b "), "a b");
    assert_eq!(trim_text("\u{2003}x\u{2028}"), "x");
    assert_eq!(trim_text("   "), "");
    assert_eq!(trim_text(""), "");
    assert_eq!(text_of(&trim(&classify("\n\tz"))), "z");
    for text in ["", " ", " a", "a ", " \u{a0}a\u{3000}b \n", "\u{feff}a", "_ a _"] {
        assert_eq!(trim_text(text), text.trim());
    }
}

#[test]
fn numerals_are_read_as_the_standard_library_reads_them() {
    let texts = [
        "",
        "0",
        "7",
        "+7",
        "-7",
        "+",
        "-",
        "++1",
        "+-1",
        "-+1",
        "--1",
        "007",
        "+000",
        "-0",
        "1 ",
        " 1",
        "1_0",
        "1.0",
        "1e3",
        "0x10",
        "a",
        "12a",
        "\u{0661}",
        "\u{ff11}",
        "18446744073709551615",
        "18446744073709551616",
        "000018446744073709551615",
        "99999999999999999999",
        "184467440737095516150",
        "9223372036854775807",
        "9223372036854775808",
        "+9223372036854775807",
        "-9223372036854775808",
        "-9223372036854775809",
        "-18446744073709551615",
        "-18446744073709551616",
        "-000000000000000000001",
    ];
    for text in texts {
        assert_eq!(parse_u64(text), text.parse::<u64>().ok(), "u64 of {:?}", text);
        assert_eq!(parse_i64(text), text.parse::<i64>().ok(), "i64 of {:?}", text);
    }
    assert_eq!(parse_u64("18446744073709551615"), Some(u64::MAX));
    assert_eq!(parse_i64("-9223372036854775808"), Some(i64::MIN));
    assert_eq!(parse_i64("9223372036854775807"), Some(i64::MAX));
}

#[test]
fn digits_are_read_from_a_position() {
    let chars: Vec<char> = "ab123".chars().collect();
    assert_eq!(parse_digits(&chars, 2), Some(123));
    assert_eq!(parse_digits(&chars, 4), Some(3));
    assert_eq!(parse_digits(&chars, 5), None);
    assert_eq!(parse_digits(&chars, 1), None);
}

#[test]
fn numbers_are_written_as_the_standard_library_writes_them() {
    for value in [0, 1, 9, 10, 11, 99, 100, 101, 1234567890, u64::MAX - 1, u64::MAX] {
        assert_eq!(u64_to_string(value), value.to_string());
    }
    for value in [0, 1, -1, 9, -9, 10, -10, 12345, -12345, i64::MAX, i64::MIN, i64::MIN + 1] {
        assert_eq!(i64_to_string(value), value.to_string());
    }
    assert_eq!(u64_to_string(18446744073709551615), "18446744073709551615");
    assert_eq!(i64_to_string(-9223372036854775808), "-9223372036854775808");
}
