use farmcore::text::{
    contains_text, ends_with, escape_literal, first_word_of, from_chars, i64_to_text, is_float,
    is_word_of, joined, parse_bool, parse_i64, same_text, split, strip_suffix, to_chars, trim,
    u64_to_text,
};

#[test]
fn chars_round_trip() {
    let chars = to_chars("héllo, wörld");
    assert_eq!(chars.len(), 12);
    assert_eq!(from_chars(&chars), "héllo, wörld");
    assert_eq!(to_chars(""), Vec::<char>::new());
}

#[test]
fn same_text_compares_characters() {
    assert!(same_text("abc", "abc"));
    assert!(!same_text("abc", "abd"));
    assert!(!same_text("abc", "ab"));
    assert_eq!(joined("ab", "cd"), "abcd");
}

#[test]
fn trim_removes_whitespace_at_both_ends_only() {
    assert_eq!(trim("  a b \t\n"), "a b");
    assert_eq!(trim("\u{3000}x\u{a0}"), "x");
    assert_eq!(trim("   "), "");
    assert_eq!(trim(""), "");
    assert_eq!(trim("abc"), "abc");
}

#[test]
fn trim_agrees_with_std() {
    for sample in ["", " ", " a", "a ", "\r\n a\u{2003}b \u{85}", "\u{200b}x", "\u{1680}y\u{202f}"] {
        assert_eq!(trim(sample), sample.trim(), "sample {:?}", sample);
    }
}

#[test]
fn split_keeps_empty_pieces() {
    assert_eq!(split("a,b,,c", ','), vec!["a", "b", "", "c"]);
    assert_eq!(split("", ','), vec![""]);
    assert_eq!(split(",", ','), vec!["", ""]);
    assert_eq!(split("abc", ','), vec!["abc"]);
}

#[test]
fn split_agrees_with_std() {
    for sample in ["", ",", "a", "a,", ",a", "id, name ,status", ",,"] {
        let expected: Vec<String> = sample.split(',').map(|s| s.to_string()).collect();
        assert_eq!(split(sample, ','), expected, "sample {:?}", sample);
    }
}

#[test]
fn suffixes_are_recognised_and_stripped_once() {
    assert!(ends_with("name_like", "_like"));
    assert!(!ends_with("like", "_like"));
    assert!(ends_with("x", ""));
    assert_eq!(strip_suffix("name_like", "_like"), "name");
    assert_eq!(strip_suffix("name_like_like", "_like"), "name_like");
    assert_eq!(strip_suffix("x_gt_gt", "_gt"), "x_gt");
    assert_eq!(strip_suffix("name", "_like"), "name");
    assert_eq!(strip_suffix("_gt", "_gt"), "");
    assert_eq!(strip_suffix("abc", ""), "abc");
}

#[test]
fn strip_suffix_agrees_with_std() {
    for (sample, suffix) in
        [("a_gt_gt", "_gt"), ("_gt", "_gt"), ("abab", "ab"), ("xab", "ab"), ("", "ab"), ("xa", "ab")]
    {
        assert_eq!(strip_suffix(sample, suffix), sample.strip_suffix(suffix).unwrap_or(sample));
    }
}

#[test]
fn single_quotes_and_backslashes_are_doubled() {
    assert_eq!(escape_literal("O'Brien"), "O''Brien");
    assert_eq!(escape_literal("''"), "''''");
    assert_eq!(escape_literal("plain"), "plain");
    assert_eq!(escape_literal(""), "");
    assert_eq!(escape_literal("a\\b"), "a\\\\b");
    assert_eq!(escape_literal("it\\'s"), "it\\\\''s");
    assert_eq!(escape_literal("\\"), "\\\\");
}

#[test]
fn integers_are_written_in_decimal() {
    assert_eq!(u64_to_text(0), "0");
    assert_eq!(u64_to_text(9), "9");
    assert_eq!(u64_to_text(10), "10");
    assert_eq!(u64_to_text(u64::MAX), "18446744073709551615");
    assert_eq!(i64_to_text(0), "0");
    assert_eq!(i64_to_text(-1), "-1");
    assert_eq!(i64_to_text(i64::MIN), "-9223372036854775808");
    assert_eq!(i64_to_text(i64::MAX), "9223372036854775807");
}

#[test]
fn integers_are_read_as_std_reads_them() {
    assert_eq!(parse_i64("8"), Some(8));
    assert_eq!(parse_i64("+8"), Some(8));
    assert_eq!(parse_i64("-8"), Some(-8));
    assert_eq!(parse_i64("007"), Some(7));
    assert_eq!(parse_i64("-0"), Some(0));
    assert_eq!(parse_i64("9223372036854775807"), Some(i64::MAX));
    assert_eq!(parse_i64("-9223372036854775808"), Some(i64::MIN));
    assert_eq!(parse_i64("9223372036854775808"), None);
    assert_eq!(parse_i64("-9223372036854775809"), None);
    assert_eq!(parse_i64("99999999999999999999999999999999999999999"), None);
    assert_eq!(parse_i64(""), None);
    assert_eq!(parse_i64("+"), None);
    assert_eq!(parse_i64("-"), None);
    assert_eq!(parse_i64("1 "), None);
    assert_eq!(parse_i64(" 1"), None);
    assert_eq!(parse_i64("1.0"), None);
    assert_eq!(parse_i64("١٢"), None);
    for sample in ["0", "12", "+12", "-12", "--1", "+-1", "1e3", "0x10", "1_000", "000000000000000000000000012"] {
        assert_eq!(parse_i64(sample), sample.parse::<i64>().ok(), "sample {:?}", sample);
    }
}

#[test]
fn floating_point_texts_are_those_that_std_reads() {
    let samples = [
        "", ".", "+", "-", "e", "e5", "1e", "1e+", "1e-", ".e1", "+.", "1", "1.", ".5", "1.5", "-1.5",
        "+1.5", "1e5", "1E5", "1e+5", "1e-5", "1.e5", ".5e5", "1.5e5x", "inf", "INF", "Inf",
        "infinity", "INFINITY", "infinit", "infinityy", "nan", "NaN", "NAN", "-nan", "+inf",
        "-infinity", "na", "1e5.5", "1..5", "1.5.5", "--1", "0x10", "1_0", " 1", "1 ", "٣",
        "1e99999", "00.00", "-.5e-3", "iNfInItY", "ı", "İnf",
    ];
    for sample in samples {
        assert_eq!(is_float(sample), sample.parse::<f64>().is_ok(), "sample {:?}", sample);
    }
}

#[test]
fn truth_values_are_lower_case_words() {
    assert_eq!(parse_bool("true"), Some(true));
    assert_eq!(parse_bool("false"), Some(false));
    assert_eq!(parse_bool("True"), None);
    assert_eq!(parse_bool("1"), None);
    assert_eq!(parse_bool(""), None);
}

#[test]
fn words_are_read_in_any_case() {
    assert!(is_word_of("and", "and"));
    assert!(is_word_of("AND", "and"));
    assert!(is_word_of("aNd", "and"));
    assert!(!is_word_of("an", "and"));
    assert!(!is_word_of("andy", "and"));
    assert!(!is_word_of("a\u{4e}d", "amd"));
}

#[test]
fn first_word_is_the_first_run_without_whitespace() {
    assert_eq!(first_word_of("Samsung SSD 970"), Some("Samsung".to_string()));
    assert_eq!(first_word_of("  WDC\tWD40"), Some("WDC".to_string()));
    assert_eq!(first_word_of("single"), Some("single".to_string()));
    assert_eq!(first_word_of("   "), None);
    assert_eq!(first_word_of(""), None);
    for sample in ["", " ", "a b", " a", "a ", "\u{a0}x y"] {
        assert_eq!(
            first_word_of(sample),
            sample.split_whitespace().next().map(|s| s.to_string()),
            "sample {:?}",
            sample
        );
    }
}

#[test]
fn lists_of_texts_are_searched() {
    let list = vec!["page".to_string(), "search".to_string()];
    assert!(contains_text(&list, "search"));
    assert!(!contains_text(&list, "status"));
    assert!(!contains_text(&Vec::new(), "status"));
}
