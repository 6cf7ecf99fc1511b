use directories::lin::trim_and_lowercase_then_replace_spaces;
use directories::text::{
    is_whitespace, join_words, lowercase_words, replace_whitespace, split_words,
    strip_qualification,
};

#[test]
fn lin_test_trim_and_lowercase_then_replace_spaces() {
    let input1 = "Bar App";
    let actual1 = trim_and_lowercase_then_replace_spaces(input1, "-");
    let expected1 = "bar-app";
    assert_eq!(expected1, actual1);

    let input2 = "BarApp-Foo";
    let actual2 = trim_and_lowercase_then_replace_spaces(input2, "-");
    let expected2 = "barapp-foo";
    assert_eq!(expected2, actual2);

    let input3 = " Bar App ";
    let actual3 = trim_and_lowercase_then_replace_spaces(input3, "-");
    let expected3 = "bar-app";
    assert_eq!(expected3, actual3);

    let input4 = "  Bar  App  ";
    let actual4 = trim_and_lowercase_then_replace_spaces(input4, "-");
    let expected4 = "bar-app";
    assert_eq!(expected4, actual4);
}

#[test]
fn sys_test_trim_and_lowercase_then_replace_spaces() {
    let input1 = "Bar App";
    let actual1 = trim_and_lowercase_then_replace_spaces(input1, "-");
    let expected1 = "bar-app";
    assert_eq!(expected1, actual1);

    let input2 = "BarApp-Foo";
    let actual2 = trim_and_lowercase_then_replace_spaces(input2, "-");
    let expected2 = "barapp-foo";
    assert_eq!(expected2, actual2);

    let input3 = " Bar App ";
    let actual3 = trim_and_lowercase_then_replace_spaces(input3, "-");
    let expected3 = "bar-app";
    assert_eq!(expected3, actual3);

    let input4 = "  Bar  App  ";
    let actual4 = trim_and_lowercase_then_replace_spaces(input4, "-");
    let expected4 = "bar-app";
    assert_eq!(expected4, actual4);
}

#[test]
fn white_space_is_what_the_standard_library_calls_white_space() {
    let mut code: u32 = 0;
    while code <= 0x10ffff {
        if let Some(c) = char::from_u32(code) {
            assert_eq!(is_whitespace(c), c.is_whitespace(), "U+{:04X}", code);
        }
        code += 1;
    }
}

#[test]
fn words_are_the_runs_between_white_space() {
    assert_eq!(split_words("Bar App"), vec!["Bar", "App"]);
    assert_eq!(split_words("  Bar \t\n App  "), vec!["Bar", "App"]);
    assert_eq!(split_words("BarApp"), vec!["BarApp"]);
    assert_eq!(split_words(""), Vec::<String>::new());
    assert_eq!(split_words(" \u{a0}\u{3000} "), Vec::<String>::new());
    assert_eq!(split_words("a\u{2003}b"), vec!["a", "b"]);
}

#[test]
fn words_agree_with_the_standard_library() {
    let samples = [
        "",
        " ",
        "a",
        " a",
        "a ",
        "a b",
        "  a   bc  d ",
        "\tTab\u{a0}and\u{2028}more\r\n",
        "Grüße  aus  Köln",
        "日本 語",
    ];
    for sample in samples {
        let expected: Vec<String> = sample.split_whitespace().map(String::from).collect();
        assert_eq!(split_words(sample), expected, "{:?}", sample);
    }
}

#[test]
fn lowercase_words_lowers_each_word() {
    let words = vec![String::from("Bar"), String::from("APP"), String::from("ÄÖ")];
    assert_eq!(lowercase_words(&words), vec!["bar", "app", "äö"]);
    assert_eq!(lowercase_words(&Vec::new()), Vec::<String>::new());
}

#[test]
fn lowercase_follows_the_standard_library() {
    // A capital sigma at the end of a word becomes a final sigma.
    assert_eq!(
        trim_and_lowercase_then_replace_spaces("ΟΔΟΣ ΟΔΟΣ", "-"),
        "οδος-οδος"
    );
}

#[test]
fn join_words_puts_the_separator_between() {
    let words = vec![String::from("bar"), String::from("app"), String::from("x")];
    assert_eq!(join_words(&words, "-"), "bar-app-x");
    assert_eq!(join_words(&words, ""), "barappx");
    assert_eq!(join_words(&words, ", "), "bar, app, x");
    assert_eq!(join_words(&vec![String::from("one")], "-"), "one");
    assert_eq!(join_words(&Vec::new(), "-"), "");
}

#[test]
fn trim_without_replacement_runs_the_words_together() {
    assert_eq!(trim_and_lowercase_then_replace_spaces("  Bar  App  ", ""), "barapp");
    assert_eq!(trim_and_lowercase_then_replace_spaces("", "-"), "");
    assert_eq!(trim_and_lowercase_then_replace_spaces("   ", "-"), "");
    assert_eq!(trim_and_lowercase_then_replace_spaces("A\tB\nC", "_"), "a_b_c");
}

#[test]
fn replace_whitespace_writes_one_hyphen_for_each() {
    assert_eq!(replace_whitespace("Foo Corp"), "Foo-Corp");
    assert_eq!(replace_whitespace("Foo  Corp"), "Foo--Corp");
    assert_eq!(replace_whitespace(" a\tb "), "-a-b-");
    assert_eq!(replace_whitespace("FooCorp"), "FooCorp");
    assert_eq!(replace_whitespace(""), "");
    assert_eq!(replace_whitespace("Zoë Ünï"), "Zoë-Ünï");
}

#[test]
fn strip_qualification_keeps_what_follows_the_last_dot() {
    assert_eq!(strip_qualification("org.foo.BarApp"), "BarApp");
    assert_eq!(strip_qualification("BarApp"), "BarApp");
    assert_eq!(strip_qualification("org.foo."), "");
    assert_eq!(strip_qualification(".hidden"), "hidden");
    assert_eq!(strip_qualification(""), "");
    assert_eq!(strip_qualification("com.exämple.Ünï"), "Ünï");
}
