use pr_dashboard::text::{push_decimal, push_text, split_on, to_single_line};

fn decimal_of(n: i32) -> String {
    let mut out = String::new();
    push_decimal(&mut out, n);
    out
}

#[test]
fn failure_message_is_flattened() {
    assert_eq!(to_single_line("line1\nline2"), "line1 line2");
}

#[test]
fn flattening_keeps_everything_but_line_breaks() {
    assert_eq!(to_single_line(""), "");
    assert_eq!(to_single_line("plain"), "plain");
    assert_eq!(to_single_line("\n"), " ");
    assert_eq!(to_single_line("a\n\nb"), "a  b");
    assert_eq!(to_single_line("\nlead"), " lead");
    assert_eq!(to_single_line("trail\n"), "trail ");
    assert_eq!(to_single_line("tab\tand\r\nbreak"), "tab\tand\r break");
    assert_eq!(to_single_line("gr\u{fc}\u{df}e\nwelt \u{1f600}"), "gr\u{fc}\u{df}e welt \u{1f600}");
}

#[test]
fn flattening_keeps_the_length() {
    let msg = "one\ntwo\nthree\n";
    let out = to_single_line(msg);
    assert_eq!(out.chars().count(), msg.chars().count());
    assert!(!out.contains('\n'));
}

#[test]
fn splitting_yields_one_piece_more_than_separators() {
    assert_eq!(split_on("", '\n'), vec![String::new()]);
    assert_eq!(split_on("abc", '\n'), vec!["abc".to_string()]);
    assert_eq!(split_on("a\nb", '\n'), vec!["a".to_string(), "b".to_string()]);
    assert_eq!(
        split_on("\na\n\nb\n", '\n'),
        vec![String::new(), "a".to_string(), String::new(), "b".to_string(), String::new()]
    );
    assert_eq!(split_on("a,b", ','), vec!["a".to_string(), "b".to_string()]);
}

#[test]
fn splitting_agrees_with_std() {
    for msg in ["", "x", "\n", "a\nb\nc", "\n\n", "end\n", "\nstart"] {
        let expected: Vec<String> = msg.split('\n').map(|p| p.to_string()).collect();
        assert_eq!(split_on(msg, '\n'), expected);
    }
}

#[test]
fn decimal_numerals() {
    assert_eq!(decimal_of(0), "0");
    assert_eq!(decimal_of(7), "7");
    assert_eq!(decimal_of(10), "10");
    assert_eq!(decimal_of(42), "42");
    assert_eq!(decimal_of(1000), "1000");
    assert_eq!(decimal_of(-1), "-1");
    assert_eq!(decimal_of(-305), "-305");
    assert_eq!(decimal_of(i32::MAX), "2147483647");
    assert_eq!(decimal_of(i32::MIN), "-2147483648");
}

#[test]
fn decimal_numerals_agree_with_std() {
    for n in [0, 1, 9, 10, 11, 99, 100, 101, 12345, -9, -10, -99999, i32::MAX, i32::MIN] {
        assert_eq!(decimal_of(n), n.to_string());
    }
}

#[test]
fn decimal_is_appended() {
    let mut out = "#".to_string();
    push_decimal(&mut out, 42);
    assert_eq!(out, "#42");
}

#[test]
fn text_is_appended() {
    let mut out = "a".to_string();
    push_text(&mut out, "bc");
    push_text(&mut out, "");
    assert_eq!(out, "abc");
}
