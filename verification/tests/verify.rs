use psql_copy_harness::diff::{render_diff, ChangeTag, LineChange, Paint, ReportLine};
use psql_copy_harness::text::strip_leading_newline;
use psql_copy_harness::verify::{verify, verify_empty};

fn line(paint: Paint, text: &str) -> ReportLine {
    ReportLine { paint, text: text.to_string() }
}

#[test]
fn equal_output_verifies() {
    assert_eq!(verify(b"COPY 2\n", "COPY 2\n"), Ok(()));
    assert_eq!(verify(b"", ""), Ok(()));
}

#[test]
fn verification_is_reflexive() {
    for text in ["", "a", "COPY 2\n", " c1 | c2 \n----+----\n", "caf\u{e9} \u{2744}\n", "x\n\ny"] {
        assert_eq!(verify(text.as_bytes(), text), Ok(()));
    }
}

#[test]
fn a_text_with_leading_newline_does_not_verify_against_itself() {
    let m = verify(b"\nabc", "\nabc").unwrap_err();
    assert_eq!(m.actual, "\nabc");
    assert_eq!(m.expected, "abc");
}

#[test]
fn one_leading_newline_of_the_literal_is_layout() {
    assert_eq!(verify(b"CREATE TABLE\n", "\nCREATE TABLE\n"), Ok(()));
    assert_eq!(strip_leading_newline("\nCREATE TABLE\n"), "CREATE TABLE\n");
    assert_eq!(strip_leading_newline("CREATE TABLE\n"), "CREATE TABLE\n");
    assert_eq!(strip_leading_newline(""), "");
    assert_eq!(strip_leading_newline("\n"), "");
    assert_eq!(strip_leading_newline("\u{e9}\n"), "\u{e9}\n");
}

#[test]
fn a_second_leading_newline_is_data() {
    assert_eq!(strip_leading_newline("\n\nx"), "\nx");
    assert_eq!(verify(b"\nx", "\n\nx"), Ok(()));
    assert!(verify(b"x", "\n\nx").is_err());
}

#[test]
fn nothing_else_is_trimmed() {
    assert!(verify(b"COPY 2", "COPY 2\n").is_err());
    assert!(verify(b"COPY 2\n", "COPY 2").is_err());
    assert!(verify(b" COPY 2\n", "COPY 2\n").is_err());
    assert!(verify(b"COPY 2\r\n", "COPY 2\n").is_err());
    assert!(verify(b"COPY 2\n", "\r\nCOPY 2\n").is_err());
}

#[test]
fn invalid_bytes_are_replaced_not_refused() {
    assert_eq!(verify(b"a\xffb", "a\u{fffd}b"), Ok(()));
    let m = verify(b"a\xffb", "ab").unwrap_err();
    assert_eq!(m.actual, "a\u{fffd}b");
}

#[test]
fn a_mismatch_carries_the_line_difference() {
    let m = verify(b"a\nb\nc\n", "\na\nB\nc\n").unwrap_err();
    assert_eq!(m.actual, "a\nb\nc\n");
    assert_eq!(m.expected, "a\nB\nc\n");
    assert_eq!(
        m.report,
        vec![
            line(Paint::Plain, " a\n"),
            line(Paint::Red, "-b\n"),
            line(Paint::Green, "+B\n"),
            line(Paint::Plain, " c\n"),
        ]
    );
}

#[test]
fn a_line_without_newline_is_shown_with_one() {
    let m = verify(b"COPY 1", "COPY 2").unwrap_err();
    assert_eq!(m.report, vec![line(Paint::Red, "-COPY 1\n"), line(Paint::Green, "+COPY 2\n")]);
}

#[test]
fn missing_output_is_all_insertions() {
    let m = verify(b"", "\nCOPY 2\n").unwrap_err();
    assert_eq!(m.report, vec![line(Paint::Green, "+COPY 2\n")]);
}

#[test]
fn verify_empty_accepts_only_nothing() {
    assert_eq!(verify_empty(b""), Ok(()));
    let m = verify_empty(b"ERROR:  relation does not exist\n").unwrap_err();
    assert_eq!(m.actual, "ERROR:  relation does not exist\n");
    assert_eq!(m.expected, "");
    assert_eq!(m.report, vec![line(Paint::Red, "-ERROR:  relation does not exist\n")]);
    assert!(verify_empty(b"\n").is_err());
    assert!(verify_empty(b" ").is_err());
    assert!(verify_empty(b"\xff").is_err());
}

#[test]
fn rendering_puts_sign_and_colour_on_each_change() {
    let changes = vec![
        LineChange { tag: ChangeTag::Equal, text: "same\n".to_string() },
        LineChange { tag: ChangeTag::Delete, text: "old\n".to_string() },
        LineChange { tag: ChangeTag::Insert, text: "new\n".to_string() },
    ];
    assert_eq!(
        render_diff(&changes),
        vec![
            line(Paint::Plain, " same\n"),
            line(Paint::Red, "-old\n"),
            line(Paint::Green, "+new\n"),
        ]
    );
    assert_eq!(render_diff(&Vec::new()), Vec::new());
}
