use psql_copy_harness::scenario::{
    command_transfer_step, create_table_sql, drop_table_sql, encoding_word, export_command,
    fixture_plan, fresh_table_name, import_command, insert_rows_sql, prompt, readback_step,
    script_body, script_transfer_step, select_all_sql, setup_step, snapshot_path, teardown_step,
    Encoding, Method, Scenario, Source, CLIENT_PROGRAM, EXPECT_COPY_TWO, EXPECT_CREATE_TABLE,
    EXPECT_DROP_TABLE, EXPECT_INSERT_TWO, EXPECT_RESULT_SET,
};

const METHODS: [Method; 3] = [Method::Command, Method::Script, Method::Terminal];
const SOURCES: [Source; 3] = [Source::File, Source::Stdin, Source::Tty];
const ENCODINGS: [Encoding; 3] = [Encoding::Text, Encoding::Csv, Encoding::Binary];

fn strings(items: &[&str]) -> Vec<String> {
    items.iter().map(|s| s.to_string()).collect()
}

#[test]
fn ten_combinations_are_defined() {
    let mut defined = Vec::new();
    for method in METHODS {
        for source in SOURCES {
            for encoding in ENCODINGS {
                if (Scenario { method, source, encoding }).is_defined() {
                    defined.push((method, source, encoding));
                }
            }
        }
    }
    assert_eq!(
        defined,
        vec![
            (Method::Command, Source::File, Encoding::Text),
            (Method::Command, Source::File, Encoding::Csv),
            (Method::Command, Source::File, Encoding::Binary),
            (Method::Script, Source::Stdin, Encoding::Text),
            (Method::Script, Source::Stdin, Encoding::Csv),
            (Method::Script, Source::Stdin, Encoding::Binary),
            (Method::Terminal, Source::Stdin, Encoding::Text),
            (Method::Terminal, Source::Stdin, Encoding::Csv),
            (Method::Terminal, Source::Tty, Encoding::Text),
            (Method::Terminal, Source::Tty, Encoding::Csv),
        ]
    );
}

#[test]
fn binary_over_a_live_terminal_is_left_out() {
    for source in SOURCES {
        let cell = Scenario { method: Method::Terminal, source, encoding: Encoding::Binary };
        assert!(!cell.is_defined());
    }
}

#[test]
fn the_client_is_psql() {
    assert_eq!(CLIENT_PROGRAM, "psql");
}

#[test]
fn expected_literals_are_exact() {
    assert_eq!(EXPECT_CREATE_TABLE, "\nCREATE TABLE\n");
    assert_eq!(EXPECT_INSERT_TWO, "\nINSERT 0 2\n");
    assert_eq!(EXPECT_COPY_TWO, "\nCOPY 2\n");
    assert_eq!(EXPECT_DROP_TABLE, "\nDROP TABLE\n");
    assert_eq!(
        EXPECT_RESULT_SET,
        r#"
 c1 | c2 
----+----
  1 |  2
  3 |  4
(2 rows)

"#
    );
}

#[test]
fn statements_quote_the_table_name() {
    assert_eq!(create_table_sql("t1"), r#"CREATE TABLE "t1" (c1 int8, c2 int8);"#);
    assert_eq!(insert_rows_sql("t1"), r#"INSERT INTO "t1" (c1, c2) VALUES (1, 2), (3, 4);"#);
    assert_eq!(select_all_sql("t1"), r#"SELECT * FROM "t1";"#);
    assert_eq!(drop_table_sql("t1"), r#"DROP TABLE "t1";"#);
    assert_eq!(create_table_sql(""), r#"CREATE TABLE "" (c1 int8, c2 int8);"#);
}

#[test]
fn exports_name_the_format() {
    assert_eq!(export_command("t", "/s/x.text", Encoding::Text), r#"\copy "t" to '/s/x.text' (format text);"#);
    assert_eq!(export_command("t", "/s/x.binary", Encoding::Binary), r#"\copy "t" to '/s/x.binary' (format binary);"#);
    assert_eq!(export_command("t", "/s/x.csv", Encoding::Csv), r#"\copy "t" to '/s/x.csv' (format csv);"#);
}

#[test]
fn imports_from_a_file() {
    assert_eq!(import_command("t", Source::File, "/s/x.text", Encoding::Text), r#"\copy "t" from '/s/x.text'"#);
    assert_eq!(import_command("t", Source::File, "/s/x.csv", Encoding::Csv), r#"\copy "t" from '/s/x.csv' (format csv)"#);
    assert_eq!(
        import_command("t", Source::File, "/s/x.binary", Encoding::Binary),
        r#"\copy "t" from '/s/x.binary' with (format binary)"#
    );
}

#[test]
fn imports_from_standard_input_and_terminal_ignore_the_path() {
    assert_eq!(import_command("t", Source::Stdin, "/ignored", Encoding::Text), r#"\copy "t" from stdin"#);
    assert_eq!(import_command("t", Source::Stdin, "", Encoding::Csv), r#"\copy "t" from stdin (format csv)"#);
    assert_eq!(import_command("t", Source::Stdin, "", Encoding::Binary), r#"\copy "t" from stdin with (format binary)"#);
    assert_eq!(import_command("t", Source::Tty, "", Encoding::Text), r#"\copy "t" from '/dev/tty'"#);
    assert_eq!(import_command("t", Source::Tty, "/ignored", Encoding::Csv), r#"\copy "t" from '/dev/tty' (format csv)"#);
}

#[test]
fn snapshots_are_named_by_encoding() {
    assert_eq!(encoding_word(Encoding::Text), "text");
    assert_eq!(encoding_word(Encoding::Csv), "csv");
    assert_eq!(encoding_word(Encoding::Binary), "binary");
    assert_eq!(snapshot_path("/tmp/s/abc", Encoding::Text), "/tmp/s/abc.text");
    assert_eq!(snapshot_path("/tmp/s/abc", Encoding::Csv), "/tmp/s/abc.csv");
    assert_eq!(snapshot_path("/tmp/s/abc", Encoding::Binary), "/tmp/s/abc.binary");
}

#[test]
fn the_prompt_names_the_database() {
    assert_eq!(prompt("postgres"), "postgres=#");
    assert_eq!(prompt(""), "=#");
}

#[test]
fn fresh_table_names_are_hyphenated_uuids() {
    let name = fresh_table_name();
    assert_eq!(name.len(), 36);
    for (i, c) in name.chars().enumerate() {
        if i == 8 || i == 13 || i == 18 || i == 23 {
            assert_eq!(c, '-');
        } else {
            assert!(matches!(c, '0'..='9' | 'a'..='f'));
        }
    }
    assert!(!name.contains('"'));
    assert_eq!(name.chars().nth(14), Some('4'));
}

#[test]
fn fresh_table_names_differ() {
    let names: Vec<String> = (0..16).map(|_| fresh_table_name()).collect();
    for i in 0..names.len() {
        for j in 0..i {
            assert_ne!(names[i], names[j]);
        }
    }
}

#[test]
fn steps_pair_a_command_with_its_literal() {
    let setup = setup_step("t");
    assert_eq!(setup.args, strings(&["-c", r#"CREATE TABLE "t" (c1 int8, c2 int8);"#]));
    assert_eq!(setup.expected, EXPECT_CREATE_TABLE);
    let transfer = command_transfer_step("t", "/s/x.csv", Encoding::Csv);
    assert_eq!(transfer.args, strings(&["-c", r#"\copy "t" from '/s/x.csv' (format csv)"#]));
    assert_eq!(transfer.expected, EXPECT_COPY_TWO);
    let script = script_transfer_step("/s/t");
    assert_eq!(script.args, strings(&["-f", "/s/t"]));
    assert_eq!(script.expected, EXPECT_COPY_TWO);
    let readback = readback_step("t");
    assert_eq!(readback.args, strings(&["-c", r#"SELECT * FROM "t";"#]));
    assert_eq!(readback.expected, EXPECT_RESULT_SET);
    let teardown = teardown_step("t");
    assert_eq!(teardown.args, strings(&["-c", r#"DROP TABLE "t";"#]));
    assert_eq!(teardown.expected, EXPECT_DROP_TABLE);
}

#[test]
fn the_fixture_exports_each_encoding_once() {
    let plan = fixture_plan("src", "/tmp/s/src");
    let shown: Vec<(Vec<String>, &str)> = plan.into_iter().map(|s| (s.args, s.expected)).collect();
    assert_eq!(
        shown,
        vec![
            (strings(&["-c", r#"CREATE TABLE "src" (c1 int8, c2 int8);"#]), "\nCREATE TABLE\n"),
            (strings(&["-c", r#"INSERT INTO "src" (c1, c2) VALUES (1, 2), (3, 4);"#]), "\nINSERT 0 2\n"),
            (strings(&["-c", r#"\copy "src" to '/tmp/s/src.text' (format text);"#]), "\nCOPY 2\n"),
            (strings(&["-c", r#"\copy "src" to '/tmp/s/src.binary' (format binary);"#]), "\nCOPY 2\n"),
            (strings(&["-c", r#"\copy "src" to '/tmp/s/src.csv' (format csv);"#]), "\nCOPY 2\n"),
            (strings(&["-c", r#"DROP TABLE "src";"#]), "\nDROP TABLE\n"),
        ]
    );
}

#[test]
fn a_script_file_is_the_command_line_then_the_raw_rows() {
    assert_eq!(script_body("t", Encoding::Text, b"1\t2\n3\t4\n"), b"\\copy \"t\" from stdin\n1\t2\n3\t4\n".to_vec());
    assert_eq!(script_body("t", Encoding::Csv, b"1,2\n3,4\n"), b"\\copy \"t\" from stdin (format csv)\n1,2\n3,4\n".to_vec());
    let binary = b"PGCOPY\n\xff\r\n\0\0\0\0\0";
    let mut expected = b"\\copy \"t\" from stdin with (format binary)\n".to_vec();
    expected.extend_from_slice(binary);
    assert_eq!(script_body("t", Encoding::Binary, binary), expected);
    assert_eq!(script_body("t", Encoding::Text, b""), b"\\copy \"t\" from stdin\n".to_vec());
}
