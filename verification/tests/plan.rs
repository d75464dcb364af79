use psql_copy_harness::plan::{plan, Setting, Stage};
use psql_copy_harness::scenario::{
    CommandStep, Encoding, Method, Scenario, Source, EXPECT_COPY_TWO, EXPECT_CREATE_TABLE,
    EXPECT_DROP_TABLE, EXPECT_RESULT_SET,
};
use psql_copy_harness::script::interactive_script;

fn setting() -> Setting {
    Setting {
        table: "t".to_string(),
        snapshot_base: "/s/snap".to_string(),
        script_path: "/s/t".to_string(),
        database: "db".to_string(),
    }
}

fn invoke(flag: &str, text: &str, expected: &'static str) -> Stage {
    Stage::Invoke(CommandStep { args: vec![flag.to_string(), text.to_string()], expected })
}

#[test]
fn a_command_scenario_imports_the_snapshot_file() {
    let scenario = Scenario { method: Method::Command, source: Source::File, encoding: Encoding::Csv };
    assert_eq!(
        plan(scenario, &setting()),
        Some(vec![
            invoke("-c", r#"CREATE TABLE "t" (c1 int8, c2 int8);"#, EXPECT_CREATE_TABLE),
            invoke("-c", r#"\copy "t" from '/s/snap.csv' (format csv)"#, EXPECT_COPY_TWO),
            invoke("-c", r#"SELECT * FROM "t";"#, EXPECT_RESULT_SET),
            invoke("-c", r#"DROP TABLE "t";"#, EXPECT_DROP_TABLE),
        ])
    );
}

#[test]
fn a_script_scenario_composes_the_script_before_running_it() {
    let scenario = Scenario { method: Method::Script, source: Source::Stdin, encoding: Encoding::Binary };
    assert_eq!(
        plan(scenario, &setting()),
        Some(vec![
            invoke("-c", r#"CREATE TABLE "t" (c1 int8, c2 int8);"#, EXPECT_CREATE_TABLE),
            Stage::ComposeScript {
                table: "t".to_string(),
                encoding: Encoding::Binary,
                snapshot: "/s/snap.binary".to_string(),
                script: "/s/t".to_string(),
            },
            invoke("-f", "/s/t", EXPECT_COPY_TWO),
            invoke("-c", r#"SELECT * FROM "t";"#, EXPECT_RESULT_SET),
            invoke("-c", r#"DROP TABLE "t";"#, EXPECT_DROP_TABLE),
        ])
    );
}

#[test]
fn a_terminal_scenario_holds_the_scripted_conversation() {
    for source in [Source::Stdin, Source::Tty] {
        for encoding in [Encoding::Text, Encoding::Csv] {
            let scenario = Scenario { method: Method::Terminal, source, encoding };
            assert_eq!(
                plan(scenario, &setting()),
                Some(vec![
                    invoke("-c", r#"CREATE TABLE "t" (c1 int8, c2 int8);"#, EXPECT_CREATE_TABLE),
                    Stage::Converse(interactive_script(source, encoding, "t", "db").unwrap()),
                    invoke("-c", r#"SELECT * FROM "t";"#, EXPECT_RESULT_SET),
                    invoke("-c", r#"DROP TABLE "t";"#, EXPECT_DROP_TABLE),
                ])
            );
        }
    }
}

#[test]
fn every_defined_scenario_reads_back_the_two_rows_and_cleans_up() {
    let mut planned = 0;
    for method in [Method::Command, Method::Script, Method::Terminal] {
        for source in [Source::File, Source::Stdin, Source::Tty] {
            for encoding in [Encoding::Text, Encoding::Csv, Encoding::Binary] {
                let scenario = Scenario { method, source, encoding };
                match plan(scenario, &setting()) {
                    None => assert!(!scenario.is_defined()),
                    Some(stages) => {
                        assert!(scenario.is_defined());
                        planned += 1;
                        let n = stages.len();
                        assert_eq!(stages[0], invoke("-c", r#"CREATE TABLE "t" (c1 int8, c2 int8);"#, "\nCREATE TABLE\n"));
                        assert_eq!(
                            stages[n - 2],
                            invoke("-c", r#"SELECT * FROM "t";"#, "\n c1 | c2 \n----+----\n  1 |  2\n  3 |  4\n(2 rows)\n\n")
                        );
                        assert_eq!(stages[n - 1], invoke("-c", r#"DROP TABLE "t";"#, "\nDROP TABLE\n"));
                    }
                }
            }
        }
    }
    assert_eq!(planned, 10);
}

#[test]
fn undefined_combinations_have_no_plan() {
    let wrong = [
        Scenario { method: Method::Command, source: Source::Stdin, encoding: Encoding::Text },
        Scenario { method: Method::Command, source: Source::Tty, encoding: Encoding::Csv },
        Scenario { method: Method::Script, source: Source::File, encoding: Encoding::Text },
        Scenario { method: Method::Terminal, source: Source::File, encoding: Encoding::Text },
        Scenario { method: Method::Terminal, source: Source::Tty, encoding: Encoding::Binary },
        Scenario { method: Method::Terminal, source: Source::Stdin, encoding: Encoding::Binary },
    ];
    for scenario in wrong {
        assert_eq!(plan(scenario, &setting()), None);
    }
}
