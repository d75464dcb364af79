use psql_copy_harness::conversation::{Action, Conversation, Failure, ReplayEnd};
use psql_copy_harness::scenario::{Encoding, Source};
use psql_copy_harness::script::{interactive_script, ScriptStep};
use psql_copy_harness::session::{Channel, Observation, Phase, Session, SessionError};

fn seen(data: &[u8], elapsed_ms: u64) -> Observation {
    Observation { data: data.to_vec(), closed: false, elapsed_ms }
}

fn closed(data: &[u8], elapsed_ms: u64) -> Observation {
    Observation { data: data.to_vec(), closed: true, elapsed_ms }
}

fn started() -> Session {
    let mut session = Session::open("psql", Channel::Pty, true);
    session.start().unwrap();
    session
}

fn expect(pattern: &str) -> ScriptStep {
    ScriptStep::Expect(pattern.to_string())
}

fn send(text: &str) -> ScriptStep {
    ScriptStep::SendLine(text.to_string())
}

#[test]
fn an_empty_script_is_finished_at_once() {
    let mut talk = Conversation::new(started(), Vec::new());
    assert!(talk.is_finished());
    assert_eq!(talk.next_action(), Action::Finished);
    let replay = talk.replay(&[seen(b"ignored", 0)]);
    assert_eq!(replay.end, ReplayEnd::Finished);
    assert_eq!(replay.used, 0);
    assert_eq!(replay.writes, Vec::<Vec<u8>>::new());
    assert_eq!(talk.session().transcript(), Some(&b""[..]));
}

#[test]
fn a_send_is_decided_and_done_in_one_go() {
    let mut talk = Conversation::new(started(), vec![send("hello"), ScriptStep::WriteRaw(vec![4])]);
    assert_eq!(talk.position(), 0);
    assert_eq!(talk.next_action(), Action::Write(b"hello\n".to_vec()));
    assert_eq!(talk.position(), 1);
    assert_eq!(talk.next_action(), Action::Write(vec![4]));
    assert_eq!(talk.position(), 2);
    assert_eq!(talk.next_action(), Action::Finished);
    assert!(talk.is_finished());
    assert_eq!(talk.failure(), None);
}

#[test]
fn a_wait_stays_current_until_an_observation_settles_it() {
    let mut talk = Conversation::new(started(), vec![expect(">>"), send("x")]);
    assert_eq!(talk.awaited_pattern(), Some(">>"));
    assert_eq!(talk.next_action(), Action::Read);
    assert_eq!(talk.next_action(), Action::Read);
    talk.observe(&seen(b">", 10));
    assert_eq!(talk.position(), 0);
    assert_eq!(talk.next_action(), Action::Read);
    talk.observe(&seen(b"> ", 20));
    assert_eq!(talk.position(), 1);
    assert_eq!(talk.awaited_pattern(), None);
    assert_eq!(talk.next_action(), Action::Write(b"x\n".to_vec()));
    assert_eq!(talk.session().pending(), b" ");
}

#[test]
fn an_observation_outside_a_wait_is_left_alone() {
    let mut talk = Conversation::new(started(), vec![send("x")]);
    talk.observe(&seen(b"lost", 0));
    assert_eq!(talk.position(), 0);
    assert_eq!(talk.session().pending(), b"");
    assert_eq!(talk.session().transcript(), Some(&b""[..]));
}

#[test]
fn a_timeout_fails_the_conversation_for_good() {
    let mut talk = Conversation::new(started(), vec![expect("COPY 2"), send("\\q")]);
    assert_eq!(talk.next_action(), Action::Read);
    talk.observe(&seen(b"ERROR:  invalid input syntax\n", 1000));
    assert_eq!(talk.failure(), Some(Failure::TimedOut));
    assert_eq!(talk.next_action(), Action::Failed(Failure::TimedOut));
    assert_eq!(talk.next_action(), Action::Failed(Failure::TimedOut));
    assert_eq!(talk.position(), 0);
    assert!(!talk.is_finished());
    assert_eq!(talk.session().phase(), Phase::TimedOut);
    assert_eq!(
        talk.session().failure_report(talk.awaited_pattern().unwrap()),
        vec![
            "Session logs at time of failure:\nERROR:  invalid input syntax\n".to_string(),
            "Failed to find expected pattern: COPY 2".to_string(),
        ]
    );
}

#[test]
fn an_early_exit_fails_the_conversation_differently() {
    let mut talk = Conversation::new(started(), vec![expect("db=#")]);
    let replay = talk.replay(&[closed(b"psql: error: connection refused\n", 3)]);
    assert_eq!(replay.end, ReplayEnd::Failed(Failure::UnexpectedExit));
    assert_eq!(replay.used, 1);
    assert_eq!(talk.session().phase(), Phase::UnexpectedExit);
}

#[test]
fn a_session_that_was_never_started_refuses_the_first_step() {
    let session = Session::open("psql", Channel::Pty, true);
    let mut talk = Conversation::new(session, vec![expect("db=#")]);
    assert_eq!(talk.next_action(), Action::Failed(Failure::Refused(SessionError::NotRunning)));
    let session = Session::open("psql", Channel::Pty, true);
    let mut talk = Conversation::new(session, vec![send("x")]);
    let replay = talk.replay(&[]);
    assert_eq!(replay.end, ReplayEnd::Failed(Failure::Refused(SessionError::NotRunning)));
    assert_eq!(replay.writes, Vec::<Vec<u8>>::new());
}

#[test]
fn steps_after_the_exit_are_refused() {
    let mut talk = Conversation::new(started(), vec![ScriptStep::ExpectExit, send("too late")]);
    let replay = talk.replay(&[closed(b"", 1), seen(b"", 2)]);
    assert_eq!(replay.end, ReplayEnd::Failed(Failure::Refused(SessionError::NotRunning)));
    assert_eq!(replay.used, 1);
    assert_eq!(talk.position(), 1);
    let mut talk = Conversation::new(started(), vec![ScriptStep::ExpectExit, expect("x")]);
    let replay = talk.replay(&[closed(b"x", 1), seen(b"x", 2)]);
    assert_eq!(replay.end, ReplayEnd::Failed(Failure::Refused(SessionError::NotRunning)));
    assert_eq!(replay.used, 1);
}

#[test]
fn a_run_that_ends_during_a_wait_leaves_the_replay_undecided() {
    let mut talk = Conversation::new(started(), vec![send("a"), expect("b"), send("c")]);
    let replay = talk.replay(&[seen(b"x", 1), seen(b"y", 2)]);
    assert_eq!(replay.end, ReplayEnd::Undecided);
    assert_eq!(replay.used, 2);
    assert_eq!(replay.writes, vec![b"a\n".to_vec()]);
    assert_eq!(talk.position(), 1);
    let more = talk.replay(&[seen(b"b", 3)]);
    assert_eq!(more.end, ReplayEnd::Finished);
    assert_eq!(more.used, 1);
    assert_eq!(more.writes, vec![b"c\n".to_vec()]);
}

#[test]
fn text_rows_over_standard_input_reach_the_success_marker() {
    let script = interactive_script(Source::Stdin, Encoding::Text, "t", "postgres").unwrap();
    let steps = script.len();
    let mut talk = Conversation::new(started(), script);
    let run = [
        seen(b"psql (16.3)\r\nType \"help\" for help.\r\n\r\npostgres=# ", 120),
        seen(b"\\copy \"t\" from stdin\r\nEnter data to be copied followed by a newline.\r\n", 15),
        seen(b"End with a backslash and a period on a line by itself, or an EOF signal.\r\n", 2),
        seen(b">> ", 1),
        seen(b"1\t2\r\n>> ", 4),
        seen(b"3\t4\r\n>> ", 4),
        seen(b"\\.\r\nCOPY 2\r\n", 30),
        seen(b"postgres=# ", 1),
        closed(b"\\q\r\n", 8),
    ];
    let replay = talk.replay(&run);
    assert_eq!(replay.end, ReplayEnd::Finished);
    assert_eq!(replay.used, run.len());
    assert_eq!(
        replay.writes,
        vec![
            b"\\copy \"t\" from stdin\n".to_vec(),
            b"1\t2\n".to_vec(),
            b"3\t4\n".to_vec(),
            b"\\.\n".to_vec(),
            b"\\q\n".to_vec(),
        ]
    );
    assert_eq!(talk.position(), steps);
    assert!(talk.is_finished());
    assert_eq!(talk.session().phase(), Phase::Terminated);
    assert_eq!(talk.session().pending(), b"");
}

#[test]
fn csv_rows_over_the_terminal_reach_the_prompt_again() {
    let script = interactive_script(Source::Tty, Encoding::Csv, "t", "postgres").unwrap();
    let mut talk = Conversation::new(started(), script);
    let run = [
        seen(b"postgres=# ", 100),
        seen(b"Enter data to be copied followed by a newline.\r\n", 10),
        seen(b"End with a backslash and a period on a line by itself, or an EOF signal.\r\n>> ", 1),
        seen(b"", 1),
        seen(b"1,2\r\n>> ", 3),
        seen(b"3,4\r\n>> ", 3),
        seen(b"COPY 2\r\npostgres=# ", 20),
        closed(b"", 5),
    ];
    let replay = talk.replay(&run);
    assert_eq!(replay.end, ReplayEnd::Finished);
    assert_eq!(
        replay.writes,
        vec![
            b"\\copy \"t\" from '/dev/tty' (format csv)\n".to_vec(),
            b"1,2\n".to_vec(),
            b"3,4\n".to_vec(),
            vec![4],
            b"\\q\n".to_vec(),
        ]
    );
}

#[test]
fn an_error_marker_in_place_of_success_fails_the_conversation() {
    for encoding in [Encoding::Text, Encoding::Csv] {
        let script = interactive_script(Source::Stdin, encoding, "t", "postgres").unwrap();
        let mut talk = Conversation::new(started(), script);
        let run = [
            seen(b"postgres=# ", 100),
            seen(b"Enter data to be copied followed by a newline.\r\n", 10),
            seen(b"End with a backslash and a period on a line by itself, or an EOF signal.\r\n", 1),
            seen(b">> ", 1),
            seen(b">> ", 3),
            seen(b">> ", 3),
            seen(b"ERROR:  missing data for column \"c2\"\r\npostgres=# ", 400),
            seen(b"", 1000),
        ];
        let replay = talk.replay(&run);
        assert_eq!(replay.end, ReplayEnd::Failed(Failure::TimedOut));
        assert_eq!(replay.used, run.len());
        assert_eq!(talk.awaited_pattern(), Some("COPY 2"));
        assert_eq!(replay.writes.len(), 4);
    }
}
