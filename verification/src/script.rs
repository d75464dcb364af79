//! Scripted conversations: what to send and what to wait for, in order.

use crate::scenario::{import_command, import_text, prompt, prompt_text, Encoding, Source};
use vstd::prelude::*;

verus! {

/// One step of a scripted conversation.
#[derive(Debug, PartialEq, Eq)]
pub enum ScriptStep {
    /// Wait until the literal appears in the output.
    Expect(String),
    /// Send the text as one line.
    SendLine(String),
    /// Send the bytes with nothing added.
    WriteRaw(Vec<u8>),
    /// Wait until the process has exited.
    ExpectExit,
}

/// A [`ScriptStep`] as contracts see it.
pub enum ScriptStepView {
    Expect(Seq<char>),
    SendLine(Seq<char>),
    WriteRaw(Seq<u8>),
    ExpectExit,
}

impl View for ScriptStep {
    type V = ScriptStepView;

    open spec fn view(&self) -> ScriptStepView {
        match self {
            ScriptStep::Expect(pattern) => ScriptStepView::Expect(pattern@),
            ScriptStep::SendLine(text) => ScriptStepView::SendLine(text@),
            ScriptStep::WriteRaw(bytes) => ScriptStepView::WriteRaw(bytes@),
            ScriptStep::ExpectExit => ScriptStepView::ExpectExit,
        }
    }
}

/// The views of a script's steps, in order.
pub open spec fn script_views(steps: Seq<ScriptStep>) -> Seq<ScriptStepView> {
    Seq::new(steps.len(), |i: int| steps[i]@)
}

/// The end-of-transmission control character.
pub const END_OF_TRANSMISSION: u8 = 0x04;

/// The first line of the client's invitation to enter rows.
pub const INVITATION_HEAD: &'static str = "Enter data to be copied followed by a newline.";

/// The second line of the client's invitation to enter rows.
pub const INVITATION_TAIL: &'static str =
    "End with a backslash and a period on a line by itself, or an EOF signal.";

/// The client's prompt for the next row.
pub const ROW_PROMPT: &'static str = ">>";

/// The line that ends the rows.
pub const TERMINATOR: &'static str = "\\.";

/// The client's report that two rows were transferred.
pub const TWO_ROWS_COPIED: &'static str = "COPY 2";

/// The client's command to quit.
pub const QUIT: &'static str = "\\q";

/// A live conversation is scripted for standard input and for the
/// terminal device, in the text and the comma-separated encoding.
pub open spec fn scripted(source: Source, encoding: Encoding) -> bool {
    (source == Source::Stdin || source == Source::Tty) && encoding != Encoding::Binary
}

/// The first of the two rows, as typed.
pub open spec fn first_row(encoding: Encoding) -> Seq<char> {
    if encoding == Encoding::Csv {
        "1,2"@
    } else {
        "1\t2"@
    }
}

/// The second of the two rows, as typed.
pub open spec fn second_row(encoding: Encoding) -> Seq<char> {
    if encoding == Encoding::Csv {
        "3,4"@
    } else {
        "3\t4"@
    }
}

/// From the first prompt to the prompt after the second row.
pub open spec fn opening(
    source: Source,
    encoding: Encoding,
    table: Seq<char>,
    database: Seq<char>,
) -> Seq<ScriptStepView> {
    seq![
        ScriptStepView::Expect(prompt_text(database)),
        ScriptStepView::SendLine(import_text(table, source, Seq::empty(), encoding)),
        ScriptStepView::Expect(INVITATION_HEAD@),
        ScriptStepView::Expect(INVITATION_TAIL@),
        ScriptStepView::Expect(ROW_PROMPT@),
        ScriptStepView::SendLine(first_row(encoding)),
        ScriptStepView::Expect(ROW_PROMPT@),
        ScriptStepView::SendLine(second_row(encoding)),
        ScriptStepView::Expect(ROW_PROMPT@),
    ]
}

/// How the rows are ended. On standard input the terminator line ends
/// them and the client reports the two rows. On the terminal device only
/// end-of-transmission ends them: the text encoding puts up with a
/// terminator line before it and prompts again, the comma-separated one
/// would take that line for a row, so none is sent.
pub open spec fn closing(source: Source, encoding: Encoding) -> Seq<ScriptStepView> {
    if source == Source::Stdin {
        seq![ScriptStepView::SendLine(TERMINATOR@), ScriptStepView::Expect(TWO_ROWS_COPIED@)]
    } else if encoding == Encoding::Text {
        seq![
            ScriptStepView::SendLine(TERMINATOR@),
            ScriptStepView::Expect(ROW_PROMPT@),
            ScriptStepView::WriteRaw(seq![END_OF_TRANSMISSION]),
        ]
    } else {
        seq![ScriptStepView::WriteRaw(seq![END_OF_TRANSMISSION])]
    }
}

/// Back at the prompt, quit, and see the process go.
pub open spec fn farewell(database: Seq<char>) -> Seq<ScriptStepView> {
    seq![
        ScriptStepView::Expect(prompt_text(database)),
        ScriptStepView::SendLine(QUIT@),
        ScriptStepView::ExpectExit,
    ]
}

/// The whole conversation that imports the two rows into `table`.
pub open spec fn conversation(
    source: Source,
    encoding: Encoding,
    table: Seq<char>,
    database: Seq<char>,
) -> Seq<ScriptStepView> {
    opening(source, encoding, table, database) + closing(source, encoding) + farewell(database)
}

fn expect_step(pattern: &str) -> (step: ScriptStep)
    ensures
        step@ == ScriptStepView::Expect(pattern@),
{
    ScriptStep::Expect(String::from_str(pattern))
}

fn send_step(text: &str) -> (step: ScriptStep)
    ensures
        step@ == ScriptStepView::SendLine(text@),
{
    ScriptStep::SendLine(String::from_str(text))
}

fn end_of_transmission_step() -> (step: ScriptStep)
    ensures
        step@ == ScriptStepView::WriteRaw(seq![END_OF_TRANSMISSION]),
{
    let mut bytes: Vec<u8> = Vec::new();
    bytes.push(END_OF_TRANSMISSION);
    let step = ScriptStep::WriteRaw(bytes);
    assert(bytes@ =~= seq![END_OF_TRANSMISSION]);
    step
}

/// The script of the live conversation for a source and an encoding, or
/// `None` where none is scripted.
pub fn interactive_script(source: Source, encoding: Encoding, table: &str, database: &str) -> (r:
    Option<Vec<ScriptStep>>)
    ensures
        r is Some <==> scripted(source, encoding),
        match r {
            Some(steps) => script_views(steps@) == conversation(
                source,
                encoding,
                table@,
                database@,
            ),
            None => true,
        },
{
    let from_stdin = match source {
        Source::File => {
            return None;
        },
        Source::Stdin => true,
        Source::Tty => false,
    };
    let csv = match encoding {
        Encoding::Binary => {
            return None;
        },
        Encoding::Csv => true,
        Encoding::Text => false,
    };
    let ready = prompt(database);
    let command = import_command(table, source, "", encoding);
    proof {
        reveal_strlit("");
        assert(""@ =~= Seq::<char>::empty());
    }
    let mut steps: Vec<ScriptStep> = Vec::new();
    steps.push(expect_step(ready.as_str()));
    steps.push(send_step(command.as_str()));
    steps.push(expect_step(INVITATION_HEAD));
    steps.push(expect_step(INVITATION_TAIL));
    steps.push(expect_step(ROW_PROMPT));
    steps.push(send_step(if csv { "1,2" } else { "1\t2" }));
    steps.push(expect_step(ROW_PROMPT));
    steps.push(send_step(if csv { "3,4" } else { "3\t4" }));
    steps.push(expect_step(ROW_PROMPT));
    assert(script_views(steps@) =~= opening(source, encoding, table@, database@));
    if from_stdin {
        steps.push(send_step(TERMINATOR));
        steps.push(expect_step(TWO_ROWS_COPIED));
    } else {
        if !csv {
            steps.push(send_step(TERMINATOR));
            steps.push(expect_step(ROW_PROMPT));
        }
        steps.push(end_of_transmission_step());
    }
    assert(script_views(steps@) =~= opening(source, encoding, table@, database@) + closing(
        source,
        encoding,
    ));
    steps.push(expect_step(ready.as_str()));
    steps.push(send_step(QUIT));
    steps.push(ScriptStep::ExpectExit);
    assert(script_views(steps@) =~= conversation(source, encoding, table@, database@));
    Some(steps)
}

} // verus!
