//! The scenario matrix: which transfers are exercised, the commands each
//! one issues, and the literal output each command must produce.

use crate::bytes::append_bytes;
use vstd::prelude::*;
use vstd::utf8::encode_utf8;

verus! {

/// How the client is driven.
#[derive(Clone, Copy, Debug, PartialEq, Eq, Structural)]
pub enum Method {
    /// One invocation with the command on its argument list.
    Command,
    /// One invocation that runs a generated script file.
    Script,
    /// A live conversation over a pseudo-terminal.
    Terminal,
}

/// Where the client reads the rows from.
#[derive(Clone, Copy, Debug, PartialEq, Eq, Structural)]
pub enum Source {
    /// A snapshot file, by path.
    File,
    /// Standard input.
    Stdin,
    /// The controlling terminal, by device path.
    Tty,
}

/// How the rows are encoded.
#[derive(Clone, Copy, Debug, PartialEq, Eq, Structural)]
pub enum Encoding {
    Text,
    Csv,
    Binary,
}

/// One cell of the matrix.
#[derive(Clone, Copy, Debug, PartialEq, Eq, Structural)]
pub struct Scenario {
    pub method: Method,
    pub source: Source,
    pub encoding: Encoding,
}

impl Scenario {
    /// The combinations that are exercised. A one-shot command reads a
    /// file, a script reads standard input, and a live terminal serves
    /// either standard input or the terminal device, but never binary rows:
    /// whether a binary stream can pass a line-oriented terminal at all is
    /// open, so those cells stay outside.
    pub open spec fn defined(self) -> bool {
        match self.method {
            Method::Command => self.source == Source::File,
            Method::Script => self.source == Source::Stdin,
            Method::Terminal => (self.source == Source::Stdin || self.source == Source::Tty)
                && self.encoding != Encoding::Binary,
        }
    }

    /// Whether this combination is exercised.
    pub fn is_defined(&self) -> (yes: bool)
        ensures
            yes == self.defined(),
    {
        match self.method {
            Method::Command => self.source == Source::File,
            Method::Script => self.source == Source::Stdin,
            Method::Terminal => (self.source == Source::Stdin || self.source == Source::Tty)
                && self.encoding != Encoding::Binary,
        }
    }
}

/// What the client prints after creating a table.
pub const EXPECT_CREATE_TABLE: &'static str = "\nCREATE TABLE\n";

/// What the client prints after inserting the two rows.
pub const EXPECT_INSERT_TWO: &'static str = "\nINSERT 0 2\n";

/// What the client prints after copying two rows, in either direction.
pub const EXPECT_COPY_TWO: &'static str = "\nCOPY 2\n";

/// What the client prints after dropping a table.
pub const EXPECT_DROP_TABLE: &'static str = "\nDROP TABLE\n";

/// What the client prints when the target table holds the two rows.
pub const EXPECT_RESULT_SET: &'static str =
    "\n c1 | c2 \n----+----\n  1 |  2\n  3 |  4\n(2 rows)\n\n";

/// The name of an encoding in a `format` clause, and the extension of its
/// snapshot file.
pub open spec fn encoding_name(encoding: Encoding) -> Seq<char> {
    match encoding {
        Encoding::Text => "text"@,
        Encoding::Csv => "csv"@,
        Encoding::Binary => "binary"@,
    }
}

/// The `format` clause that an import needs: none for text, which is the
/// client's default.
pub open spec fn import_format_clause(encoding: Encoding) -> Seq<char> {
    match encoding {
        Encoding::Text => Seq::empty(),
        Encoding::Csv => " (format csv)"@,
        Encoding::Binary => " with (format binary)"@,
    }
}

/// How a source is written in a copy command; `path` counts for files only.
pub open spec fn source_clause(source: Source, path: Seq<char>) -> Seq<char> {
    match source {
        Source::File => "'"@ + path + "'"@,
        Source::Stdin => "stdin"@,
        Source::Tty => "'/dev/tty'"@,
    }
}

/// The text of the statement that creates the target table.
pub open spec fn create_table_text(table: Seq<char>) -> Seq<char> {
    "CREATE TABLE \""@ + table + "\" (c1 int8, c2 int8);"@
}

/// The text of the statement that inserts the two rows.
pub open spec fn insert_rows_text(table: Seq<char>) -> Seq<char> {
    "INSERT INTO \""@ + table + "\" (c1, c2) VALUES (1, 2), (3, 4);"@
}

/// The text of the statement that reads a table back.
pub open spec fn select_all_text(table: Seq<char>) -> Seq<char> {
    "SELECT * FROM \""@ + table + "\";"@
}

/// The text of the statement that drops a table.
pub open spec fn drop_table_text(table: Seq<char>) -> Seq<char> {
    "DROP TABLE \""@ + table + "\";"@
}

/// The text of the copy command that exports a table to a file.
pub open spec fn export_text(table: Seq<char>, path: Seq<char>, encoding: Encoding) -> Seq<char> {
    "\\copy \""@ + table + "\" to '"@ + path + "' (format "@ + encoding_name(encoding) + ");"@
}

/// The text of the copy command that imports into a table.
pub open spec fn import_text(
    table: Seq<char>,
    source: Source,
    path: Seq<char>,
    encoding: Encoding,
) -> Seq<char> {
    "\\copy \""@ + table + "\" from "@ + source_clause(source, path) + import_format_clause(
        encoding,
    )
}

/// The path of a snapshot: the shared path, a dot, the encoding's name.
pub open spec fn snapshot_path_text(base: Seq<char>, encoding: Encoding) -> Seq<char> {
    base + "."@ + encoding_name(encoding)
}

/// The client's prompt for a superuser: the database, then `=#`.
pub open spec fn prompt_text(database: Seq<char>) -> Seq<char> {
    database + "=#"@
}

/// The name of an encoding.
pub fn encoding_word(encoding: Encoding) -> (word: &'static str)
    ensures
        word@ == encoding_name(encoding),
{
    match encoding {
        Encoding::Text => "text",
        Encoding::Csv => "csv",
        Encoding::Binary => "binary",
    }
}

/// The statement that creates the two-column target table.
pub fn create_table_sql(table: &str) -> (sql: String)
    ensures
        sql@ == create_table_text(table@),
{
    let mut sql = String::from_str("CREATE TABLE \"");
    sql.append(table);
    sql.append("\" (c1 int8, c2 int8);");
    sql
}

/// The statement that fills a table with the rows `(1, 2)` and `(3, 4)`.
pub fn insert_rows_sql(table: &str) -> (sql: String)
    ensures
        sql@ == insert_rows_text(table@),
{
    let mut sql = String::from_str("INSERT INTO \"");
    sql.append(table);
    sql.append("\" (c1, c2) VALUES (1, 2), (3, 4);");
    sql
}

/// The statement that reads a table back.
pub fn select_all_sql(table: &str) -> (sql: String)
    ensures
        sql@ == select_all_text(table@),
{
    let mut sql = String::from_str("SELECT * FROM \"");
    sql.append(table);
    sql.append("\";");
    sql
}

/// The statement that drops a table.
pub fn drop_table_sql(table: &str) -> (sql: String)
    ensures
        sql@ == drop_table_text(table@),
{
    let mut sql = String::from_str("DROP TABLE \"");
    sql.append(table);
    sql.append("\";");
    sql
}

/// The copy command that exports a table to the file at `path`.
pub fn export_command(table: &str, path: &str, encoding: Encoding) -> (command: String)
    ensures
        command@ == export_text(table@, path@, encoding),
{
    let mut command = String::from_str("\\copy \"");
    command.append(table);
    command.append("\" to '");
    command.append(path);
    command.append("' (format ");
    command.append(encoding_word(encoding));
    command.append(");");
    command
}

/// The copy command that imports into a table from `source`. `path` names
/// the snapshot file and is used for [`Source::File`] only.
pub fn import_command(table: &str, source: Source, path: &str, encoding: Encoding) -> (command:
    String)
    ensures
        command@ == import_text(table@, source, path@, encoding),
{
    let mut command = String::from_str("\\copy \"");
    command.append(table);
    command.append("\" from ");
    let ghost head = command@;
    match source {
        Source::File => {
            command.append("'");
            command.append(path);
            command.append("'");
            assert(command@ =~= head + source_clause(source, path@));
        },
        Source::Stdin => {
            command.append("stdin");
        },
        Source::Tty => {
            command.append("'/dev/tty'");
        },
    }
    let ghost body = command@;
    match encoding {
        Encoding::Text => {
            assert(body + import_format_clause(encoding) =~= body);
        },
        Encoding::Csv => {
            command.append(" (format csv)");
        },
        Encoding::Binary => {
            command.append(" with (format binary)");
        },
    }
    command
}

/// The path of the snapshot file for an encoding, given the path shared by
/// all snapshots without its extension.
pub fn snapshot_path(base: &str, encoding: Encoding) -> (path: String)
    ensures
        path@ == snapshot_path_text(base@, encoding),
{
    let mut path = String::from_str(base);
    path.append(".");
    path.append(encoding_word(encoding));
    path
}

/// The client's prompt when connected to `database` as a superuser.
pub fn prompt(database: &str) -> (text: String)
    ensures
        text@ == prompt_text(database@),
{
    let mut text = String::from_str(database);
    text.append("=#");
    text
}

/// The program that every invocation runs.
pub const CLIENT_PROGRAM: &'static str = "psql";

/// A lower-case hexadecimal digit.
pub open spec fn is_lower_hex(c: char) -> bool {
    ('0' <= c && c <= '9') || ('a' <= c && c <= 'f')
}

/// The hyphenated form of a UUID: 36 characters, hyphens after the 8th,
/// 12th, 16th and 20th digit, lower-case hexadecimal digits elsewhere.
pub open spec fn is_uuid_text(s: Seq<char>) -> bool {
    &&& s.len() == 36
    &&& forall|i: int|
        0 <= i < 36 ==> if i == 8 || i == 13 || i == 18 || i == 23 {
            s[i] == '-'
        } else {
            is_lower_hex(#[trigger] s[i])
        }
}

/// A name that can stand between double quotes as it is: it holds no
/// double quote itself.
pub open spec fn quotable(name: Seq<char>) -> bool {
    forall|i: int| 0 <= i < name.len() ==> #[trigger] name[i] != '"'
}

/// Every UUID in hyphenated form can stand between double quotes.
pub proof fn lemma_uuid_text_quotable(s: Seq<char>)
    requires
        is_uuid_text(s),
    ensures
        quotable(s),
{
    assert forall|i: int| 0 <= i < s.len() implies #[trigger] s[i] != '"' by {
        if i == 8 || i == 13 || i == 18 || i == 23 {
        } else {
            assert(is_lower_hex(s[i]));
        }
    }
}

/// `uuid::Uuid::new_v4`, shown by its `Display`. Trusted: whatever the
/// random bits, the text is a UUID in hyphenated lower-case form. Which one
/// it is depends on the system's random source, so two calls promise
/// nothing about each other.
#[verifier::external_body]
fn random_uuid_text() -> (text: String)
    ensures
        is_uuid_text(text@),
{
    uuid::Uuid::new_v4().to_string()
}

/// A name for a table of one scenario, drawn at random so that scenarios
/// that share a database do not meet.
pub fn fresh_table_name() -> (name: String)
    ensures
        is_uuid_text(name@),
        quotable(name@),
{
    let name = random_uuid_text();
    proof {
        lemma_uuid_text_quotable(name@);
    }
    name
}

/// One invocation of the client and the standard output it must produce.
/// Standard error must stay empty.
#[derive(Debug, PartialEq, Eq)]
pub struct CommandStep {
    pub args: Vec<String>,
    pub expected: &'static str,
}

/// A [`CommandStep`] as contracts see it.
pub struct CommandStepView {
    pub args: Seq<Seq<char>>,
    pub expected: Seq<char>,
}

impl View for CommandStep {
    type V = CommandStepView;

    open spec fn view(&self) -> CommandStepView {
        CommandStepView {
            args: Seq::new(self.args@.len(), |i: int| self.args@[i]@),
            expected: self.expected@,
        }
    }
}

/// The views of a list of steps, in order.
pub open spec fn step_views(steps: Seq<CommandStep>) -> Seq<CommandStepView> {
    Seq::new(steps.len(), |i: int| steps[i]@)
}

/// An invocation that hands `text` to the client with `flag`.
pub open spec fn step_of(flag: Seq<char>, text: Seq<char>, expected: Seq<char>) -> CommandStepView {
    CommandStepView { args: seq![flag, text], expected }
}

fn make_step(flag: &str, text: String, expected: &'static str) -> (step: CommandStep)
    ensures
        step@ == step_of(flag@, text@, expected@),
{
    let mut args: Vec<String> = Vec::new();
    args.push(String::from_str(flag));
    args.push(text);
    let step = CommandStep { args, expected };
    assert(step@.args =~= seq![flag@, text@]);
    step
}

/// Creates the target table of a scenario.
pub fn setup_step(table: &str) -> (step: CommandStep)
    ensures
        step@ == step_of("-c"@, create_table_text(table@), EXPECT_CREATE_TABLE@),
{
    make_step("-c", create_table_sql(table), EXPECT_CREATE_TABLE)
}

/// Imports the snapshot at `path` with one command; two rows must arrive.
pub fn command_transfer_step(table: &str, path: &str, encoding: Encoding) -> (step: CommandStep)
    ensures
        step@ == step_of(
            "-c"@,
            import_text(table@, Source::File, path@, encoding),
            EXPECT_COPY_TWO@,
        ),
{
    make_step("-c", import_command(table, Source::File, path, encoding), EXPECT_COPY_TWO)
}

/// Runs the script file at `script_path`; two rows must arrive.
pub fn script_transfer_step(script_path: &str) -> (step: CommandStep)
    ensures
        step@ == step_of("-f"@, script_path@, EXPECT_COPY_TWO@),
{
    make_step("-f", String::from_str(script_path), EXPECT_COPY_TWO)
}

/// Reads the target table back; it must hold exactly the two rows.
pub fn readback_step(table: &str) -> (step: CommandStep)
    ensures
        step@ == step_of("-c"@, select_all_text(table@), EXPECT_RESULT_SET@),
{
    make_step("-c", select_all_sql(table), EXPECT_RESULT_SET)
}

/// Drops the target table.
pub fn teardown_step(table: &str) -> (step: CommandStep)
    ensures
        step@ == step_of("-c"@, drop_table_text(table@), EXPECT_DROP_TABLE@),
{
    make_step("-c", drop_table_sql(table), EXPECT_DROP_TABLE)
}

/// What builds the shared snapshots: a table with the two rows, exported
/// once per encoding, then dropped.
pub open spec fn fixture_steps(table: Seq<char>, base: Seq<char>) -> Seq<CommandStepView> {
    seq![
        step_of("-c"@, create_table_text(table), EXPECT_CREATE_TABLE@),
        step_of("-c"@, insert_rows_text(table), EXPECT_INSERT_TWO@),
        step_of(
            "-c"@,
            export_text(table, snapshot_path_text(base, Encoding::Text), Encoding::Text),
            EXPECT_COPY_TWO@,
        ),
        step_of(
            "-c"@,
            export_text(table, snapshot_path_text(base, Encoding::Binary), Encoding::Binary),
            EXPECT_COPY_TWO@,
        ),
        step_of(
            "-c"@,
            export_text(table, snapshot_path_text(base, Encoding::Csv), Encoding::Csv),
            EXPECT_COPY_TWO@,
        ),
        step_of("-c"@, drop_table_text(table), EXPECT_DROP_TABLE@),
    ]
}

fn export_step(table: &str, base: &str, encoding: Encoding) -> (step: CommandStep)
    ensures
        step@ == step_of(
            "-c"@,
            export_text(table@, snapshot_path_text(base@, encoding), encoding),
            EXPECT_COPY_TWO@,
        ),
{
    let path = snapshot_path(base, encoding);
    make_step("-c", export_command(table, path.as_str(), encoding), EXPECT_COPY_TWO)
}

/// The invocations that build the shared snapshots under `base`, in order.
pub fn fixture_plan(table: &str, base: &str) -> (steps: Vec<CommandStep>)
    ensures
        step_views(steps@) == fixture_steps(table@, base@),
{
    let mut steps: Vec<CommandStep> = Vec::new();
    steps.push(setup_step(table));
    steps.push(make_step("-c", insert_rows_sql(table), EXPECT_INSERT_TWO));
    steps.push(export_step(table, base, Encoding::Text));
    steps.push(export_step(table, base, Encoding::Binary));
    steps.push(export_step(table, base, Encoding::Csv));
    steps.push(teardown_step(table));
    assert(step_views(steps@) =~= fixture_steps(table@, base@));
    steps
}

/// What a script file for the client holds: the import command on a line
/// of its own, then the snapshot's bytes as they are.
pub open spec fn script_body_bytes(table: Seq<char>, encoding: Encoding, data: Seq<u8>) -> Seq<u8> {
    encode_utf8(import_text(table, Source::Stdin, Seq::empty(), encoding)) + seq![0x0au8] + data
}

/// The contents of the script file that imports `data` from standard
/// input.
pub fn script_body(table: &str, encoding: Encoding, data: &[u8]) -> (body: Vec<u8>)
    ensures
        body@ == script_body_bytes(table@, encoding, data@),
{
    proof {
        reveal_strlit("");
        assert(""@ =~= Seq::<char>::empty());
    }
    let command = import_command(table, Source::Stdin, "", encoding);
    let mut body: Vec<u8> = Vec::new();
    append_bytes(&mut body, command.as_str().as_bytes());
    body.push(0x0au8);
    append_bytes(&mut body, data);
    body
}

} // verus!
