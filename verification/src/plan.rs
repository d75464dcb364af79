//! What one scenario does from its first command to its last.

use crate::scenario::{
    command_transfer_step, create_table_text, drop_table_text, import_text, readback_step,
    script_transfer_step, select_all_text, setup_step, snapshot_path, snapshot_path_text, step_of,
    teardown_step, CommandStep, CommandStepView, Encoding, Method, Scenario, Source,
    EXPECT_COPY_TWO, EXPECT_CREATE_TABLE, EXPECT_DROP_TABLE, EXPECT_RESULT_SET,
};
use crate::script::{conversation, interactive_script, script_views, scripted, ScriptStep, ScriptStepView};
use vstd::prelude::*;

verus! {

/// Where a scenario runs: the names it needs from outside.
#[derive(Debug, PartialEq, Eq)]
pub struct Setting {
    /// The target table, unique to the scenario.
    pub table: String,
    /// The path shared by the snapshot files, without extension.
    pub snapshot_base: String,
    /// Where a script file may be written.
    pub script_path: String,
    /// The database the client connects to.
    pub database: String,
}

/// A [`Setting`] as contracts see it.
pub struct SettingView {
    pub table: Seq<char>,
    pub snapshot_base: Seq<char>,
    pub script_path: Seq<char>,
    pub database: Seq<char>,
}

impl View for Setting {
    type V = SettingView;

    open spec fn view(&self) -> SettingView {
        SettingView {
            table: self.table@,
            snapshot_base: self.snapshot_base@,
            script_path: self.script_path@,
            database: self.database@,
        }
    }
}

/// One thing a scenario does.
#[derive(Debug, PartialEq, Eq)]
pub enum Stage {
    /// Run the client once; its output must be the step's literal and its
    /// error output empty.
    Invoke(CommandStep),
    /// Write the script file at `script`: the import command for `table`,
    /// then the bytes of the file at `snapshot`.
    ComposeScript { table: String, encoding: Encoding, snapshot: String, script: String },
    /// Hold the live conversation; every wait in it must match.
    Converse(Vec<ScriptStep>),
}

/// A [`Stage`] as contracts see it.
pub enum StageView {
    Invoke(CommandStepView),
    ComposeScript { table: Seq<char>, encoding: Encoding, snapshot: Seq<char>, script: Seq<char> },
    Converse(Seq<ScriptStepView>),
}

impl View for Stage {
    type V = StageView;

    open spec fn view(&self) -> StageView {
        match self {
            Stage::Invoke(step) => StageView::Invoke(step@),
            Stage::ComposeScript { table, encoding, snapshot, script } => StageView::ComposeScript {
                table: table@,
                encoding: *encoding,
                snapshot: snapshot@,
                script: script@,
            },
            Stage::Converse(steps) => StageView::Converse(script_views(steps@)),
        }
    }
}

/// The views of a list of stages, in order.
pub open spec fn stage_views(stages: Seq<Stage>) -> Seq<StageView> {
    Seq::new(stages.len(), |i: int| stages[i]@)
}

/// How the rows get into the table, by method.
pub open spec fn transfer(scenario: Scenario, setting: SettingView) -> Seq<StageView> {
    match scenario.method {
        Method::Command => seq![
            StageView::Invoke(
                step_of(
                    "-c"@,
                    import_text(
                        setting.table,
                        Source::File,
                        snapshot_path_text(setting.snapshot_base, scenario.encoding),
                        scenario.encoding,
                    ),
                    EXPECT_COPY_TWO@,
                ),
            ),
        ],
        Method::Script => seq![
            StageView::ComposeScript {
                table: setting.table,
                encoding: scenario.encoding,
                snapshot: snapshot_path_text(setting.snapshot_base, scenario.encoding),
                script: setting.script_path,
            },
            StageView::Invoke(step_of("-f"@, setting.script_path, EXPECT_COPY_TWO@)),
        ],
        Method::Terminal => seq![
            StageView::Converse(
                conversation(scenario.source, scenario.encoding, setting.table, setting.database),
            ),
        ],
    }
}

/// Everything a scenario does: create the table, transfer the rows, read
/// them back, drop the table.
pub open spec fn stages(scenario: Scenario, setting: SettingView) -> Seq<StageView> {
    seq![
        StageView::Invoke(
            step_of("-c"@, create_table_text(setting.table), EXPECT_CREATE_TABLE@),
        ),
    ] + transfer(scenario, setting) + seq![
        StageView::Invoke(step_of("-c"@, select_all_text(setting.table), EXPECT_RESULT_SET@)),
        StageView::Invoke(step_of("-c"@, drop_table_text(setting.table), EXPECT_DROP_TABLE@)),
    ]
}

/// For a live terminal, the defined scenarios are those with a scripted
/// conversation.
pub proof fn lemma_terminal_defined_iff_scripted(scenario: Scenario)
    requires
        scenario.method == Method::Terminal,
    ensures
        scenario.defined() <==> scripted(scenario.source, scenario.encoding),
{
}

/// Whatever the method, the source and the encoding, a scenario begins by
/// creating its table, ends by reading back exactly the two rows and
/// dropping the table, and transfers in between; every invocation on the
/// way expects one fixed literal.
pub proof fn lemma_every_scenario_reads_back_two_rows(scenario: Scenario, setting: SettingView)
    ensures
        ({
            let all = stages(scenario, setting);
            let n = all.len() as int;
            &&& 4 <= n <= 5
            &&& all[0] == StageView::Invoke(
                step_of("-c"@, create_table_text(setting.table), EXPECT_CREATE_TABLE@),
            )
            &&& all[n - 2] == StageView::Invoke(
                step_of("-c"@, select_all_text(setting.table), EXPECT_RESULT_SET@),
            )
            &&& all[n - 1] == StageView::Invoke(
                step_of("-c"@, drop_table_text(setting.table), EXPECT_DROP_TABLE@),
            )
            &&& forall|i: int|
                0 < i < n - 2 ==> (#[trigger] all[i] matches StageView::Invoke(step)
                    ==> step.expected == EXPECT_COPY_TWO@)
        }),
{
}

/// The stages of a scenario in `setting`, or `None` for a combination
/// that is not defined.
pub fn plan(scenario: Scenario, setting: &Setting) -> (r: Option<Vec<Stage>>)
    ensures
        r is Some <==> scenario.defined(),
        match r {
            Some(list) => stage_views(list@) == stages(scenario, setting@),
            None => true,
        },
{
    if !scenario.is_defined() {
        return None;
    }
    let table = setting.table.as_str();
    let mut list: Vec<Stage> = Vec::new();
    list.push(Stage::Invoke(setup_step(table)));
    match scenario.method {
        Method::Command => {
            let snapshot = snapshot_path(setting.snapshot_base.as_str(), scenario.encoding);
            list.push(
                Stage::Invoke(command_transfer_step(table, snapshot.as_str(), scenario.encoding)),
            );
        },
        Method::Script => {
            let snapshot = snapshot_path(setting.snapshot_base.as_str(), scenario.encoding);
            list.push(
                Stage::ComposeScript {
                    table: setting.table.clone(),
                    encoding: scenario.encoding,
                    snapshot,
                    script: setting.script_path.clone(),
                },
            );
            list.push(Stage::Invoke(script_transfer_step(setting.script_path.as_str())));
        },
        Method::Terminal => {
            match interactive_script(
                scenario.source,
                scenario.encoding,
                table,
                setting.database.as_str(),
            ) {
                Some(steps) => {
                    list.push(Stage::Converse(steps));
                },
                None => {
                    return None;
                },
            }
        },
    }
    assert(stage_views(list@) =~= stages(scenario, setting@).take(list.len() as int));
    list.push(Stage::Invoke(readback_step(table)));
    list.push(Stage::Invoke(teardown_step(table)));
    assert(stage_views(list@) =~= stages(scenario, setting@));
    Some(list)
}

} // verus!
