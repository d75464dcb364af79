//! The shared test environment: one scratch directory and one snapshot of
//! the two rows per encoding, built once and read by every scenario.

use crate::scenario::{
    fixture_plan, fixture_steps, snapshot_path, snapshot_path_text, step_views, CommandStep,
    CommandStepView, Encoding,
};
use vstd::prelude::*;

verus! {

/// Where the shared artefacts are.
#[derive(Debug, PartialEq, Eq)]
pub struct TestEnvironment {
    /// The scratch directory.
    pub temp_dir: String,
    pub file_path_text: String,
    pub file_path_binary: String,
    pub file_path_csv: String,
}

/// A [`TestEnvironment`] as contracts see it.
pub struct TestEnvironmentView {
    pub temp_dir: Seq<char>,
    pub file_path_text: Seq<char>,
    pub file_path_binary: Seq<char>,
    pub file_path_csv: Seq<char>,
}

impl View for TestEnvironment {
    type V = TestEnvironmentView;

    open spec fn view(&self) -> TestEnvironmentView {
        TestEnvironmentView {
            temp_dir: self.temp_dir@,
            file_path_text: self.file_path_text@,
            file_path_binary: self.file_path_binary@,
            file_path_csv: self.file_path_csv@,
        }
    }
}

impl TestEnvironmentView {
    /// The environment whose snapshots share the path `base`.
    pub open spec fn at(temp_dir: Seq<char>, base: Seq<char>) -> Self {
        TestEnvironmentView {
            temp_dir,
            file_path_text: snapshot_path_text(base, Encoding::Text),
            file_path_binary: snapshot_path_text(base, Encoding::Binary),
            file_path_csv: snapshot_path_text(base, Encoding::Csv),
        }
    }

    /// The snapshot for an encoding.
    pub open spec fn snapshot(self, encoding: Encoding) -> Seq<char> {
        match encoding {
            Encoding::Text => self.file_path_text,
            Encoding::Csv => self.file_path_csv,
            Encoding::Binary => self.file_path_binary,
        }
    }
}

/// The three snapshots of one environment are three different files, so
/// no export overwrites another.
pub proof fn lemma_snapshots_are_distinct(temp_dir: Seq<char>, base: Seq<char>)
    ensures
        ({
            let env = TestEnvironmentView::at(temp_dir, base);
            &&& env.file_path_text != env.file_path_binary
            &&& env.file_path_text != env.file_path_csv
            &&& env.file_path_binary != env.file_path_csv
        }),
{
    reveal_strlit(".");
    reveal_strlit("text");
    reveal_strlit("csv");
    reveal_strlit("binary");
    let env = TestEnvironmentView::at(temp_dir, base);
    assert(env.file_path_text.len() == base.len() + 5);
    assert(env.file_path_csv.len() == base.len() + 4);
    assert(env.file_path_binary.len() == base.len() + 7);
}

impl TestEnvironment {
    /// Describes the environment in `temp_dir` whose snapshots share the
    /// path `base`, each with the extension of its encoding.
    pub fn at(temp_dir: &str, base: &str) -> (env: TestEnvironment)
        ensures
            env@ == TestEnvironmentView::at(temp_dir@, base@),
    {
        TestEnvironment {
            temp_dir: String::from_str(temp_dir),
            file_path_text: snapshot_path(base, Encoding::Text),
            file_path_binary: snapshot_path(base, Encoding::Binary),
            file_path_csv: snapshot_path(base, Encoding::Csv),
        }
    }

    /// The path of the snapshot for an encoding.
    pub fn snapshot(&self, encoding: Encoding) -> (path: &str)
        ensures
            path@ == self@.snapshot(encoding),
    {
        match encoding {
            Encoding::Text => self.file_path_text.as_str(),
            Encoding::Csv => self.file_path_csv.as_str(),
            Encoding::Binary => self.file_path_binary.as_str(),
        }
    }
}

/// Where the shared environment stands in its life.
#[derive(Clone, Copy, Debug, PartialEq, Eq, Structural)]
pub enum FixturePhase {
    /// Not built yet.
    Absent,
    /// Built; scenarios may read it.
    Ready,
    /// Its scratch directory has been removed.
    Removed,
}

/// What the caller of `acquire` is to do.
#[derive(Debug, PartialEq, Eq)]
pub enum Provision {
    /// Build the environment now: run these invocations in order.
    Build(Vec<CommandStep>),
    /// The environment is there; use it.
    Reuse,
    /// The environment is gone; nothing can use it any more.
    Gone,
}

/// A [`Provision`] as contracts see it.
pub enum ProvisionView {
    Build(Seq<CommandStepView>),
    Reuse,
    Gone,
}

impl View for Provision {
    type V = ProvisionView;

    open spec fn view(&self) -> ProvisionView {
        match self {
            Provision::Build(steps) => ProvisionView::Build(step_views(steps@)),
            Provision::Reuse => ProvisionView::Reuse,
            Provision::Gone => ProvisionView::Gone,
        }
    }
}

/// What `acquire` answers in a phase, and the phase after it.
pub open spec fn acquired(phase: FixturePhase, table: Seq<char>, base: Seq<char>) -> (
    FixturePhase,
    ProvisionView,
) {
    match phase {
        FixturePhase::Absent => (
            FixturePhase::Ready,
            ProvisionView::Build(fixture_steps(table, base)),
        ),
        FixturePhase::Ready => (FixturePhase::Ready, ProvisionView::Reuse),
        FixturePhase::Removed => (FixturePhase::Removed, ProvisionView::Gone),
    }
}

/// What `release` answers in a phase, and the phase after it: only an
/// environment that was built has a scratch directory to remove.
pub open spec fn released(phase: FixturePhase) -> (FixturePhase, bool) {
    match phase {
        FixturePhase::Ready => (FixturePhase::Removed, true),
        _ => (phase, false),
    }
}

/// The phase after a run of requests, `true` standing for an `acquire`
/// and `false` for a `release`.
pub open spec fn phase_after(phase: FixturePhase, requests: Seq<bool>) -> FixturePhase
    decreases requests.len(),
{
    if requests.len() == 0 {
        phase
    } else {
        let before = phase_after(phase, requests.drop_last());
        if requests.last() {
            acquired(before, Seq::empty(), Seq::empty()).0
        } else {
            released(before).0
        }
    }
}

/// How often a run of requests, starting in `phase`, asks for a build.
pub open spec fn builds(phase: FixturePhase, requests: Seq<bool>) -> nat
    decreases requests.len(),
{
    if requests.len() == 0 {
        0
    } else {
        let before = phase_after(phase, requests.drop_last());
        let earlier = builds(phase, requests.drop_last());
        if requests.last() && before == FixturePhase::Absent {
            earlier + 1
        } else {
            earlier
        }
    }
}

/// How often a run of requests, starting in `phase`, asks for the scratch
/// directory to be removed.
pub open spec fn removals(phase: FixturePhase, requests: Seq<bool>) -> nat
    decreases requests.len(),
{
    if requests.len() == 0 {
        0
    } else {
        let before = phase_after(phase, requests.drop_last());
        let earlier = removals(phase, requests.drop_last());
        if !requests.last() && before == FixturePhase::Ready {
            earlier + 1
        } else {
            earlier
        }
    }
}

/// However often and in whatever order the environment is asked for and
/// given back, it is built at most once and removed at most once, never
/// removed unless built, and never built again after removal; if it was
/// asked for at all, it was built.
pub proof fn lemma_built_and_removed_at_most_once(requests: Seq<bool>)
    ensures
        builds(FixturePhase::Absent, requests) <= 1,
        removals(FixturePhase::Absent, requests) <= builds(FixturePhase::Absent, requests),
        phase_after(FixturePhase::Absent, requests) == FixturePhase::Absent <==> builds(
            FixturePhase::Absent,
            requests,
        ) == 0,
        phase_after(FixturePhase::Absent, requests) == FixturePhase::Removed <==> removals(
            FixturePhase::Absent,
            requests,
        ) == 1,
        (exists|i: int| 0 <= i < requests.len() && requests[i]) ==> builds(
            FixturePhase::Absent,
            requests,
        ) == 1,
    decreases requests.len(),
{
    if requests.len() > 0 {
        let earlier = requests.drop_last();
        lemma_built_and_removed_at_most_once(earlier);
        if exists|i: int| 0 <= i < requests.len() && requests[i] {
            let i = choose|i: int| 0 <= i < requests.len() && requests[i];
            if i < earlier.len() {
                assert(earlier[i]);
            }
        }
    }
}

/// The life of the shared environment.
pub struct FixtureLife {
    phase: FixturePhase,
}

impl View for FixtureLife {
    type V = FixturePhase;

    closed spec fn view(&self) -> FixturePhase {
        self.phase
    }
}

impl FixtureLife {
    /// A life that has not begun.
    pub fn new() -> (life: FixtureLife)
        ensures
            life@ == FixturePhase::Absent,
    {
        FixtureLife { phase: FixturePhase::Absent }
    }

    /// The phase the environment is in.
    pub fn phase(&self) -> (phase: FixturePhase)
        ensures
            phase == self@,
    {
        self.phase
    }

    /// Asks for the environment. The first request is answered with the
    /// invocations that build it from a table named `table`, its snapshots
    /// under `base`; every later one finds it ready, until it is released.
    pub fn acquire(&mut self, table: &str, base: &str) -> (provision: Provision)
        ensures
            (final(self)@, provision@) == acquired(old(self)@, table@, base@),
    {
        match self.phase {
            FixturePhase::Absent => {
                self.phase = FixturePhase::Ready;
                Provision::Build(fixture_plan(table, base))
            },
            FixturePhase::Ready => Provision::Reuse,
            FixturePhase::Removed => Provision::Gone,
        }
    }

    /// Gives the environment back at the end of the run. `true` asks the
    /// caller to remove the scratch directory.
    pub fn release(&mut self) -> (remove: bool)
        ensures
            (final(self)@, remove) == released(old(self)@),
    {
        match self.phase {
            FixturePhase::Ready => {
                self.phase = FixturePhase::Removed;
                true
            },
            _ => false,
        }
    }
}

} // verus!
