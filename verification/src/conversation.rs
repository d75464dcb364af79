//! A scripted conversation in progress: a session, a script, and how far
//! the script has come.
//!
//! The owner of the process asks for the next action, performs it, and
//! reports what a read showed. The same decisions, taken over a recorded
//! run of observations, replay a conversation without any process.

use crate::script::{script_views, ScriptStep, ScriptStepView};
use crate::session::{
    observation_views, ExitOutcome, Observation, ObservationView, Phase, Session, SessionError,
    SessionView, WaitOutcome,
};
use vstd::prelude::*;
use vstd::utf8::encode_utf8;

verus! {

/// Why a conversation stopped short of its end.
#[derive(Clone, Copy, Debug, PartialEq, Eq, Structural)]
pub enum Failure {
    /// The session refused the step.
    Refused(SessionError),
    /// The awaited output did not show within the bound.
    TimedOut,
    /// The process went away while output was awaited.
    UnexpectedExit,
}

/// What the owner of the process is to do next.
#[derive(Debug, PartialEq, Eq)]
pub enum Action {
    /// Write these bytes to the process, then ask again.
    Write(Vec<u8>),
    /// Read from the process, report what the read showed, then ask again.
    Read,
    /// Every step is done.
    Finished,
    /// The conversation has failed; nothing more is to be done.
    Failed(Failure),
}

/// An [`Action`] as contracts see it.
pub enum ActionView {
    Write(Seq<u8>),
    Read,
    Finished,
    Failed(Failure),
}

impl View for Action {
    type V = ActionView;

    open spec fn view(&self) -> ActionView {
        match self {
            Action::Write(bytes) => ActionView::Write(bytes@),
            Action::Read => ActionView::Read,
            Action::Finished => ActionView::Finished,
            Action::Failed(failure) => ActionView::Failed(*failure),
        }
    }
}

/// The mathematical state of a conversation.
pub struct ConversationView {
    pub session: SessionView,
    pub steps: Seq<ScriptStepView>,
    /// How many steps are done.
    pub next: nat,
    pub failure: Option<Failure>,
}

impl ConversationView {
    /// A conversation as `new` makes it.
    pub open spec fn initial(session: SessionView, steps: Seq<ScriptStepView>) -> Self {
        ConversationView { session, steps, next: 0, failure: None }
    }

    /// Every step is done and none has failed.
    pub open spec fn finished(self) -> bool {
        self.failure is None && self.next >= self.steps.len()
    }

    /// The current step is a wait, and the session can serve it.
    pub open spec fn awaiting(self) -> bool {
        &&& self.failure is None
        &&& self.next < self.steps.len()
        &&& self.session.phase == Phase::Running
        &&& (self.steps[self.next as int] is Expect || self.steps[self.next as int] is ExpectExit)
    }

    /// The same conversation, failed.
    pub open spec fn failed_with(self, failure: Failure) -> Self {
        ConversationView { failure: Some(failure), ..self }
    }

    /// The same conversation with one more step done.
    pub open spec fn advanced(self) -> Self {
        ConversationView { next: self.next + 1, ..self }
    }

    /// What is to be done next, and the state after deciding so. A send
    /// is decided and done with in one go; a wait stays the current step
    /// until an observation settles it.
    pub open spec fn next_action(self) -> (Self, ActionView) {
        if let Some(failure) = self.failure {
            (self, ActionView::Failed(failure))
        } else if self.next >= self.steps.len() {
            (self, ActionView::Finished)
        } else {
            match self.steps[self.next as int] {
                ScriptStepView::SendLine(text) => match self.session.send_line(encode_utf8(text)) {
                    Ok(bytes) => (self.advanced(), ActionView::Write(bytes)),
                    Err(e) => (
                        self.failed_with(Failure::Refused(e)),
                        ActionView::Failed(Failure::Refused(e)),
                    ),
                },
                ScriptStepView::WriteRaw(raw) => match self.session.write_raw(raw) {
                    Ok(bytes) => (self.advanced(), ActionView::Write(bytes)),
                    Err(e) => (
                        self.failed_with(Failure::Refused(e)),
                        ActionView::Failed(Failure::Refused(e)),
                    ),
                },
                _ => if self.session.phase == Phase::Running {
                    (self, ActionView::Read)
                } else {
                    (
                        self.failed_with(Failure::Refused(SessionError::NotRunning)),
                        ActionView::Failed(Failure::Refused(SessionError::NotRunning)),
                    )
                },
            }
        }
    }

    /// The state after a read showed `obs`. Only a conversation that is
    /// waiting takes an observation; any other is left as it is.
    pub open spec fn observe(self, obs: ObservationView) -> Self {
        if !self.awaiting() {
            self
        } else {
            match self.steps[self.next as int] {
                ScriptStepView::Expect(pattern) => {
                    let (session, r) = self.session.wait_step(encode_utf8(pattern), obs);
                    let fed = ConversationView { session, ..self };
                    match r {
                        Ok(Some(WaitOutcome::Matched { .. })) => fed.advanced(),
                        Ok(Some(WaitOutcome::TimedOut)) => fed.failed_with(Failure::TimedOut),
                        Ok(Some(WaitOutcome::UnexpectedExit)) => fed.failed_with(
                            Failure::UnexpectedExit,
                        ),
                        Ok(None) => fed,
                        Err(e) => fed.failed_with(Failure::Refused(e)),
                    }
                },
                _ => {
                    let (session, r) = self.session.exit_step(obs);
                    let fed = ConversationView { session, ..self };
                    match r {
                        Ok(Some(ExitOutcome::Exited)) => fed.advanced(),
                        Ok(Some(ExitOutcome::TimedOut)) => fed.failed_with(Failure::TimedOut),
                        Ok(None) => fed,
                        Err(e) => fed.failed_with(Failure::Refused(e)),
                    }
                },
            }
        }
    }
}

/// How a replay ended.
#[derive(Clone, Copy, Debug, PartialEq, Eq, Structural)]
pub enum ReplayEnd {
    /// Every step was done.
    Finished,
    /// A step failed.
    Failed(Failure),
    /// The recorded run ended while output was still awaited.
    Undecided,
}

/// A conversation replayed over a recorded run: actions are decided one
/// after the other, every read is served with the next observation. The
/// result is the state reached, all writes in order behind those given in
/// `writes`, the number of observations taken, and how the replay ended.
pub open spec fn replayed(
    c: ConversationView,
    run: Seq<ObservationView>,
    writes: Seq<Seq<u8>>,
) -> (ConversationView, Seq<Seq<u8>>, nat, ReplayEnd)
    decreases
            (if c.next <= c.steps.len() {
                c.steps.len() - c.next
            } else {
                0
            }) + run.len(),
{
    let (decided, action) = c.next_action();
    match action {
        ActionView::Write(bytes) => replayed(decided, run, writes.push(bytes)),
        ActionView::Read => if run.len() == 0 {
            (decided, writes, 0, ReplayEnd::Undecided)
        } else {
            let rest = replayed(decided.observe(run[0]), run.drop_first(), writes);
            (rest.0, rest.1, rest.2 + 1, rest.3)
        },
        ActionView::Finished => (decided, writes, 0, ReplayEnd::Finished),
        ActionView::Failed(failure) => (decided, writes, 0, ReplayEnd::Failed(failure)),
    }
}

/// A scripted conversation in progress.
pub struct Conversation {
    session: Session,
    steps: Vec<ScriptStep>,
    next: usize,
    failure: Option<Failure>,
}

impl View for Conversation {
    type V = ConversationView;

    closed spec fn view(&self) -> ConversationView {
        ConversationView {
            session: self.session@,
            steps: script_views(self.steps@),
            next: self.next as nat,
            failure: self.failure,
        }
    }
}

/// What a replay came to.
#[derive(Debug, PartialEq, Eq)]
pub struct Replay {
    /// Everything that was to be written, in order.
    pub writes: Vec<Vec<u8>>,
    /// How many observations of the run were taken.
    pub used: usize,
    pub end: ReplayEnd,
}

/// The views of a list of byte strings, in order.
pub open spec fn byte_views(items: Seq<Vec<u8>>) -> Seq<Seq<u8>> {
    Seq::new(items.len(), |i: int| items[i]@)
}

impl Conversation {
    /// A conversation that will take `session` through `steps`.
    pub fn new(session: Session, steps: Vec<ScriptStep>) -> (c: Conversation)
        ensures
            c@ == ConversationView::initial(session@, script_views(steps@)),
    {
        Conversation { session, steps, next: 0, failure: None }
    }

    /// The session of this conversation.
    pub fn session(&self) -> (session: &Session)
        ensures
            session@ == self@.session,
    {
        &self.session
    }

    /// How many steps are done.
    pub fn position(&self) -> (done: usize)
        ensures
            done == self@.next,
    {
        self.next
    }

    /// Why the conversation failed, if it has.
    pub fn failure(&self) -> (failure: Option<Failure>)
        ensures
            failure == self@.failure,
    {
        self.failure
    }

    /// Whether every step is done and none has failed.
    pub fn is_finished(&self) -> (yes: bool)
        ensures
            yes == self@.finished(),
    {
        self.failure.is_none() && self.next >= self.steps.len()
    }

    /// The literal that the current step waits for, if it waits for one.
    pub fn awaited_pattern(&self) -> (r: Option<&str>)
        ensures
            match r {
                Some(pattern) => self@.next < self@.steps.len() && self@.steps[self@.next as int]
                    == ScriptStepView::Expect(pattern@),
                None => !(self@.next < self@.steps.len() && self@.steps[self@.next as int]
                    is Expect),
            },
    {
        if self.next < self.steps.len() {
            match &self.steps[self.next] {
                ScriptStep::Expect(pattern) => Some(pattern.as_str()),
                _ => None,
            }
        } else {
            None
        }
    }

    fn fail(&mut self, failure: Failure) -> (action: Action)
        ensures
            final(self)@ == old(self)@.failed_with(failure),
            action@ == ActionView::Failed(failure),
    {
        self.failure = Some(failure);
        Action::Failed(failure)
    }

    /// Decides what is to be done next.
    pub fn next_action(&mut self) -> (action: Action)
        ensures
            (final(self)@, action@) == old(self)@.next_action(),
    {
        if let Some(failure) = self.failure {
            return Action::Failed(failure);
        }
        if self.next >= self.steps.len() {
            return Action::Finished;
        }
        let sent = match &self.steps[self.next] {
            ScriptStep::SendLine(text) => self.session.send_line(text.as_str()),
            ScriptStep::WriteRaw(raw) => self.session.write_raw(raw.as_slice()),
            _ => {
                if self.session.is_running() {
                    return Action::Read;
                } else {
                    return self.fail(Failure::Refused(SessionError::NotRunning));
                }
            },
        };
        match sent {
            Ok(bytes) => {
                self.next = self.next + 1;
                Action::Write(bytes)
            },
            Err(e) => self.fail(Failure::Refused(e)),
        }
    }

    /// Takes in what a read showed.
    pub fn observe(&mut self, obs: &Observation)
        ensures
            final(self)@ == old(self)@.observe(obs@),
    {
        if self.failure.is_some() || self.next >= self.steps.len() || !self.session.is_running() {
            return ;
        }
        let settled = match &self.steps[self.next] {
            ScriptStep::Expect(pattern) => {
                match self.session.poll_wait(pattern.as_str(), obs) {
                    Ok(Some(WaitOutcome::Matched { position: _ })) => Ok(true),
                    Ok(Some(WaitOutcome::TimedOut)) => Err(Failure::TimedOut),
                    Ok(Some(WaitOutcome::UnexpectedExit)) => Err(Failure::UnexpectedExit),
                    Ok(None) => Ok(false),
                    Err(e) => Err(Failure::Refused(e)),
                }
            },
            ScriptStep::ExpectExit => {
                match self.session.poll_exit(obs) {
                    Ok(Some(ExitOutcome::Exited)) => Ok(true),
                    Ok(Some(ExitOutcome::TimedOut)) => Err(Failure::TimedOut),
                    Ok(None) => Ok(false),
                    Err(e) => Err(Failure::Refused(e)),
                }
            },
            _ => {
                return ;
            },
        };
        match settled {
            Ok(true) => {
                self.next = self.next + 1;
            },
            Ok(false) => {},
            Err(failure) => {
                self.failure = Some(failure);
            },
        }
    }

    /// Replays the conversation over a recorded run of observations.
    pub fn replay(&mut self, run: &[Observation]) -> (replay: Replay)
        ensures
            (final(self)@, byte_views(replay.writes@), replay.used as nat, replay.end) == replayed(
                old(self)@,
                observation_views(run@),
                Seq::empty(),
            ),
    {
        let ghost start = self@;
        let ghost views = observation_views(run@);
        let mut writes: Vec<Vec<u8>> = Vec::new();
        let mut used: usize = 0;
        proof {
            assert(views.skip(0) =~= views);
            assert(byte_views(writes@) =~= Seq::<Seq<u8>>::empty());
        }
        loop
            invariant
                used <= run.len(),
                start == old(self)@,
                views == observation_views(run@),
                ({
                    let rest = replayed(self@, views.skip(used as int), byte_views(writes@));
                    replayed(start, views, Seq::empty()) == (
                        rest.0,
                        rest.1,
                        (rest.2 + used) as nat,
                        rest.3,
                    )
                }),
            decreases
                    (if self.next <= self.steps.len() {
                        self.steps.len() - self.next
                    } else {
                        0
                    }) + (run.len() - used),
        {
            let ghost before = self@;
            let ghost before_writes = byte_views(writes@);
            let action = self.next_action();
            match action {
                Action::Write(bytes) => {
                    proof {
                        assert(byte_views(writes@.push(bytes)) =~= before_writes.push(bytes@));
                    }
                    writes.push(bytes);
                },
                Action::Read => {
                    if used >= run.len() {
                        assert(views.skip(used as int).len() == 0);
                        return Replay { writes, used, end: ReplayEnd::Undecided };
                    }
                    proof {
                        let tail = views.skip(used as int);
                        assert(tail[0] == run[used as int]@);
                        assert(tail.drop_first() =~= views.skip(used + 1));
                    }
                    self.observe(&run[used]);
                    used = used + 1;
                },
                Action::Finished => {
                    return Replay { writes, used, end: ReplayEnd::Finished };
                },
                Action::Failed(failure) => {
                    return Replay { writes, used, end: ReplayEnd::Failed(failure) };
                },
            }
        }
    }
}

} // verus!
