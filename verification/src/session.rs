//! The interactive session driver, as a state machine.
//!
//! A session is one conversation with one spawned process. The embedding
//! program owns the process and its channel; after every read attempt it
//! reports what it saw as an [`Observation`], and the session decides: keep
//! polling, matched, timed out, or the process went away. Lines to send come
//! back as the exact bytes to write.

use crate::bytes::append_bytes;
use crate::text::{decode_lossy, lossy_text};
use crate::search::{find, first_match, is_first_match, lemma_first_match};
use vstd::prelude::*;
use vstd::slice::slice_to_vec;
use vstd::string::StringSliceAdditionalSpecFns;

verus! {

/// The bound on a wait that a new session starts with, in milliseconds.
pub const DEFAULT_WAIT_TIMEOUT_MS: u64 = 1000;

/// How the process is attached.
#[derive(Clone, Copy, Debug, PartialEq, Eq, Structural)]
pub enum Channel {
    /// A pseudo-terminal: the process believes it talks to a real terminal.
    Pty,
    /// Plain redirected standard input and output.
    Pipe,
}

/// Where a session stands in its life.
#[derive(Clone, Copy, Debug, PartialEq, Eq, Structural)]
pub enum Phase {
    /// Described, process not yet spawned.
    Created,
    /// Process spawned; sends and waits are accepted.
    Running,
    /// A wait ran out of time. The process may still be alive.
    TimedOut,
    /// The process went away while a pattern was still awaited.
    UnexpectedExit,
    /// The conversation is over: exit was awaited and seen, or the owner
    /// tore the session down.
    Terminated,
}

/// Why an operation was refused.
#[derive(Clone, Copy, Debug, PartialEq, Eq, Structural)]
pub enum SessionError {
    /// The session is not in [`Phase::Running`].
    NotRunning,
    /// `start` on a session that has left [`Phase::Created`].
    AlreadyStarted,
}

/// How a pattern wait ended.
#[derive(Clone, Copy, Debug, PartialEq, Eq, Structural)]
pub enum WaitOutcome {
    /// The pattern was found; `position` is the index of its first byte in
    /// the output that had not been consumed when it was found.
    Matched { position: usize },
    /// The bound elapsed first.
    TimedOut,
    /// The process closed its output first.
    UnexpectedExit,
}

/// How a wait for process exit ended.
#[derive(Clone, Copy, Debug, PartialEq, Eq, Structural)]
pub enum ExitOutcome {
    /// The process closed its output.
    Exited,
    /// The bound elapsed first.
    TimedOut,
}

/// What one read attempt on the channel showed.
#[derive(Debug, PartialEq, Eq)]
pub struct Observation {
    /// Bytes that arrived, possibly none.
    pub data: Vec<u8>,
    /// The channel reported end of output.
    pub closed: bool,
    /// Milliseconds since the current wait began.
    pub elapsed_ms: u64,
}

/// An [`Observation`] as contracts see it.
pub struct ObservationView {
    pub data: Seq<u8>,
    pub closed: bool,
    pub elapsed_ms: u64,
}

impl View for Observation {
    type V = ObservationView;

    open spec fn view(&self) -> ObservationView {
        ObservationView { data: self.data@, closed: self.closed, elapsed_ms: self.elapsed_ms }
    }
}

/// The views of a run of observations, in order.
pub open spec fn observation_views(run: Seq<Observation>) -> Seq<ObservationView> {
    Seq::new(run.len(), |i: int| run[i]@)
}

/// The mathematical state of a session.
pub struct SessionView {
    pub command: Seq<char>,
    pub channel: Channel,
    pub phase: Phase,
    /// Output received and not yet consumed by a match.
    pub pending: Seq<u8>,
    /// Every byte received so far, if a transcript is kept.
    pub transcript: Option<Seq<u8>>,
    pub timeout_ms: u64,
}

impl SessionView {
    /// A session as `open` makes it.
    pub open spec fn initial(command: Seq<char>, channel: Channel, keep_transcript: bool) -> Self {
        SessionView {
            command,
            channel,
            phase: Phase::Created,
            pending: Seq::empty(),
            transcript: if keep_transcript {
                Some(Seq::empty())
            } else {
                None
            },
            timeout_ms: DEFAULT_WAIT_TIMEOUT_MS,
        }
    }

    /// The unconsumed output is the tail of what the transcript recorded.
    pub open spec fn well_formed(self) -> bool {
        self.transcript matches Some(t) ==> {
            &&& self.pending.len() <= t.len()
            &&& t.subrange(t.len() - self.pending.len(), t.len() as int) == self.pending
        }
    }

    /// The session has seen its process go away, or was torn down.
    pub open spec fn exit_observed(self) -> bool {
        self.phase == Phase::UnexpectedExit || self.phase == Phase::Terminated
    }

    /// Newly arrived bytes join the unconsumed output and the transcript.
    pub open spec fn absorb(self, data: Seq<u8>) -> Self {
        SessionView {
            pending: self.pending + data,
            transcript: match self.transcript {
                Some(t) => Some(t + data),
                None => None,
            },
            ..self
        }
    }

    /// The same session in another phase.
    pub open spec fn with_phase(self, phase: Phase) -> Self {
        SessionView { phase, ..self }
    }

    /// Only a session that was just created can be started.
    pub open spec fn start(self) -> (Self, Result<(), SessionError>) {
        if self.phase == Phase::Created {
            (self.with_phase(Phase::Running), Ok(()))
        } else {
            (self, Err(SessionError::AlreadyStarted))
        }
    }

    /// The bytes that sending `text` as a line puts on the wire.
    pub open spec fn send_line(self, text: Seq<u8>) -> Result<Seq<u8>, SessionError> {
        if self.phase == Phase::Running {
            Ok(text.push(0x0au8))
        } else {
            Err(SessionError::NotRunning)
        }
    }

    /// The bytes that a raw write puts on the wire: the very same.
    pub open spec fn write_raw(self, bytes: Seq<u8>) -> Result<Seq<u8>, SessionError> {
        if self.phase == Phase::Running {
            Ok(bytes)
        } else {
            Err(SessionError::NotRunning)
        }
    }

    /// What is said when a wait for `pattern` has failed: everything the
    /// process has written so far under a heading, then the pattern that
    /// did not show. Without a transcript the heading stands alone.
    pub open spec fn failure_report(self, pattern: Seq<char>) -> Seq<Seq<char>> {
        seq![
            match self.transcript {
                Some(t) => "Session logs at time of failure:\n"@ + lossy_text(t),
                None => "Session logs at time of failure:\n"@,
            },
            "Failed to find expected pattern: "@ + pattern,
        ]
    }

    /// One step of a pattern wait. A match is looked for first, in all the
    /// unconsumed output including what this observation brought; only
    /// without one does a closed channel count, and only then the clock.
    pub open spec fn wait_step(self, pattern: Seq<u8>, obs: ObservationView) -> (
        Self,
        Result<Option<WaitOutcome>, SessionError>,
    ) {
        if self.phase != Phase::Running {
            (self, Err(SessionError::NotRunning))
        } else {
            let fed = self.absorb(obs.data);
            match first_match(fed.pending, pattern) {
                Some(p) => (
                    SessionView { pending: fed.pending.skip(p + pattern.len()), ..fed },
                    Ok(Some(WaitOutcome::Matched { position: p as usize })),
                ),
                None => if obs.closed {
                    (fed.with_phase(Phase::UnexpectedExit), Ok(Some(WaitOutcome::UnexpectedExit)))
                } else if obs.elapsed_ms >= fed.timeout_ms {
                    (fed.with_phase(Phase::TimedOut), Ok(Some(WaitOutcome::TimedOut)))
                } else {
                    (fed, Ok(None))
                },
            }
        }
    }

    /// One step of a wait for process exit. Output that still arrives is
    /// recorded; at exit nothing is left unconsumed.
    pub open spec fn exit_step(self, obs: ObservationView) -> (
        Self,
        Result<Option<ExitOutcome>, SessionError>,
    ) {
        if self.phase != Phase::Running {
            (self, Err(SessionError::NotRunning))
        } else {
            let fed = self.absorb(obs.data);
            if obs.closed {
                (
                    SessionView { pending: Seq::empty(), phase: Phase::Terminated, ..fed },
                    Ok(Some(ExitOutcome::Exited)),
                )
            } else if obs.elapsed_ms >= fed.timeout_ms {
                (fed.with_phase(Phase::TimedOut), Ok(Some(ExitOutcome::TimedOut)))
            } else {
                (fed, Ok(None))
            }
        }
    }
}

/// A pattern wait decided over a recorded run of observations, taken in
/// order until one decides. The result is the state reached, what the wait
/// came to (`Ok(None)`: the run ended undecided), and how many observations
/// were taken. A session that is not running takes none.
pub open spec fn wait_run(s: SessionView, pattern: Seq<u8>, run: Seq<ObservationView>) -> (
    SessionView,
    Result<Option<WaitOutcome>, SessionError>,
    nat,
)
    decreases run.len(),
{
    if s.phase != Phase::Running {
        (s, Err(SessionError::NotRunning), 0)
    } else if run.len() == 0 {
        (s, Ok(None), 0)
    } else {
        let (next, r) = s.wait_step(pattern, run[0]);
        if r == Ok::<Option<WaitOutcome>, SessionError>(None) {
            let rest = wait_run(next, pattern, run.drop_first());
            (rest.0, rest.1, rest.2 + 1)
        } else {
            (next, r, 1)
        }
    }
}

/// A wait for exit decided over a recorded run of observations, as
/// [`wait_run`] does for a pattern.
pub open spec fn exit_run(s: SessionView, run: Seq<ObservationView>) -> (
    SessionView,
    Result<Option<ExitOutcome>, SessionError>,
    nat,
)
    decreases run.len(),
{
    if s.phase != Phase::Running {
        (s, Err(SessionError::NotRunning), 0)
    } else if run.len() == 0 {
        (s, Ok(None), 0)
    } else {
        let (next, r) = s.exit_step(run[0]);
        if r == Ok::<Option<ExitOutcome>, SessionError>(None) {
            let rest = exit_run(next, run.drop_first());
            (rest.0, rest.1, rest.2 + 1)
        } else {
            (next, r, 1)
        }
    }
}

/// What a wait over a recorded run came to.
#[derive(Clone, Copy, Debug, PartialEq, Eq)]
pub struct WaitReport {
    /// The outcome; `Ok(None)` if the run ended before the wait was decided.
    pub result: Result<Option<WaitOutcome>, SessionError>,
    /// How many observations of the run were taken.
    pub used: usize,
}

/// What a wait for exit over a recorded run came to.
#[derive(Clone, Copy, Debug, PartialEq, Eq)]
pub struct ExitReport {
    /// The outcome; `Ok(None)` if the run ended before the wait was decided.
    pub result: Result<Option<ExitOutcome>, SessionError>,
    /// How many observations of the run were taken.
    pub used: usize,
}

/// One conversation with one spawned process.
pub struct Session {
    command: String,
    channel: Channel,
    phase: Phase,
    pending: Vec<u8>,
    keep_transcript: bool,
    recorded: Vec<u8>,
    timeout_ms: u64,
}

impl View for Session {
    type V = SessionView;

    closed spec fn view(&self) -> SessionView {
        SessionView {
            command: self.command@,
            channel: self.channel,
            phase: self.phase,
            pending: self.pending@,
            transcript: if self.keep_transcript {
                Some(self.recorded@)
            } else {
                None
            },
            timeout_ms: self.timeout_ms,
        }
    }
}

impl Session {
    /// Describes a session for `command`. Nothing is spawned: the session
    /// starts in [`Phase::Created`] with the default wait bound, and keeps a
    /// transcript of everything received if `keep_transcript` is set.
    pub fn open(command: &str, channel: Channel, keep_transcript: bool) -> (s: Session)
        ensures
            s@ == SessionView::initial(command@, channel, keep_transcript),
    {
        Session {
            command: command.to_owned(),
            channel,
            phase: Phase::Created,
            pending: Vec::new(),
            keep_transcript,
            recorded: Vec::new(),
            timeout_ms: DEFAULT_WAIT_TIMEOUT_MS,
        }
    }

    /// The phase the session is in.
    pub fn phase(&self) -> (phase: Phase)
        ensures
            phase == self@.phase,
    {
        self.phase
    }

    /// Whether sends and waits are accepted.
    pub fn is_running(&self) -> (yes: bool)
        ensures
            yes == (self@.phase == Phase::Running),
    {
        self.phase == Phase::Running
    }

    /// Whether the process is known to be gone or the session torn down.
    pub fn exit_observed(&self) -> (yes: bool)
        ensures
            yes == self@.exit_observed(),
    {
        self.phase == Phase::UnexpectedExit || self.phase == Phase::Terminated
    }

    /// How the process is attached.
    pub fn channel(&self) -> (channel: Channel)
        ensures
            channel == self@.channel,
    {
        self.channel
    }

    /// The command the session was opened for.
    pub fn command(&self) -> (command: &str)
        ensures
            command@ == self@.command,
    {
        self.command.as_str()
    }

    /// The bound on a wait, in milliseconds.
    pub fn wait_timeout_ms(&self) -> (millis: u64)
        ensures
            millis == self@.timeout_ms,
    {
        self.timeout_ms
    }

    /// The output received and not yet consumed by a match.
    pub fn pending(&self) -> (bytes: &[u8])
        ensures
            bytes@ == self@.pending,
    {
        self.pending.as_slice()
    }

    /// Everything received so far, if a transcript is kept.
    pub fn transcript(&self) -> (r: Option<&[u8]>)
        ensures
            match r {
                Some(bytes) => self@.transcript == Some(bytes@),
                None => self@.transcript is None,
            },
    {
        if self.keep_transcript {
            Some(self.recorded.as_slice())
        } else {
            None
        }
    }

    /// The lines to show when a wait for `pattern` has failed.
    pub fn failure_report(&self, pattern: &str) -> (lines: Vec<String>)
        ensures
            lines@.len() == 2,
            lines@[0]@ == self@.failure_report(pattern@)[0],
            lines@[1]@ == self@.failure_report(pattern@)[1],
    {
        let mut logs = String::from_str("Session logs at time of failure:\n");
        if self.keep_transcript {
            let text = decode_lossy(self.recorded.as_slice());
            logs.append(text.as_str());
        }
        let mut missing = String::from_str("Failed to find expected pattern: ");
        missing.append(pattern);
        let mut lines: Vec<String> = Vec::new();
        lines.push(logs);
        lines.push(missing);
        lines
    }

    /// Records that the process has been spawned.
    pub fn start(&mut self) -> (r: Result<(), SessionError>)
        ensures
            (final(self)@, r) == old(self)@.start(),
    {
        if self.phase == Phase::Created {
            self.phase = Phase::Running;
            Ok(())
        } else {
            Err(SessionError::AlreadyStarted)
        }
    }

    /// Sets the bound for all later waits on this session.
    pub fn set_wait_timeout(&mut self, millis: u64)
        ensures
            final(self)@ == (SessionView { timeout_ms: millis, ..old(self)@ }),
    {
        self.timeout_ms = millis;
    }

    /// The bytes to write so that the process reads `text` as one line.
    pub fn send_line(&self, text: &str) -> (r: Result<Vec<u8>, SessionError>)
        ensures
            match r {
                Ok(bytes) => self@.send_line(text.spec_bytes()) == Ok::<Seq<u8>, SessionError>(
                    bytes@,
                ),
                Err(e) => self@.send_line(text.spec_bytes()) == Err::<Seq<u8>, SessionError>(e),
            },
    {
        if self.phase == Phase::Running {
            let mut bytes = slice_to_vec(text.as_bytes());
            bytes.push(0x0au8);
            Ok(bytes)
        } else {
            Err(SessionError::NotRunning)
        }
    }

    /// The bytes to write for `bytes`, with nothing added.
    pub fn write_raw(&self, bytes: &[u8]) -> (r: Result<Vec<u8>, SessionError>)
        ensures
            match r {
                Ok(out) => self@.write_raw(bytes@) == Ok::<Seq<u8>, SessionError>(out@),
                Err(e) => self@.write_raw(bytes@) == Err::<Seq<u8>, SessionError>(e),
            },
    {
        if self.phase == Phase::Running {
            Ok(slice_to_vec(bytes))
        } else {
            Err(SessionError::NotRunning)
        }
    }

    fn absorb(&mut self, data: &[u8])
        ensures
            final(self)@ == old(self)@.absorb(data@),
    {
        append_bytes(&mut self.pending, data);
        if self.keep_transcript {
            append_bytes(&mut self.recorded, data);
        }
    }

    /// Decides one step of a wait for `pattern`, given what the latest read
    /// attempt showed. `Ok(None)` asks for another read.
    pub fn poll_wait(&mut self, pattern: &str, obs: &Observation) -> (r: Result<
        Option<WaitOutcome>,
        SessionError,
    >)
        ensures
            (final(self)@, r) == old(self)@.wait_step(pattern.spec_bytes(), obs@),
    {
        if self.phase != Phase::Running {
            return Err(SessionError::NotRunning);
        }
        self.absorb(obs.data.as_slice());
        let needle = pattern.as_bytes();
        proof {
            lemma_first_match(self.pending@, needle@);
        }
        match find(self.pending.as_slice(), needle) {
            Some(p) => {
                assert(is_first_match(self.pending@, needle@, p as int));
                assert(p + needle@.len() <= self.pending.len());
                let rest = self.pending.split_off(p + needle.len());
                self.pending = rest;
                Ok(Some(WaitOutcome::Matched { position: p }))
            },
            None => {
                if obs.closed {
                    self.phase = Phase::UnexpectedExit;
                    Ok(Some(WaitOutcome::UnexpectedExit))
                } else if obs.elapsed_ms >= self.timeout_ms {
                    self.phase = Phase::TimedOut;
                    Ok(Some(WaitOutcome::TimedOut))
                } else {
                    Ok(None)
                }
            },
        }
    }

    /// Decides one step of a wait for the process to exit. `Ok(None)` asks
    /// for another read.
    pub fn poll_exit(&mut self, obs: &Observation) -> (r: Result<Option<ExitOutcome>, SessionError>)
        ensures
            (final(self)@, r) == old(self)@.exit_step(obs@),
    {
        if self.phase != Phase::Running {
            return Err(SessionError::NotRunning);
        }
        self.absorb(obs.data.as_slice());
        if obs.closed {
            self.pending = Vec::new();
            self.phase = Phase::Terminated;
            Ok(Some(ExitOutcome::Exited))
        } else if obs.elapsed_ms >= self.timeout_ms {
            self.phase = Phase::TimedOut;
            Ok(Some(ExitOutcome::TimedOut))
        } else {
            Ok(None)
        }
    }

    /// Decides a wait for `pattern` over a recorded run of observations:
    /// they are taken in order until one decides the wait.
    pub fn wait_for(&mut self, pattern: &str, run: &[Observation]) -> (report: WaitReport)
        ensures
            (final(self)@, report.result, report.used as nat) == wait_run(
                old(self)@,
                pattern.spec_bytes(),
                observation_views(run@),
            ),
    {
        let ghost start = self@;
        let ghost needle = pattern.spec_bytes();
        let ghost views = observation_views(run@);
        if self.phase != Phase::Running {
            return WaitReport { result: Err(SessionError::NotRunning), used: 0 };
        }
        let mut i: usize = 0;
        assert(views.skip(0) =~= views);
        while i < run.len()
            invariant
                i <= run.len(),
                start == old(self)@,
                self@.phase == Phase::Running,
                needle == pattern.spec_bytes(),
                views == observation_views(run@),
                ({
                    let rest = wait_run(self@, needle, views.skip(i as int));
                    wait_run(start, needle, views) == (rest.0, rest.1, (rest.2 + i) as nat)
                }),
            decreases run.len() - i,
        {
            proof {
                let tail = views.skip(i as int);
                assert(tail.len() > 0);
                assert(tail[0] == run[i as int]@);
                assert(tail.drop_first() =~= views.skip(i + 1));
                let step = self@.wait_step(needle, tail[0]);
                let rest = wait_run(step.0, needle, tail.drop_first());
                assert(wait_run(self@, needle, tail) == if step.1 == Ok::<
                    Option<WaitOutcome>,
                    SessionError,
                >(None) {
                    (rest.0, rest.1, rest.2 + 1)
                } else {
                    (step.0, step.1, 1nat)
                });
            }
            let r = self.poll_wait(pattern, &run[i]);
            match r {
                Ok(None) => {
                    i += 1;
                },
                _ => {
                    return WaitReport { result: r, used: i + 1 };
                },
            }
        }
        assert(views.skip(i as int).len() == 0);
        WaitReport { result: Ok(None), used: i }
    }

    /// Decides a wait for process exit over a recorded run of observations:
    /// they are taken in order until one decides the wait.
    pub fn wait_for_exit(&mut self, run: &[Observation]) -> (report: ExitReport)
        ensures
            (final(self)@, report.result, report.used as nat) == exit_run(
                old(self)@,
                observation_views(run@),
            ),
    {
        let ghost start = self@;
        let ghost views = observation_views(run@);
        if self.phase != Phase::Running {
            return ExitReport { result: Err(SessionError::NotRunning), used: 0 };
        }
        let mut i: usize = 0;
        assert(views.skip(0) =~= views);
        while i < run.len()
            invariant
                i <= run.len(),
                start == old(self)@,
                self@.phase == Phase::Running,
                views == observation_views(run@),
                ({
                    let rest = exit_run(self@, views.skip(i as int));
                    exit_run(start, views) == (rest.0, rest.1, (rest.2 + i) as nat)
                }),
            decreases run.len() - i,
        {
            proof {
                let tail = views.skip(i as int);
                assert(tail.len() > 0);
                assert(tail[0] == run[i as int]@);
                assert(tail.drop_first() =~= views.skip(i + 1));
                let step = self@.exit_step(tail[0]);
                let rest = exit_run(step.0, tail.drop_first());
                assert(exit_run(self@, tail) == if step.1 == Ok::<
                    Option<ExitOutcome>,
                    SessionError,
                >(None) {
                    (rest.0, rest.1, rest.2 + 1)
                } else {
                    (step.0, step.1, 1nat)
                });
            }
            let r = self.poll_exit(&run[i]);
            match r {
                Ok(None) => {
                    i += 1;
                },
                _ => {
                    return ExitReport { result: r, used: i + 1 };
                },
            }
        }
        assert(views.skip(i as int).len() == 0);
        ExitReport { result: Ok(None), used: i }
    }

    /// Tears the session down, whatever its phase.
    pub fn terminate(&mut self)
        ensures
            final(self)@ == old(self)@.with_phase(Phase::Terminated),
    {
        self.phase = Phase::Terminated;
    }
}

} // verus!
