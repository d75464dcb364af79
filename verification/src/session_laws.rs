//! What holds of every session, whatever the process does.

use crate::search::{
    first_match, is_first_match, lemma_first_match, lemma_first_match_stable,
    lemma_occurs_in_extension, occurs,
};
use crate::session::{
    exit_run, wait_run, Channel, ExitOutcome, ObservationView, Phase, SessionError, SessionView,
    WaitOutcome, DEFAULT_WAIT_TIMEOUT_MS,
};
use vstd::prelude::*;

verus! {

/// All output that the first `n` observations of a run brought, in order.
pub open spec fn output_of(run: Seq<ObservationView>, n: int) -> Seq<u8>
    decreases n,
{
    if n <= 0 {
        Seq::empty()
    } else {
        output_of(run, n - 1) + run[n - 1].data
    }
}

proof fn lemma_output_of_shift(run: Seq<ObservationView>, n: int)
    requires
        0 <= n < run.len(),
    ensures
        output_of(run, n + 1) == run[0].data + output_of(run.drop_first(), n),
    decreases n,
{
    if n == 0 {
        assert(output_of(run, 1) == output_of(run, 0) + run[0].data);
        assert(output_of(run, 0) + run[0].data =~= run[0].data + output_of(run.drop_first(), 0));
    } else {
        lemma_output_of_shift(run, n - 1);
        assert(run.drop_first()[n - 1] == run[n]);
        assert(output_of(run, n + 1) == output_of(run, n) + run[n].data);
        assert(output_of(run.drop_first(), n) == output_of(run.drop_first(), n - 1)
            + run.drop_first()[n - 1].data);
        assert(output_of(run, n + 1) =~= run[0].data + output_of(run.drop_first(), n));
    }
}

/// A new session is well formed, waits at most a second, and is not yet
/// running.
pub proof fn lemma_open_is_well_formed(
    command: Seq<char>,
    channel: Channel,
    keep_transcript: bool,
)
    ensures
        SessionView::initial(command, channel, keep_transcript).well_formed(),
        SessionView::initial(command, channel, keep_transcript).phase == Phase::Created,
        SessionView::initial(command, channel, keep_transcript).timeout_ms
            == DEFAULT_WAIT_TIMEOUT_MS,
        DEFAULT_WAIT_TIMEOUT_MS == 1000,
{
    let s = SessionView::initial(command, channel, keep_transcript);
    if keep_transcript {
        assert(s.transcript->0.subrange(0, 0) =~= s.pending);
    }
}

/// Every transition keeps the unconsumed output a tail of the transcript.
pub proof fn lemma_steps_keep_well_formed(
    s: SessionView,
    pattern: Seq<u8>,
    obs: ObservationView,
    millis: u64,
)
    requires
        s.well_formed(),
    ensures
        s.absorb(obs.data).well_formed(),
        s.start().0.well_formed(),
        s.wait_step(pattern, obs).0.well_formed(),
        s.exit_step(obs).0.well_formed(),
        s.with_phase(Phase::Terminated).well_formed(),
        (SessionView { timeout_ms: millis, ..s }).well_formed(),
{
    let fed = s.absorb(obs.data);
    match s.transcript {
        Some(t) => {
            let all = t + obs.data;
            let cut = t.len() - s.pending.len();
            assert(all.subrange(all.len() - fed.pending.len(), all.len() as int) =~= fed.pending);
            assert(all.subrange(all.len() as int, all.len() as int) =~= Seq::<u8>::empty());
            if s.phase == Phase::Running {
                lemma_first_match(fed.pending, pattern);
                match first_match(fed.pending, pattern) {
                    Some(p) => {
                        assert(is_first_match(fed.pending, pattern, p));
                        let rest = fed.pending.skip(p + pattern.len());
                        assert(all.subrange(all.len() - rest.len(), all.len() as int) =~= rest);
                    },
                    None => {},
                }
            }
        },
        None => {},
    }
}

/// A wait over any run of observations keeps the session well formed.
pub proof fn lemma_wait_run_keeps_well_formed(
    s: SessionView,
    pattern: Seq<u8>,
    run: Seq<ObservationView>,
)
    requires
        s.well_formed(),
    ensures
        wait_run(s, pattern, run).0.well_formed(),
        exit_run(s, run).0.well_formed(),
    decreases run.len(),
{
    if s.phase == Phase::Running && run.len() > 0 {
        lemma_steps_keep_well_formed(s, pattern, run[0], 0);
        lemma_wait_run_keeps_well_formed(s.wait_step(pattern, run[0]).0, pattern, run.drop_first());
        lemma_wait_run_keeps_well_formed(s.exit_step(run[0]).0, pattern, run.drop_first());
    }
}

/// While a session runs, every byte that arrives goes into the transcript
/// at once, whether the wait matches, fails or goes on.
pub proof fn lemma_wait_records_output(s: SessionView, pattern: Seq<u8>, obs: ObservationView)
    requires
        s.phase == Phase::Running,
    ensures
        s.wait_step(pattern, obs).0.transcript == s.absorb(obs.data).transcript,
        s.exit_step(obs).0.transcript == s.absorb(obs.data).transcript,
        s.transcript matches Some(t) ==> s.absorb(obs.data).transcript == Some(t + obs.data),
        s.transcript is None ==> s.absorb(obs.data).transcript is None,
{
}

/// A wait that matches reports the leftmost occurrence of the pattern in
/// the unconsumed output, and consumes that output up to and including the
/// pattern: what stays for later waits is exactly what followed it.
pub proof fn lemma_match_consumes_through_pattern(
    s: SessionView,
    pattern: Seq<u8>,
    obs: ObservationView,
    position: usize,
)
    requires
        s.wait_step(pattern, obs).1 == Ok::<Option<WaitOutcome>, SessionError>(
            Some(WaitOutcome::Matched { position }),
        ),
        s.pending.len() + obs.data.len() <= usize::MAX,
    ensures
        is_first_match(s.pending + obs.data, pattern, position as int),
        s.wait_step(pattern, obs).0.pending == (s.pending + obs.data).skip(
            position + pattern.len(),
        ),
        (s.pending + obs.data) == (s.pending + obs.data).take(position as int) + pattern
            + s.wait_step(pattern, obs).0.pending,
        s.wait_step(pattern, obs).0.phase == Phase::Running,
{
    let all = s.pending + obs.data;
    lemma_first_match(all, pattern);
    let p = first_match(all, pattern)->0;
    assert(is_first_match(all, pattern, p));
    assert(all =~= all.take(p) + all.subrange(p, p + pattern.len()) + all.skip(p + pattern.len()));
}

/// A wait on a live process that never shows the pattern ends in a timeout,
/// and no later than at the first observation made at or after the bound:
/// if the observation of index `k` is such a one, at most `k + 1` are taken.
pub proof fn lemma_wait_times_out(
    s: SessionView,
    pattern: Seq<u8>,
    run: Seq<ObservationView>,
    k: int,
)
    requires
        s.phase == Phase::Running,
        0 <= k < run.len(),
        run[k].elapsed_ms >= s.timeout_ms,
        forall|i: int| 0 <= i <= k ==> !(#[trigger] run[i]).closed,
        !occurs(s.pending + output_of(run, k + 1), pattern),
    ensures
        wait_run(s, pattern, run).1 == Ok::<Option<WaitOutcome>, SessionError>(
            Some(WaitOutcome::TimedOut),
        ),
        wait_run(s, pattern, run).0.phase == Phase::TimedOut,
        1 <= wait_run(s, pattern, run).2 <= k + 1,
    decreases k,
{
    let fed = s.absorb(run[0].data);
    lemma_output_of_shift(run, k);
    let later = output_of(run.drop_first(), k);
    assert(s.pending + output_of(run, k + 1) =~= fed.pending + later);
    if occurs(fed.pending, pattern) {
        lemma_occurs_in_extension(fed.pending, later, pattern);
    }
    lemma_first_match(fed.pending, pattern);
    assert(!run[0].closed);
    if run[0].elapsed_ms >= s.timeout_ms {
    } else {
        let rest = run.drop_first();
        assert(rest[k - 1] == run[k]);
        assert forall|i: int| 0 <= i <= k - 1 implies !(#[trigger] rest[i]).closed by {
            assert(rest[i] == run[i + 1]);
        }
        lemma_wait_times_out(fed, pattern, rest, k - 1);
    }
}

/// A session that is not running refuses every send and every wait at
/// once: nothing is written, no observation is taken, nothing changes.
pub proof fn lemma_only_running_accepts(
    s: SessionView,
    text: Seq<u8>,
    pattern: Seq<u8>,
    obs: ObservationView,
    run: Seq<ObservationView>,
)
    requires
        s.phase != Phase::Running,
    ensures
        s.send_line(text) == Err::<Seq<u8>, SessionError>(SessionError::NotRunning),
        s.write_raw(text) == Err::<Seq<u8>, SessionError>(SessionError::NotRunning),
        s.wait_step(pattern, obs) == (
            s,
            Err::<Option<WaitOutcome>, SessionError>(SessionError::NotRunning),
        ),
        s.exit_step(obs) == (s, Err::<Option<ExitOutcome>, SessionError>(SessionError::NotRunning)),
        wait_run(s, pattern, run) == (
            s,
            Err::<Option<WaitOutcome>, SessionError>(SessionError::NotRunning),
            0nat,
        ),
        exit_run(s, run) == (
            s,
            Err::<Option<ExitOutcome>, SessionError>(SessionError::NotRunning),
            0nat,
        ),
{
}

/// Once a wait for exit has succeeded the session is over: it has left
/// the running phase for good, so by [`lemma_only_running_accepts`] every
/// later send or wait is refused without taking a single observation.
pub proof fn lemma_exited_session_refuses(
    s: SessionView,
    run: Seq<ObservationView>,
    text: Seq<u8>,
    pattern: Seq<u8>,
    later: Seq<ObservationView>,
)
    requires
        exit_run(s, run).1 == Ok::<Option<ExitOutcome>, SessionError>(Some(ExitOutcome::Exited)),
    ensures
        ({
            let done = exit_run(s, run).0;
            &&& done.phase == Phase::Terminated
            &&& done.exit_observed()
            &&& done.pending.len() == 0
            &&& done.send_line(text) == Err::<Seq<u8>, SessionError>(SessionError::NotRunning)
            &&& done.write_raw(text) == Err::<Seq<u8>, SessionError>(SessionError::NotRunning)
            &&& wait_run(done, pattern, later) == (
                done,
                Err::<Option<WaitOutcome>, SessionError>(SessionError::NotRunning),
                0nat,
            )
            &&& exit_run(done, later) == (
                done,
                Err::<Option<ExitOutcome>, SessionError>(SessionError::NotRunning),
                0nat,
            )
        }),
    decreases run.len(),
{
    if s.phase == Phase::Running && run.len() > 0 {
        let step = s.exit_step(run[0]);
        if step.1 == Ok::<Option<ExitOutcome>, SessionError>(None) {
            lemma_exited_session_refuses(step.0, run.drop_first(), text, pattern, later);
        }
    }
}

/// A failed wait ends the conversation too: after a timeout or an
/// unexpected exit the session is no longer running.
pub proof fn lemma_failed_wait_stops_session(
    s: SessionView,
    pattern: Seq<u8>,
    run: Seq<ObservationView>,
)
    ensures
        wait_run(s, pattern, run).1 == Ok::<Option<WaitOutcome>, SessionError>(
            Some(WaitOutcome::TimedOut),
        ) ==> wait_run(s, pattern, run).0.phase == Phase::TimedOut,
        wait_run(s, pattern, run).1 == Ok::<Option<WaitOutcome>, SessionError>(
            Some(WaitOutcome::UnexpectedExit),
        ) ==> wait_run(s, pattern, run).0.phase == Phase::UnexpectedExit && wait_run(
            s,
            pattern,
            run,
        ).0.exit_observed(),
    decreases run.len(),
{
    if s.phase == Phase::Running && run.len() > 0 {
        let step = s.wait_step(pattern, run[0]);
        if step.1 == Ok::<Option<WaitOutcome>, SessionError>(None) {
            lemma_failed_wait_stops_session(step.0, pattern, run.drop_first());
        }
    }
}

/// How the output is cut into reads does not move a match. If the pattern
/// is found once `first` has arrived, then it is found at the same position
/// when `first` and `second` arrive in one read, and `second` stays
/// unconsumed behind it.
pub proof fn lemma_match_independent_of_chunking(
    s: SessionView,
    pattern: Seq<u8>,
    first: ObservationView,
    second: Seq<u8>,
    position: usize,
)
    requires
        s.wait_step(pattern, first).1 == Ok::<Option<WaitOutcome>, SessionError>(
            Some(WaitOutcome::Matched { position }),
        ),
    ensures
        ({
            let joined = ObservationView { data: first.data + second, ..first };
            &&& s.wait_step(pattern, joined).1 == s.wait_step(pattern, first).1
            &&& s.wait_step(pattern, joined).0.pending == s.wait_step(pattern, first).0.pending
                + second
        }),
{
    let all = s.pending + first.data;
    lemma_first_match(all, pattern);
    let p = first_match(all, pattern)->0;
    assert(is_first_match(all, pattern, p));
    lemma_first_match_stable(all, second, pattern, p);
    assert(s.pending + (first.data + second) =~= all + second);
    assert((all + second).skip(p + pattern.len()) =~= all.skip(p + pattern.len()) + second);
    let joined = ObservationView { data: first.data + second, ..first };
    assert(s.absorb(joined.data).pending == all + second);
}

/// Output that arrives while a wait is undecided is not lost: two reads
/// that leave the wait pending leave the same unconsumed output as one read
/// that brought both.
pub proof fn lemma_pending_reads_accumulate(
    s: SessionView,
    pattern: Seq<u8>,
    first: ObservationView,
    second: ObservationView,
)
    requires
        s.wait_step(pattern, first).1 == Ok::<Option<WaitOutcome>, SessionError>(None),
    ensures
        ({
            let joined = ObservationView { data: first.data + second.data, ..second };
            s.wait_step(pattern, first).0.wait_step(pattern, second) == s.wait_step(
                pattern,
                joined,
            )
        }),
{
    let mid = s.wait_step(pattern, first).0;
    let joined = ObservationView { data: first.data + second.data, ..second };
    assert(mid == s.absorb(first.data));
    assert(mid.pending + second.data =~= s.pending + joined.data);
    match s.transcript {
        Some(t) => {
            assert((t + first.data) + second.data =~= t + joined.data);
        },
        None => {},
    }
    assert(mid.absorb(second.data) == s.absorb(joined.data));
}

} // verus!
