//! What holds of every replayed conversation.

use crate::conversation::{replayed, ActionView, ConversationView, Failure, ReplayEnd};
use crate::script::ScriptStepView;
use crate::session::{ObservationView, Phase};
use vstd::prelude::*;
use vstd::utf8::encode_utf8;

verus! {

/// What a step puts on the wire: a line with its newline, raw bytes as
/// they are, nothing for a wait.
pub open spec fn wire_of(step: ScriptStepView) -> Seq<Seq<u8>> {
    match step {
        ScriptStepView::SendLine(text) => seq![encode_utf8(text).push(0x0au8)],
        ScriptStepView::WriteRaw(bytes) => seq![bytes],
        _ => Seq::empty(),
    }
}

/// Everything that the given steps put on the wire, in order.
pub open spec fn sends_of(steps: Seq<ScriptStepView>) -> Seq<Seq<u8>>
    decreases steps.len(),
{
    if steps.len() == 0 {
        Seq::empty()
    } else {
        wire_of(steps[0]) + sends_of(steps.drop_first())
    }
}

/// The steps of `c` that are still to be done.
pub open spec fn remaining(c: ConversationView) -> Seq<ScriptStepView> {
    if c.next <= c.steps.len() {
        c.steps.skip(c.next as int)
    } else {
        Seq::empty()
    }
}

/// How much a replay still has before it: steps to do and observations
/// to take.
pub open spec fn measure(c: ConversationView, run: Seq<ObservationView>) -> int {
    (if c.next <= c.steps.len() {
        c.steps.len() - c.next
    } else {
        0
    }) + run.len()
}

/// A replay ends as its state says: finished with every step done, failed
/// with the failure on record, undecided only in the middle of a wait with
/// the whole run taken. On the way the script stays as it is, no step is
/// undone, and what was written before stays written.
pub proof fn lemma_replay_end_agrees_with_state(
    c: ConversationView,
    run: Seq<ObservationView>,
    writes: Seq<Seq<u8>>,
)
    ensures
        ({
            let r = replayed(c, run, writes);
            &&& r.0.steps == c.steps
            &&& r.0.next >= c.next
            &&& r.2 <= run.len()
            &&& r.1.len() >= writes.len()
            &&& r.1.take(writes.len() as int) == writes
            &&& r.3 == ReplayEnd::Finished <==> r.0.finished()
            &&& r.3 matches ReplayEnd::Failed(failure) ==> r.0.failure == Some(failure)
            &&& r.3 == ReplayEnd::Undecided ==> r.0.awaiting() && r.2 == run.len()
        }),
    decreases measure(c, run),
{
    let (decided, action) = c.next_action();
    match action {
        ActionView::Write(bytes) => {
            lemma_replay_end_agrees_with_state(decided, run, writes.push(bytes));
            let r = replayed(decided, run, writes.push(bytes));
            assert(r.1.take(writes.len() as int) =~= r.1.take(writes.len() as int + 1).take(
                writes.len() as int,
            ));
            assert(writes.push(bytes).take(writes.len() as int) =~= writes);
        },
        ActionView::Read => {
            if run.len() > 0 {
                lemma_replay_end_agrees_with_state(
                    decided.observe(run[0]),
                    run.drop_first(),
                    writes,
                );
            } else {
                assert(writes.take(writes.len() as int) =~= writes);
            }
        },
        _ => {
            assert(writes.take(writes.len() as int) =~= writes);
        },
    }
}

/// A conversation that is replayed to its end has written exactly what
/// the steps that were still to be done send, in their order: nothing is
/// left out, nothing is added, nothing is sent twice.
pub proof fn lemma_finished_replay_wrote_every_send(
    c: ConversationView,
    run: Seq<ObservationView>,
    writes: Seq<Seq<u8>>,
)
    requires
        replayed(c, run, writes).3 == ReplayEnd::Finished,
    ensures
        replayed(c, run, writes).1 == writes + sends_of(remaining(c)),
    decreases measure(c, run),
{
    let (decided, action) = c.next_action();
    let rest = remaining(c);
    match action {
        ActionView::Write(bytes) => {
            lemma_finished_replay_wrote_every_send(decided, run, writes.push(bytes));
            assert(rest.drop_first() =~= remaining(decided));
            assert(wire_of(rest[0]) =~= seq![bytes]);
            assert(writes.push(bytes) + sends_of(remaining(decided)) =~= writes + sends_of(rest));
        },
        ActionView::Read => {
            let seen = decided.observe(run[0]);
            lemma_finished_replay_wrote_every_send(seen, run.drop_first(), writes);
            if seen.next == c.next {
                assert(remaining(seen) == rest);
            } else {
                assert(rest.drop_first() =~= remaining(seen));
                assert(wire_of(rest[0]) =~= Seq::<Seq<u8>>::empty());
                assert(sends_of(rest) =~= sends_of(remaining(seen)));
            }
        },
        ActionView::Finished => {
            assert(rest.len() == 0);
            assert(writes + sends_of(rest) =~= writes);
        },
        ActionView::Failed(_) => {},
    }
}

/// A script that ends by waiting for the exit leaves no process behind:
/// once such a conversation is replayed to its end, its session is
/// terminated.
pub proof fn lemma_script_ending_with_exit_terminates_session(
    c: ConversationView,
    run: Seq<ObservationView>,
    writes: Seq<Seq<u8>>,
)
    requires
        c.next < c.steps.len(),
        c.steps.last() is ExpectExit,
        replayed(c, run, writes).3 == ReplayEnd::Finished,
    ensures
        replayed(c, run, writes).0.session.phase == Phase::Terminated,
        replayed(c, run, writes).0.session.exit_observed(),
    decreases measure(c, run),
{
    let (decided, action) = c.next_action();
    match action {
        ActionView::Write(bytes) => {
            lemma_script_ending_with_exit_terminates_session(decided, run, writes.push(bytes));
        },
        ActionView::Read => {
            let seen = decided.observe(run[0]);
            if seen.next < seen.steps.len() {
                lemma_script_ending_with_exit_terminates_session(seen, run.drop_first(), writes);
            } else {
                lemma_replay_end_agrees_with_state(seen, run.drop_first(), writes);
                assert(seen.failure is None);
            }
        },
        _ => {},
    }
}

/// A conversation that has failed stays failed: a replay takes no
/// observation, writes nothing and changes nothing.
pub proof fn lemma_failed_conversation_is_inert(
    c: ConversationView,
    failure: Failure,
    run: Seq<ObservationView>,
    writes: Seq<Seq<u8>>,
)
    requires
        c.failure == Some(failure),
    ensures
        replayed(c, run, writes) == (c, writes, 0nat, ReplayEnd::Failed(failure)),
        run.len() > 0 ==> c.observe(run[0]) == c,
{
}

} // verus!
