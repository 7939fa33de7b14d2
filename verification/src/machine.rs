//! What the three machines have in common, and what holds of every run.

use vstd::prelude::*;
use crate::engine::{Call, ReplyView, Step};
use crate::ledger::Ledger;

verus! {

/// An operation on the engine that takes one call at a time: it names the
/// call that is pending, and each reply brings it to its next state or to its
/// outcome.
pub trait Machine: Sized {
    /// What the operation returns.
    type Outcome;

    /// The call that is pending.
    spec fn pending(self) -> Call;

    /// The step that `reply` brings about.
    spec fn step(self, reply: ReplyView) -> Step<Self, Self::Outcome>;

    /// Whether `now` is what the ledger must be while the machine is in this
    /// state, where the ledger was `before` when the machine began: the
    /// handles of `before`, and those that the machine has taken since and
    /// not given back.
    spec fn account(self, before: Ledger, now: Ledger) -> bool;

    /// Whether `now` is what the ledger must be once the machine has ended
    /// with `outcome`.
    spec fn settled(outcome: Self::Outcome, before: Ledger, now: Ledger) -> bool;

    /// A reply that does not answer the pending call changes nothing: the
    /// machine stays in its state, with the same call pending.
    proof fn lemma_unanswered(self, reply: ReplyView)
        requires
            !self.pending().answers(reply),
        ensures
            self.step(reply) == Step::<Self, Self::Outcome>::Next(self),
    ;

    /// Each step keeps the account: the pending call is made on live handles
    /// only, and once it is answered the ledger is what the next state, or
    /// the outcome, asks for.
    proof fn lemma_step(self, before: Ledger, now: Ledger, reply: ReplyView)
        requires
            self.account(before, now),
            self.pending().answers(reply),
        ensures
            now.admits(self.pending()),
            match self.step(reply) {
                Step::Next(next) => next.account(before, now.record(self.pending(), reply)),
                Step::Done(outcome) => Self::settled(
                    outcome,
                    before,
                    now.record(self.pending(), reply),
                ),
            },
    ;
}

/// The calls that the machine makes while it is given `replies`, one reply to
/// each call, until the replies run out or the machine ends.
pub open spec fn calls<M: Machine>(machine: M, replies: Seq<ReplyView>) -> Seq<Call>
    decreases replies.len(),
{
    if replies.len() == 0 {
        Seq::empty()
    } else {
        seq![machine.pending()] + match machine.step(replies[0]) {
            Step::Next(next) => calls(next, replies.drop_first()),
            Step::Done(_) => Seq::empty(),
        }
    }
}

/// Where the machine stands after `replies`: the state it has reached, or the
/// outcome it ended with.
pub open spec fn after<M: Machine>(machine: M, replies: Seq<ReplyView>) -> Step<M, M::Outcome>
    decreases replies.len(),
{
    if replies.len() == 0 {
        Step::Next(machine)
    } else {
        match machine.step(replies[0]) {
            Step::Next(next) => after(next, replies.drop_first()),
            Step::Done(outcome) => Step::Done(outcome),
        }
    }
}

/// Whether each of `replies` that the machine takes answers the call that is
/// pending when it comes.
pub open spec fn answered<M: Machine>(machine: M, replies: Seq<ReplyView>) -> bool
    decreases replies.len(),
{
    replies.len() == 0 || {
        &&& machine.pending().answers(replies[0])
        &&& match machine.step(replies[0]) {
            Step::Next(next) => answered(next, replies.drop_first()),
            Step::Done(_) => true,
        }
    }
}

/// A run keeps the account. Whatever the engine replies, as long as each
/// reply answers its call: every call of the run is made on live handles
/// only, and the ledger after the run is what the state reached, or the
/// outcome, asks for.
pub proof fn lemma_run_keeps_account<M: Machine>(
    machine: M,
    before: Ledger,
    now: Ledger,
    replies: Seq<ReplyView>,
)
    requires
        machine.account(before, now),
        answered(machine, replies),
    ensures
        now.admits_all(calls(machine, replies), replies),
        match after(machine, replies) {
            Step::Next(reached) => reached.account(
                before,
                now.replay(calls(machine, replies), replies),
            ),
            Step::Done(outcome) => M::settled(
                outcome,
                before,
                now.replay(calls(machine, replies), replies),
            ),
        },
    decreases replies.len(),
{
    if replies.len() > 0 {
        let made = calls(machine, replies);
        let rest = replies.drop_first();
        machine.lemma_step(before, now, replies[0]);
        let then = now.record(machine.pending(), replies[0]);
        assert(made[0] == machine.pending());
        match machine.step(replies[0]) {
            Step::Next(next) => {
                lemma_run_keeps_account(next, before, then, rest);
                assert(made.drop_first() =~= calls(next, rest));
            },
            Step::Done(_) => {
                assert(made.drop_first() =~= Seq::<Call>::empty());
                assert(then.replay(made.drop_first(), rest) == then);
                assert(then.admits_all(made.drop_first(), rest));
            },
        }
        assert(now.replay(made, replies) == then.replay(made.drop_first(), rest));
        assert(now.admits_all(made, replies) == (now.admits(made[0]) && then.admits_all(
            made.drop_first(),
            rest,
        )));
    }
}

} // verus!
