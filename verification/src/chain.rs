//! The life of one processing chain while it is put into the graph, step by
//! step. The caller performs each step and reports how it went; a failure
//! ends that chain and no other.

use crate::track::{chain_plan, ChainStep, TrackKind};
use vstd::prelude::*;

verus! {

/// How far a chain has come.
#[derive(Clone, Copy, PartialEq, Eq, Structural, Debug)]
pub enum ChainStatus {
    /// Steps of the plan are still to be taken.
    Building,
    /// Every step of the plan was taken: media flows.
    Linked,
    /// A step failed: the rest of the plan was given up.
    Failed,
}

/// What a chain is: the kind of its track, the number of steps of the plan
/// already taken, and whether a step has failed.
pub struct ChainState {
    pub kind: TrackKind,
    pub done: nat,
    pub failed: bool,
}

/// The state of a chain on which no step has been taken yet.
pub open spec fn fresh_chain(kind: TrackKind) -> ChainState {
    ChainState { kind, done: 0, failed: false }
}

/// The step that is to be taken next: the first of the plan not yet taken,
/// unless the chain has failed or the plan is done.
pub open spec fn pending_step(state: ChainState) -> Option<ChainStep> {
    if !state.failed && state.done < chain_plan(state.kind).len() {
        Some(chain_plan(state.kind)[state.done as int])
    } else {
        None
    }
}

/// The status that goes with a state.
pub open spec fn status_of(state: ChainState) -> ChainStatus {
    if state.failed {
        ChainStatus::Failed
    } else if state.done < chain_plan(state.kind).len() {
        ChainStatus::Building
    } else {
        ChainStatus::Linked
    }
}

/// The state after the caller reports on the pending step: success moves on
/// to the next step, failure ends the chain. With no step pending the report
/// changes nothing.
pub open spec fn after_report(state: ChainState, ok: bool) -> ChainState {
    if pending_step(state) is None {
        state
    } else if ok {
        ChainState { done: state.done + 1, ..state }
    } else {
        ChainState { failed: true, ..state }
    }
}

/// The state after a run of reports, first to last.
pub open spec fn after_reports(state: ChainState, outcomes: Seq<bool>) -> ChainState
    decreases outcomes.len(),
{
    if outcomes.len() == 0 {
        state
    } else {
        after_report(after_reports(state, outcomes.drop_last()), outcomes.last())
    }
}

/// A failed chain stays failed: it asks for no further step, and no report
/// changes it.
pub proof fn lemma_failure_is_final(state: ChainState, outcomes: Seq<bool>)
    requires
        state.failed,
    ensures
        pending_step(state) is None,
        after_reports(state, outcomes) == state,
    decreases outcomes.len(),
{
    if outcomes.len() > 0 {
        lemma_failure_is_final(state, outcomes.drop_last());
    }
}

/// While every report is a success a fresh chain walks through its plan in
/// order: after `outcomes.len()` successes, no more than the plan is long,
/// exactly that many steps are taken, the next one of the plan is pending,
/// and the chain is linked when the plan is done.
pub proof fn lemma_successes_follow_plan(kind: TrackKind, outcomes: Seq<bool>)
    requires
        outcomes.len() <= chain_plan(kind).len(),
        forall|i: int| 0 <= i < outcomes.len() ==> outcomes[i],
    ensures
        after_reports(fresh_chain(kind), outcomes) == (ChainState {
            kind,
            done: outcomes.len(),
            failed: false,
        }),
        outcomes.len() < chain_plan(kind).len() ==> pending_step(
            after_reports(fresh_chain(kind), outcomes),
        ) == Some(chain_plan(kind)[outcomes.len() as int]),
        outcomes.len() == chain_plan(kind).len() ==> status_of(
            after_reports(fresh_chain(kind), outcomes),
        ) == ChainStatus::Linked,
    decreases outcomes.len(),
{
    if outcomes.len() > 0 {
        let earlier = outcomes.drop_last();
        lemma_successes_follow_plan(kind, earlier);
        assert(outcomes.last());
    }
}

/// The first failure ends the chain at the step it was reported for: the
/// steps before it stay taken, the failed one and all after it are never
/// taken, whatever is reported later.
pub proof fn lemma_first_failure_stops_chain(
    kind: TrackKind,
    successes: nat,
    later: Seq<bool>,
)
    requires
        successes < chain_plan(kind).len(),
    ensures
        after_reports(
            fresh_chain(kind),
            Seq::new(successes, |i: int| true).push(false) + later,
        ) == (ChainState { kind, done: successes, failed: true }),
    decreases later.len(),
{
    let head = Seq::new(successes, |i: int| true);
    let upto = head.push(false);
    if later.len() == 0 {
        assert(upto + later =~= upto);
        assert(upto.drop_last() =~= head);
        lemma_successes_follow_plan(kind, head);
    } else {
        lemma_first_failure_stops_chain(kind, successes, later.drop_last());
        assert((upto + later).drop_last() =~= upto + later.drop_last());
    }
}

/// Why a chain could not be built: the kind of its track, the step that
/// failed and the reason that the caller gave.
#[derive(Debug)]
pub struct ChainBuildError {
    pub kind: TrackKind,
    pub step: ChainStep,
    pub reason: String,
}

/// The log line for a chain of `kind` that failed for `reason`.
pub open spec fn chain_error_message(kind: TrackKind, reason: Seq<char>) -> Seq<char> {
    match kind {
        TrackKind::Audio => "❌ Audio chain error: "@ + reason,
        TrackKind::Video => "❌ Video chain error: "@ + reason,
    }
}

impl ChainBuildError {
    /// The log line for this error.
    pub fn message(&self) -> (text: String)
        ensures
            text@ == chain_error_message(self.kind, self.reason@),
    {
        let mut text = match self.kind {
            TrackKind::Audio => String::from_str("❌ Audio chain error: "),
            TrackKind::Video => String::from_str("❌ Video chain error: "),
        };
        text.append(self.reason.as_str());
        text
    }
}

/// One processing chain, bound to one track.
#[derive(Clone, Copy, Debug)]
pub struct ProcessingChain {
    kind: TrackKind,
    done: usize,
    failed: bool,
}

impl View for ProcessingChain {
    type V = ChainState;

    closed spec fn view(&self) -> ChainState {
        ChainState { kind: self.kind, done: self.done as nat, failed: self.failed }
    }
}

impl ProcessingChain {
    /// A chain for a track of `kind`, with the whole plan still ahead.
    pub fn new(kind: TrackKind) -> (chain: ProcessingChain)
        ensures
            chain@ == fresh_chain(kind),
    {
        ProcessingChain { kind, done: 0, failed: false }
    }

    /// The kind of the track that this chain serves.
    pub fn kind(&self) -> (kind: TrackKind)
        ensures
            kind == self@.kind,
    {
        self.kind
    }

    /// Number of steps of the plan taken so far.
    pub fn steps_done(&self) -> (done: usize)
        ensures
            done == self@.done,
    {
        self.done
    }

    /// How far the chain has come.
    pub fn status(&self) -> (status: ChainStatus)
        ensures
            status == status_of(self@),
    {
        if self.failed {
            ChainStatus::Failed
        } else {
            match self.kind.step_at(self.done) {
                Some(_) => ChainStatus::Building,
                None => ChainStatus::Linked,
            }
        }
    }

    /// The step that the caller is to take next, if any is left.
    pub fn next_step(&self) -> (step: Option<ChainStep>)
        ensures
            step == pending_step(self@),
    {
        if self.failed {
            None
        } else {
            self.kind.step_at(self.done)
        }
    }

    /// Takes the caller's report on the pending step. Success moves the chain
    /// on; failure ends it and comes back as the error, naming the step. A
    /// report with no step pending changes nothing and is no error.
    pub fn report(&mut self, outcome: Result<(), String>) -> (result: Result<
        ChainStatus,
        ChainBuildError,
    >)
        ensures
            final(self)@ == after_report(old(self)@, outcome is Ok),
            result is Err <==> outcome is Err && pending_step(old(self)@) is Some,
            result matches Ok(status) ==> status == status_of(final(self)@),
            result matches Err(error) ==> {
                &&& error.kind == old(self)@.kind
                &&& Some(error.step) == pending_step(old(self)@)
                &&& outcome matches Err(reason)
                &&& error.reason@ == reason@
            },
    {
        match self.next_step() {
            None => Ok(self.status()),
            Some(step) => {
                match outcome {
                    Ok(_) => {
                        proof {
                            crate::track::lemma_plan_order(crate::track::chain_stages(self.kind));
                        }
                        self.done = self.done + 1;
                        Ok(self.status())
                    },
                    Err(reason) => {
                        self.failed = true;
                        Err(ChainBuildError { kind: self.kind, step, reason })
                    },
                }
            },
        }
    }
}

} // verus!
