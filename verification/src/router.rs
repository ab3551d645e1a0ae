//! The track router: one processing chain for every arriving audio or video
//! track, each built on its own.

use crate::chain::{
    after_report, chain_error_message, fresh_chain, pending_step, status_of, ChainState,
    ChainStatus, ProcessingChain,
};
use crate::event_log::{appended, EventLog};
use crate::track::{kind_of_pad_name, ChainStep, TrackKind};
use vstd::prelude::*;

verus! {

/// The log line for the arrival of a track of `kind`.
pub open spec fn track_message(kind: TrackKind) -> Seq<char> {
    match kind {
        TrackKind::Audio => "🔊 Audio pad追加"@,
        TrackKind::Video => "🎥 Video pad追加"@,
    }
}

/// The kind of chain that an arriving track gets: the kind that its pad name
/// stands for while the pipeline runs, none for any other name and none once
/// the pipeline is stopped.
pub open spec fn routed_kind(name: Seq<char>, handle_valid: bool) -> Option<TrackKind> {
    if handle_valid {
        kind_of_pad_name(name)
    } else {
        None
    }
}

/// The chains after a track with pad name `name` arrives: one more, fresh,
/// for an audio or video track of a running pipeline; the same as before
/// otherwise.
pub open spec fn chains_after_track(
    chains: Seq<ChainState>,
    name: Seq<char>,
    handle_valid: bool,
) -> Seq<ChainState> {
    match routed_kind(name, handle_valid) {
        Some(kind) => chains.push(fresh_chain(kind)),
        None => chains,
    }
}

/// The log after a track with pad name `name` arrives: one line more for an
/// audio or video track of a running pipeline; the same as before otherwise.
pub open spec fn log_after_track(log: Seq<Seq<char>>, name: Seq<char>, handle_valid: bool) -> Seq<
    Seq<char>,
> {
    match routed_kind(name, handle_valid) {
        Some(kind) => appended(log, track_message(kind)),
        None => log,
    }
}

/// The chains after a report on the pending step of chain `id`: that chain
/// moves as the report says, every other chain stays as it is. A report that
/// comes once the pipeline is stopped ends the chain like a failure, for the
/// graph it was built into is gone. A report for a chain that does not exist
/// changes nothing.
pub open spec fn chains_after_report(
    chains: Seq<ChainState>,
    id: int,
    ok: bool,
    handle_valid: bool,
) -> Seq<ChainState> {
    if 0 <= id < chains.len() {
        chains.update(id, after_report(chains[id], ok && handle_valid))
    } else {
        chains
    }
}

/// The log after a report on chain `id`: one error line more when the
/// pipeline runs and the report is a failure of a step that was pending; the
/// same as before otherwise.
pub open spec fn log_after_report(
    log: Seq<Seq<char>>,
    chains: Seq<ChainState>,
    id: int,
    outcome: Result<(), Seq<char>>,
    handle_valid: bool,
) -> Seq<Seq<char>> {
    match outcome {
        Err(reason) if handle_valid && 0 <= id < chains.len() && pending_step(chains[id])
            is Some => appended(log, chain_error_message(chains[id].kind, reason)),
        _ => log,
    }
}

/// A track whose pad name stands for neither audio nor video builds no chain
/// and leaves no line in the log.
pub proof fn lemma_unknown_track_is_dropped(
    chains: Seq<ChainState>,
    log: Seq<Seq<char>>,
    name: Seq<char>,
    handle_valid: bool,
)
    requires
        kind_of_pad_name(name) is None,
    ensures
        chains_after_track(chains, name, handle_valid) == chains,
        log_after_track(log, name, handle_valid) == log,
{
}

/// Once the pipeline is stopped the router writes nothing: a track that
/// arrives builds no chain and leaves no line, and no report leaves a line.
pub proof fn lemma_late_track_writes_nothing(
    chains: Seq<ChainState>,
    log: Seq<Seq<char>>,
    name: Seq<char>,
    id: int,
    outcome: Result<(), Seq<char>>,
)
    ensures
        chains_after_track(chains, name, false) == chains,
        log_after_track(log, name, false) == log,
        log_after_report(log, chains, id, outcome, false) == log,
{
}

/// A report on one chain, success or failure, leaves every other chain as it was.
pub proof fn lemma_report_touches_one_chain(
    chains: Seq<ChainState>,
    id: int,
    ok: bool,
    handle_valid: bool,
    other: int,
)
    requires
        0 <= other < chains.len(),
        other != id,
    ensures
        chains_after_report(chains, id, ok, handle_valid).len() == chains.len(),
        chains_after_report(chains, id, ok, handle_valid)[other] == chains[other],
{
}

/// The log line for the arrival of a track of `kind`.
pub fn track_arrival_text(kind: TrackKind) -> (text: String)
    ensures
        text@ == track_message(kind),
{
    match kind {
        TrackKind::Audio => String::from_str("🔊 Audio pad追加"),
        TrackKind::Video => String::from_str("🎥 Video pad追加"),
    }
}

/// The track router. It holds one chain per audio or video track that has
/// arrived, in order of arrival; a chain's place is its id.
pub struct TrackRouter {
    chains: Vec<ProcessingChain>,
}

impl View for TrackRouter {
    type V = Seq<ChainState>;

    closed spec fn view(&self) -> Seq<ChainState> {
        self.chains@.map_values(|chain: ProcessingChain| chain@)
    }
}

impl TrackRouter {
    /// A router that has seen no track yet.
    pub fn new() -> (router: TrackRouter)
        ensures
            router@ == Seq::<ChainState>::empty(),
    {
        let router = TrackRouter { chains: Vec::new() };
        assert(router@ =~= Seq::<ChainState>::empty());
        router
    }

    /// Number of chains, built or not.
    pub fn len(&self) -> (n: usize)
        ensures
            n == self@.len(),
    {
        self.chains.len()
    }

    /// Takes the arrival of a track. `handle_valid` says whether the caller's
    /// handle to the graph that the track arrives in could still be used,
    /// that is, whether that pipeline still runs. For an audio or video pad
    /// of a running pipeline a fresh chain is added, its arrival is logged,
    /// and the chain's id comes back. Any other pad is passed over, and so is
    /// every pad once the pipeline is stopped: no chain, no log line.
    pub fn on_track(&mut self, pad_name: &str, handle_valid: bool, log: &mut EventLog) -> (id:
        Option<usize>)
        ensures
            final(self)@ == chains_after_track(old(self)@, pad_name@, handle_valid),
            final(log)@ == log_after_track(old(log)@, pad_name@, handle_valid),
            id == match routed_kind(pad_name@, handle_valid) {
                Some(_) => Some(old(self)@.len() as usize),
                None => None,
            },
            !handle_valid ==> final(log)@ == old(log)@ && final(self)@ == old(self)@,
    {
        if !handle_valid {
            return None;
        }
        match TrackKind::from_pad_name(pad_name) {
            Some(kind) => {
                let id = self.chains.len();
                log.push(track_arrival_text(kind));
                self.chains.push(ProcessingChain::new(kind));
                assert(self@ =~= old(self)@.push(fresh_chain(kind)));
                Some(id)
            },
            None => None,
        }
    }

    /// The chain with this id, if there is one.
    pub fn chain(&self, id: usize) -> (chain: Option<ProcessingChain>)
        ensures
            chain is Some <==> id < self@.len(),
            chain matches Some(c) ==> c@ == self@[id as int],
    {
        if id < self.chains.len() {
            Some(self.chains[id])
        } else {
            None
        }
    }

    /// The step that the caller is to take next for chain `id`, if the chain
    /// exists and any step is left.
    pub fn next_step(&self, id: usize) -> (step: Option<ChainStep>)
        ensures
            step == if id < self@.len() {
                pending_step(self@[id as int])
            } else {
                None
            },
    {
        if id < self.chains.len() {
            self.chains[id].next_step()
        } else {
            None
        }
    }

    /// Takes the caller's report on the pending step of chain `id`.
    /// `handle_valid` says whether the pipeline that the chain belongs to
    /// still runs. While it runs, success moves that chain on, and failure
    /// ends that chain and is logged. Once it is stopped the report ends the
    /// chain whatever it says, and nothing is logged. The other chains are
    /// never touched. The chain's status after the report comes back, or
    /// nothing when there is no such chain.
    pub fn report(
        &mut self,
        id: usize,
        outcome: Result<(), String>,
        handle_valid: bool,
        log: &mut EventLog,
    ) -> (status: Option<ChainStatus>)
        ensures
            final(self)@ == chains_after_report(
                old(self)@,
                id as int,
                outcome is Ok,
                handle_valid,
            ),
            final(log)@ == log_after_report(
                old(log)@,
                old(self)@,
                id as int,
                match outcome {
                    Ok(_) => Ok(()),
                    Err(reason) => Err(reason@),
                },
                handle_valid,
            ),
            status == if id < old(self)@.len() {
                Some(status_of(final(self)@[id as int]))
            } else {
                None
            },
            !handle_valid ==> final(log)@ == old(log)@,
    {
        if id >= self.chains.len() {
            return None;
        }
        let mut chain = self.chains[id];
        let taken = if handle_valid {
            outcome
        } else {
            Err(String::new())
        };
        let status = match chain.report(taken) {
            Ok(status) => status,
            Err(error) => {
                if handle_valid {
                    log.push(error.message());
                }
                ChainStatus::Failed
            },
        };
        self.chains.set(id, chain);
        assert(self@ =~= old(self)@.update(id as int, chain@));
        Some(status)
    }
}

} // verus!
