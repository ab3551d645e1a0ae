//! The pipeline controller: the owner of the handle to the running graph.
//! It is running exactly while it holds a handle.

use crate::bus::{
    bus_action, bus_message, bus_terminates, runtime_error_message, supervise, BusNotification,
    GraphAction, Notice,
};
use crate::event_log::{appended, EventLog};
use crate::source::{source_config, source_settings, SourceConfig};
use vstd::prelude::*;

verus! {

/// One step of putting the top-level graph together.
#[derive(Clone, Copy, PartialEq, Eq, Structural, Debug)]
pub enum BuildStep {
    /// Make the empty graph.
    CreateGraph,
    /// Make the network source with the source configuration.
    CreateSource,
    /// Put the source into the graph.
    AddSource,
    /// Subscribe the signaling monitor to the source's signaling channel.
    WatchSignaling,
    /// Subscribe the track router to the source's arriving tracks.
    WatchTracks,
    /// Set the graph playing.
    Play,
    /// Hand the graph's bus to a supervisor of its own.
    SuperviseBus,
}

/// The steps of a build, in the order in which they are taken. Both
/// subscriptions are in place before the graph plays, so that no event and no
/// track is missed.
pub open spec fn build_plan() -> Seq<BuildStep> {
    seq![
        BuildStep::CreateGraph,
        BuildStep::CreateSource,
        BuildStep::AddSource,
        BuildStep::WatchSignaling,
        BuildStep::WatchTracks,
        BuildStep::Play,
        BuildStep::SuperviseBus,
    ]
}

/// The steps of a build, in the order in which they are taken.
pub fn build_steps() -> (steps: Vec<BuildStep>)
    ensures
        steps@ == build_plan(),
{
    let mut steps: Vec<BuildStep> = Vec::new();
    steps.push(BuildStep::CreateGraph);
    steps.push(BuildStep::CreateSource);
    steps.push(BuildStep::AddSource);
    steps.push(BuildStep::WatchSignaling);
    steps.push(BuildStep::WatchTracks);
    steps.push(BuildStep::Play);
    steps.push(BuildStep::SuperviseBus);
    assert(steps@ =~= build_plan());
    steps
}

/// Why a pipeline could not be built.
#[derive(Debug)]
pub struct PipelineBuildError {
    /// What the failing step said.
    pub reason: String,
}

/// The log line of a successful start.
pub open spec fn started_message() -> Seq<char> {
    "▶️ パイプライン開始"@
}

/// The log line of a stop.
pub open spec fn stopped_message() -> Seq<char> {
    "⏹️ パイプライン停止"@
}

/// The log line of a start that failed for `reason`.
pub open spec fn build_error_message(reason: Seq<char>) -> Seq<char> {
    "❌ エラー: "@ + reason
}

impl PipelineBuildError {
    /// The log line for this error.
    pub fn message(&self) -> (text: String)
        ensures
            text@ == build_error_message(self.reason@),
    {
        let mut text = String::from_str("❌ エラー: ");
        text.append(self.reason.as_str());
        text
    }
}

/// The handle held once a build has ended: the new graph's after a success,
/// none after a failure, so that nothing of a failed build is left.
pub open spec fn handle_after_build<H>(built: Result<H, String>) -> Option<H> {
    match built {
        Ok(handle) => Some(handle),
        Err(_) => None,
    }
}

/// The log once a build has ended: one line more, for the start or for the error.
pub open spec fn log_after_build<H>(log: Seq<Seq<char>>, built: Result<H, String>) -> Seq<
    Seq<char>,
> {
    match built {
        Ok(_) => appended(log, started_message()),
        Err(reason) => appended(log, build_error_message(reason@)),
    }
}

/// The handle held after a stop: none, whatever was held.
pub open spec fn handle_after_stop<H>(held: Option<H>) -> Option<H> {
    None
}

/// The log after a stop: one line more when a pipeline was running, the same
/// as before when none was.
pub open spec fn log_after_stop(log: Seq<Seq<char>>, was_running: bool) -> Seq<Seq<char>> {
    if was_running {
        appended(log, stopped_message())
    } else {
        log
    }
}

/// Whether a bus notification comes from the graph that the controller
/// runs: the supervisor's handle is still valid and the controller still
/// holds a graph. After a stop neither a late notification of the stopped
/// graph nor one of a graph long gone counts.
pub open spec fn graph_live<H>(held: Option<H>, handle_valid: bool) -> bool {
    handle_valid && held is Some
}

/// The handle held after a bus notification: given up when the graph is
/// forced to stop, kept otherwise.
pub open spec fn handle_after_notice<H>(
    held: Option<H>,
    notice: Notice,
    handle_valid: bool,
) -> Option<H> {
    if bus_action(notice, graph_live(held, handle_valid)) == GraphAction::ForceStop {
        None
    } else {
        held
    }
}

/// The log after a bus notification: one line more when the notification
/// leaves one, the same as before otherwise. A notification that does not
/// come from a live graph leaves none.
pub open spec fn log_after_notice(log: Seq<Seq<char>>, notice: Notice, live: bool) -> Seq<
    Seq<char>,
> {
    match bus_message(notice, live) {
        Some(text) => appended(log, text),
        None => log,
    }
}

/// Stopping twice leaves the controller and the log as stopping once does:
/// the second stop finds no pipeline, changes nothing and logs nothing.
pub proof fn lemma_stop_is_idempotent<H>(held: Option<H>, log: Seq<Seq<char>>)
    ensures
        handle_after_stop(handle_after_stop(held)) == handle_after_stop(held),
        log_after_stop(
            log_after_stop(log, held is Some),
            handle_after_stop(held) is Some,
        ) == log_after_stop(log, held is Some),
{
}

/// An error on the bus of a running pipeline whose handle is valid leaves the
/// controller idle and exactly one more line in the log, with no stop asked for.
pub proof fn lemma_bus_error_stops<H>(held: Option<H>, log: Seq<Seq<char>>, reason: Seq<char>)
    requires
        held is Some,
    ensures
        handle_after_notice(held, Notice::Error(reason), true) is None,
        log_after_notice(log, Notice::Error(reason), graph_live(held, true)) == appended(
            log,
            runtime_error_message(reason),
        ),
{
}

/// Once the pipeline is stopped no bus notification writes anything: with
/// the controller idle, or with the supervisor's handle invalid, the log and
/// the controller stay as they are and the graph is left alone, whatever the
/// notification.
pub proof fn lemma_late_notice_writes_nothing<H>(
    held: Option<H>,
    log: Seq<Seq<char>>,
    notice: Notice,
    handle_valid: bool,
)
    requires
        held is None || !handle_valid,
    ensures
        log_after_notice(log, notice, graph_live(held, handle_valid)) == log,
        handle_after_notice(held, notice, handle_valid) == held,
        bus_action(notice, graph_live(held, handle_valid)) == GraphAction::Leave,
{
}

/// After a stop, whatever was held and whatever the supervisor's handle
/// says, a bus notification leaves the log as the stop left it.
pub proof fn lemma_stop_silences_bus<H>(
    held: Option<H>,
    log: Seq<Seq<char>>,
    notice: Notice,
    handle_valid: bool,
)
    ensures
        log_after_notice(
            log_after_stop(log, held is Some),
            notice,
            graph_live(handle_after_stop(held), handle_valid),
        ) == log_after_stop(log, held is Some),
{
}

/// The controller's answer to one bus notification.
#[derive(Debug)]
pub struct BusVerdict<H> {
    /// What the caller is to do to the graph.
    pub action: GraphAction,
    /// The handle that the controller gave up, for the caller to tear down.
    pub released: Option<H>,
    /// Whether supervision ends here.
    pub terminate: bool,
}

/// The pipeline controller. `H` is the caller's handle to a running graph;
/// the controller owns it while the pipeline runs and never looks inside.
pub struct PipelineController<H> {
    handle: Option<H>,
    running: bool,
}

impl<H> View for PipelineController<H> {
    type V = Option<H>;

    /// The handle held: some while running, none while idle.
    closed spec fn view(&self) -> Option<H> {
        self.handle
    }
}

impl<H> PipelineController<H> {
    #[verifier::type_invariant]
    spec fn flag_follows_handle(&self) -> bool {
        self.running <==> self.handle is Some
    }

    /// An idle controller.
    pub fn new() -> (controller: Self)
        ensures
            controller@ is None,
    {
        PipelineController { handle: None, running: false }
    }

    /// Whether a pipeline is running: true exactly while a handle is held.
    pub fn is_running(&self) -> (running: bool)
        ensures
            running <==> self@ is Some,
    {
        proof {
            use_type_invariant(self);
        }
        self.running
    }

    /// The handle of the running pipeline, if one is running.
    pub fn handle(&self) -> (handle: Option<&H>)
        ensures
            handle is Some <==> self@ is Some,
            handle matches Some(h) ==> self@ == Some(*h),
    {
        self.handle.as_ref()
    }

    /// Puts `handle` in the controller's hands, or takes the handle away,
    /// flag and handle together; what was held before comes back.
    fn exchange(&mut self, handle: Option<H>) -> (held: Option<H>)
        ensures
            held == old(self)@,
            final(self)@ == handle,
    {
        let running = handle.is_some();
        let mut other = PipelineController { handle, running };
        core::mem::swap(self, &mut other);
        other.handle
    }

    /// The first half of a start: tells whether a pipeline is to be built.
    /// A running controller asks for none; an idle one hands out the
    /// configuration to build the source with.
    pub fn plan_start(&self) -> (plan: Option<SourceConfig>)
        ensures
            plan is Some <==> self@ is None,
            plan matches Some(config) ==> config@ == source_settings(),
    {
        if self.is_running() {
            None
        } else {
            Some(source_config())
        }
    }

    /// The second half of a start, for an idle controller: takes what the
    /// build gave. With a graph the controller is running and the start is
    /// logged. With a failure the controller stays idle, the error is logged
    /// and comes back.
    pub fn complete_start(&mut self, built: Result<H, String>, log: &mut EventLog) -> (result:
        Result<(), PipelineBuildError>)
        requires
            old(self)@ is None,
        ensures
            final(self)@ == handle_after_build(built),
            final(log)@ == log_after_build(old(log)@, built),
            result is Ok <==> built is Ok,
            result matches Err(error) ==> {
                &&& built matches Err(reason)
                &&& error.reason@ == reason@
            },
    {
        match built {
            Ok(handle) => {
                let _ = self.exchange(Some(handle));
                log.push(String::from_str("▶️ パイプライン開始"));
                Ok(())
            },
            Err(reason) => {
                let error = PipelineBuildError { reason };
                log.push(error.message());
                Err(error)
            },
        }
    }

    /// Takes what a build gave, whatever the controller's state. An idle
    /// controller takes it as `complete_start` says and hands nothing back.
    /// A running controller has started already: it stays as it is, nothing
    /// is logged, and the graph that was built, if any, comes back as surplus
    /// for the caller to tear down.
    pub fn finish_start(&mut self, built: Result<H, String>, log: &mut EventLog) -> (result:
        Result<Option<H>, PipelineBuildError>)
        ensures
            old(self)@ is Some ==> {
                &&& final(self)@ == old(self)@
                &&& final(log)@ == old(log)@
                &&& result matches Ok(surplus)
                &&& surplus == handle_after_build(built)
            },
            old(self)@ is None ==> {
                &&& final(self)@ == handle_after_build(built)
                &&& final(log)@ == log_after_build(old(log)@, built)
                &&& result is Ok <==> built is Ok
                &&& result matches Ok(surplus) ==> surplus is None
                &&& result matches Err(error) ==> {
                    &&& built matches Err(reason)
                    &&& error.reason@ == reason@
                }
            },
    {
        if self.is_running() {
            match built {
                Ok(handle) => Ok(Some(handle)),
                Err(_) => Ok(None),
            }
        } else {
            match self.complete_start(built, log) {
                Ok(_) => Ok(None),
                Err(error) => Err(error),
            }
        }
    }

    /// Starts the pipeline. On a running controller this does nothing and
    /// succeeds. On an idle one `build` is called once, with the source
    /// configuration, to put the graph together and set it playing; what it
    /// gives is taken as `complete_start` says.
    pub fn start<F: FnOnce(SourceConfig) -> Result<H, String>>(
        &mut self,
        build: F,
        log: &mut EventLog,
    ) -> (result: Result<(), PipelineBuildError>)
        requires
            old(self)@ is None ==> forall|config: SourceConfig|
                config@ == source_settings() ==> build.requires((config,)),
        ensures
            old(self)@ is Some ==> {
                &&& final(self)@ == old(self)@
                &&& final(log)@ == old(log)@
                &&& result is Ok
            },
            old(self)@ is None ==> exists|config: SourceConfig, built: Result<H, String>|
                {
                    &&& config@ == source_settings()
                    &&& #[trigger] build.ensures((config,), built)
                    &&& final(self)@ == handle_after_build(built)
                    &&& final(log)@ == log_after_build(old(log)@, built)
                    &&& result is Ok <==> built is Ok
                    &&& result matches Err(error) ==> {
                        &&& built matches Err(reason)
                        &&& error.reason@ == reason@
                    }
                },
    {
        match self.plan_start() {
            None => Ok(()),
            Some(config) => {
                let built = build(config);
                self.complete_start(built, log)
            },
        }
    }

    /// Stops the pipeline. A running controller gives up its handle, which
    /// comes back for the caller to tear the graph down, and the stop is
    /// logged. On an idle controller this does nothing.
    pub fn stop(&mut self, log: &mut EventLog) -> (released: Option<H>)
        ensures
            released == old(self)@,
            final(self)@ == handle_after_stop(old(self)@),
            final(log)@ == log_after_stop(old(log)@, old(self)@ is Some),
    {
        let released = self.exchange(None);
        if released.is_some() {
            log.push(String::from_str("⏹️ パイプライン停止"));
        }
        released
    }

    /// Takes one notification from the bus of a pipeline. `handle_valid`
    /// says whether the supervisor's handle to the graph could still be used
    /// when the notification came. The notification counts only while that
    /// handle is valid and the controller holds a graph: then its line, if it
    /// has one, is logged, and where the graph is forced to stop the
    /// controller gives up its handle and is idle. A notification that comes
    /// after a stop changes neither the log nor the controller. Supervision
    /// ends at the end of the stream and on an error in either case.
    pub fn on_bus_notification(
        &mut self,
        notification: BusNotification,
        handle_valid: bool,
        log: &mut EventLog,
    ) -> (verdict: BusVerdict<H>)
        ensures
            verdict.action == bus_action(notification@, graph_live(old(self)@, handle_valid)),
            verdict.terminate == bus_terminates(notification@),
            verdict.released == if verdict.action == GraphAction::ForceStop {
                old(self)@
            } else {
                None
            },
            final(self)@ == handle_after_notice(old(self)@, notification@, handle_valid),
            final(log)@ == log_after_notice(
                old(log)@,
                notification@,
                graph_live(old(self)@, handle_valid),
            ),
            !graph_live(old(self)@, handle_valid) ==> final(log)@ == old(log)@ && final(self)@
                == old(self)@,
    {
        let live = handle_valid && self.is_running();
        let reaction = supervise(&notification, live);
        match reaction.message {
            Some(text) => {
                log.push(text);
            },
            None => {},
        }
        let released = match reaction.action {
            GraphAction::ForceStop => self.exchange(None),
            _ => None,
        };
        BusVerdict { action: reaction.action, released, terminate: reaction.terminate }
    }
}

} // verus!
