//! The session signaling monitor: what the receiver does on each lifecycle
//! event of the signaling channel.

use crate::event_log::{appended, EventLog};
use vstd::prelude::*;

verus! {

/// The end-to-end latency bound, in milliseconds, that a transport gets once
/// it is ready.
pub const TARGET_LATENCY_MS: u32 = 20;

/// The lifecycle events of the signaling channel, by name.
#[derive(Clone, Copy, PartialEq, Eq, Structural, Debug)]
pub enum SessionSignal {
    ProducerAdded,
    SessionRequested,
    SessionStarted,
    TransportReady,
}

/// The name under which the signaling channel announces an event.
pub open spec fn signal_name_of(signal: SessionSignal) -> Seq<char> {
    match signal {
        SessionSignal::ProducerAdded => "producer-added"@,
        SessionSignal::SessionRequested => "session-requested"@,
        SessionSignal::SessionStarted => "session-started"@,
        SessionSignal::TransportReady => "webrtcbin-ready"@,
    }
}

impl SessionSignal {
    /// The name under which the signaling channel announces this event.
    pub fn name(self) -> (name: &'static str)
        ensures
            name@ == signal_name_of(self),
    {
        match self {
            SessionSignal::ProducerAdded => "producer-added",
            SessionSignal::SessionRequested => "session-requested",
            SessionSignal::SessionStarted => "session-started",
            SessionSignal::TransportReady => "webrtcbin-ready",
        }
    }
}

/// One occurrence of a lifecycle event. `T` is the caller's reference to a
/// transport; the monitor carries it and never looks inside.
#[derive(Debug)]
pub enum SessionEvent<T> {
    /// A producer was discovered. `meta` is the text of what the producer
    /// says of itself, as the caller renders it.
    ProducerAdded { producer_id: String, meta: String },
    /// A session with a peer was asked for.
    SessionRequested { peer_id: String, session_id: String },
    /// A session with a peer has begun.
    SessionStarted { peer_id: String, session_id: String },
    /// The transport of a session is ready for tuning.
    TransportReady { transport: T },
}

/// The order to bound the latency of one transport.
#[derive(Debug)]
pub struct LatencyBound<T> {
    pub transport: T,
    pub millis: u32,
}

/// The log line that an event leaves at once, if it leaves one. A ready
/// transport leaves none here: its line is due only after its latency has
/// been bounded.
pub open spec fn event_message<T>(event: SessionEvent<T>) -> Option<Seq<char>> {
    match event {
        SessionEvent::ProducerAdded { producer_id, meta } => Some(
            "🎤 Producer追加: producer_id="@ + producer_id@ + ", meta="@ + meta@,
        ),
        SessionEvent::SessionRequested { peer_id, session_id } => Some(
            "📞 セッション要求: peer_id="@ + peer_id@ + ", session_id="@ + session_id@,
        ),
        SessionEvent::SessionStarted { peer_id, session_id } => Some(
            "✅ セッション開始: peer_id="@ + peer_id@ + ", session_id="@ + session_id@,
        ),
        SessionEvent::TransportReady { transport } => None,
    }
}

/// The log line that says that a ready transport has had its latency bounded.
pub open spec fn latency_applied_message() -> Seq<char> {
    "🎬 WebRTCBin ready - 低遅延設定を適用しました"@
}

/// What an event asks of the caller: a ready transport gets the target
/// latency bound, every other event asks for nothing.
pub open spec fn event_command<T>(event: SessionEvent<T>) -> Option<LatencyBound<T>> {
    match event {
        SessionEvent::TransportReady { transport } => Some(
            LatencyBound { transport, millis: TARGET_LATENCY_MS },
        ),
        _ => None,
    }
}

/// The log after an event: one line more for an event of a running pipeline
/// that leaves a line at once, the same as before otherwise.
pub open spec fn log_after_event<T>(
    log: Seq<Seq<char>>,
    event: SessionEvent<T>,
    handle_valid: bool,
) -> Seq<Seq<char>> {
    match event_message(event) {
        Some(text) if handle_valid => appended(log, text),
        _ => log,
    }
}

/// The log after the caller says that a latency bound has been applied: one
/// line more while the pipeline runs, the same as before once it is stopped.
pub open spec fn log_after_latency_applied(log: Seq<Seq<char>>, handle_valid: bool) -> Seq<
    Seq<char>,
> {
    if handle_valid {
        appended(log, latency_applied_message())
    } else {
        log
    }
}

/// A ready transport of a running pipeline, first bounded and then
/// confirmed, leaves exactly one line in the log, as every other event does.
pub proof fn lemma_every_event_leaves_one_line<T>(log: Seq<Seq<char>>, event: SessionEvent<T>)
    ensures
        event_command(event) is Some <==> event is TransportReady,
        event is TransportReady ==> log_after_latency_applied(
            log_after_event(log, event, true),
            true,
        ) == appended(log, latency_applied_message()),
        event !is TransportReady ==> log_after_event(log, event, true) == appended(
            log,
            event_message(event)->0,
        ),
{
}

/// An event that comes once the pipeline is stopped writes nothing and asks
/// for nothing.
pub proof fn lemma_late_event_writes_nothing<T>(log: Seq<Seq<char>>, event: SessionEvent<T>)
    ensures
        log_after_event(log, event, false) == log,
        log_after_latency_applied(log, false) == log,
{
}

/// `head` followed by `first`, `middle` and `second`.
fn labelled_pair(head: &str, first: &str, middle: &str, second: &str) -> (text: String)
    ensures
        text@ == head@ + first@ + middle@ + second@,
{
    let mut text = String::from_str(head);
    text.append(first);
    text.append(middle);
    text.append(second);
    text
}

/// Reacts to one occurrence of a lifecycle event. `handle_valid` says whether
/// the caller's handle to the graph that the event comes from could still be
/// used, that is, whether that pipeline still runs.
///
/// While it runs, a discovered producer, a requested session and a started
/// session each leave exactly one line in the log and have no further
/// effect. A ready transport comes back with the order to bound its latency
/// to `TARGET_LATENCY_MS` and leaves no line yet: the caller applies the
/// bound and then calls `on_latency_applied`, which writes the line.
///
/// Once the pipeline is stopped the event writes nothing and asks for nothing.
pub fn on_session_event<T>(
    event: SessionEvent<T>,
    handle_valid: bool,
    log: &mut EventLog,
) -> (command: Option<LatencyBound<T>>)
    ensures
        final(log)@ == log_after_event(old(log)@, event, handle_valid),
        command == if handle_valid {
            event_command(event)
        } else {
            None
        },
        !handle_valid ==> final(log)@ == old(log)@,
{
    if !handle_valid {
        return None;
    }
    match event {
        SessionEvent::ProducerAdded { producer_id, meta } => {
            log.push(
                labelled_pair(
                    "🎤 Producer追加: producer_id=",
                    producer_id.as_str(),
                    ", meta=",
                    meta.as_str(),
                ),
            );
            None
        },
        SessionEvent::SessionRequested { peer_id, session_id } => {
            log.push(
                labelled_pair(
                    "📞 セッション要求: peer_id=",
                    peer_id.as_str(),
                    ", session_id=",
                    session_id.as_str(),
                ),
            );
            None
        },
        SessionEvent::SessionStarted { peer_id, session_id } => {
            log.push(
                labelled_pair(
                    "✅ セッション開始: peer_id=",
                    peer_id.as_str(),
                    ", session_id=",
                    session_id.as_str(),
                ),
            );
            None
        },
        SessionEvent::TransportReady { transport } => Some(
            LatencyBound { transport, millis: TARGET_LATENCY_MS },
        ),
    }
}

/// Takes the caller's word that the latency bound of a ready transport has
/// been applied, and writes the line that says so. Once the pipeline is
/// stopped nothing is written.
pub fn on_latency_applied<T>(applied: LatencyBound<T>, handle_valid: bool, log: &mut EventLog)
    ensures
        final(log)@ == log_after_latency_applied(old(log)@, handle_valid),
        !handle_valid ==> final(log)@ == old(log)@,
{
    if handle_valid {
        log.push(String::from_str("🎬 WebRTCBin ready - 低遅延設定を適用しました"));
    }
}

} // verus!
