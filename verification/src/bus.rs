//! The bus supervisor: what the receiver does on each status notification of
//! a running graph.

use vstd::prelude::*;

verus! {

/// An error that a running graph reports on its bus.
#[derive(Debug)]
pub struct RuntimeError {
    /// What the graph said.
    pub reason: String,
}

/// The log line of a runtime error with this reason.
pub open spec fn runtime_error_message(reason: Seq<char>) -> Seq<char> {
    "❌ Error: "@ + reason
}

impl RuntimeError {
    /// The log line for this error.
    pub fn message(&self) -> (text: String)
        ensures
            text@ == runtime_error_message(self.reason@),
    {
        let mut text = String::from_str("❌ Error: ");
        text.append(self.reason.as_str());
        text
    }
}

/// One notification from the bus of a running graph.
#[derive(Debug)]
pub enum BusNotification {
    /// The stream has ended.
    EndOfStream,
    /// The graph reports an error.
    Error(RuntimeError),
    /// The graph asks for its latency to be worked out anew.
    LatencyRequest,
    /// Any other kind of notification.
    Other,
}

/// What the supervisor does to the graph.
#[derive(Clone, Copy, PartialEq, Eq, Structural, Debug)]
pub enum GraphAction {
    /// Leave the graph as it is.
    Leave,
    /// Force the graph to its stopped state.
    ForceStop,
    /// Work out the end-to-end latency of the graph anew.
    RecalculateLatency,
}

/// What a notification is, with the reason of an error as its characters.
pub enum Notice {
    EndOfStream,
    Error(Seq<char>),
    LatencyRequest,
    Other,
}

impl View for BusNotification {
    type V = Notice;

    open spec fn view(&self) -> Notice {
        match self {
            BusNotification::EndOfStream => Notice::EndOfStream,
            BusNotification::Error(error) => Notice::Error(error.reason@),
            BusNotification::LatencyRequest => Notice::LatencyRequest,
            BusNotification::Other => Notice::Other,
        }
    }
}

/// The log line of a notification, if it leaves one. The end of the stream
/// and an error leave a line while the graph's handle is still valid. With
/// an invalid handle the notification comes from a graph that is gone, and
/// nothing is written for it. A latency request and everything else never
/// leave a line.
pub open spec fn bus_message(notice: Notice, handle_valid: bool) -> Option<Seq<char>> {
    match notice {
        Notice::EndOfStream if handle_valid => Some("⏹️ EOS"@),
        Notice::Error(reason) if handle_valid => Some(runtime_error_message(reason)),
        _ => None,
    }
}

/// What is done to the graph on a notification. An error forces the graph to
/// stop and a latency request has its latency worked out anew, each only
/// while the graph's handle is still valid; with an invalid handle, and on
/// every other notification, the graph is left alone.
pub open spec fn bus_action(notice: Notice, handle_valid: bool) -> GraphAction {
    match notice {
        Notice::Error(_) if handle_valid => GraphAction::ForceStop,
        Notice::LatencyRequest if handle_valid => GraphAction::RecalculateLatency,
        _ => GraphAction::Leave,
    }
}

/// Whether supervision ends with a notification: it does at the end of the
/// stream and on an error.
pub open spec fn bus_terminates(notice: Notice) -> bool {
    notice is EndOfStream || notice is Error
}

/// The supervisor's answer to one notification.
#[derive(Debug)]
pub struct BusReaction {
    /// The line to put in the log, if any.
    pub message: Option<String>,
    /// What to do to the graph.
    pub action: GraphAction,
    /// Whether supervision ends here.
    pub terminate: bool,
}

/// The supervisor's answer to `notification`. `handle_valid` says whether the
/// supervisor's handle to the graph could still be used when the notification
/// came. With an invalid handle nothing is logged and the graph is left
/// alone; supervision still ends where the notification ends it.
pub fn supervise(notification: &BusNotification, handle_valid: bool) -> (reaction: BusReaction)
    ensures
        reaction.message is Some <==> bus_message(notification@, handle_valid) is Some,
        reaction.message matches Some(text) ==> Some(text@) == bus_message(
            notification@,
            handle_valid,
        ),
        !handle_valid ==> reaction.message is None && reaction.action == GraphAction::Leave,
        reaction.action == bus_action(notification@, handle_valid),
        reaction.terminate == bus_terminates(notification@),
{
    let terminate = match notification {
        BusNotification::EndOfStream => true,
        BusNotification::Error(_) => true,
        BusNotification::LatencyRequest => false,
        BusNotification::Other => false,
    };
    if !handle_valid {
        return BusReaction { message: None, action: GraphAction::Leave, terminate };
    }
    match notification {
        BusNotification::EndOfStream => BusReaction {
            message: Some(String::from_str("⏹️ EOS")),
            action: GraphAction::Leave,
            terminate,
        },
        BusNotification::Error(error) => BusReaction {
            message: Some(error.message()),
            action: GraphAction::ForceStop,
            terminate,
        },
        BusNotification::LatencyRequest => BusReaction {
            message: None,
            action: GraphAction::RecalculateLatency,
            terminate,
        },
        BusNotification::Other => BusReaction {
            message: None,
            action: GraphAction::Leave,
            terminate,
        },
    }
}

} // verus!
