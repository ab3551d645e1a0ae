//! Arriving tracks: telling their kind from the pad name, and the processing
//! chain that each kind gets.

use vstd::prelude::*;

verus! {

/// The media kind of a track.
#[derive(Clone, Copy, PartialEq, Eq, Structural, Debug)]
pub enum TrackKind {
    Audio,
    Video,
}

/// `c` with an ASCII capital letter turned into its small letter; any other
/// character as it is.
pub open spec fn ascii_lower(c: char) -> char {
    if 'A' <= c && c <= 'Z' {
        ((c as u8) + 32) as char
    } else {
        c
    }
}

/// Whether `text` begins with `prefix` when ASCII letters are compared
/// without regard to case.
pub open spec fn has_prefix_ignoring_ascii_case(text: Seq<char>, prefix: Seq<char>) -> bool {
    &&& prefix.len() <= text.len()
    &&& forall|i: int| 0 <= i < prefix.len() ==> ascii_lower(text[i]) == ascii_lower(prefix[i])
}

/// The kind that a pad name stands for: audio for a name that begins with
/// "audio", video for one that begins with "video", in any mix of upper and
/// lower case; none for every other name.
pub open spec fn kind_of_pad_name(name: Seq<char>) -> Option<TrackKind> {
    if has_prefix_ignoring_ascii_case(name, "audio"@) {
        Some(TrackKind::Audio)
    } else if has_prefix_ignoring_ascii_case(name, "video"@) {
        Some(TrackKind::Video)
    } else {
        None
    }
}

/// `c` with an ASCII capital letter turned into its small letter.
pub fn to_ascii_lower(c: char) -> (lower: char)
    ensures
        lower == ascii_lower(c),
{
    if 'A' <= c && c <= 'Z' {
        ((c as u8) + 32u8) as char
    } else {
        c
    }
}

/// Whether `text` begins with `prefix`, ASCII letters compared without regard to case.
pub fn starts_with_ignoring_ascii_case(text: &str, prefix: &str) -> (found: bool)
    ensures
        found == has_prefix_ignoring_ascii_case(text@, prefix@),
{
    let wanted = prefix.unicode_len();
    if text.unicode_len() < wanted {
        return false;
    }
    let mut i: usize = 0;
    while i < wanted
        invariant
            i <= wanted,
            wanted == prefix@.len(),
            wanted <= text@.len(),
            forall|k: int| 0 <= k < i ==> ascii_lower(text@[k]) == ascii_lower(prefix@[k]),
        decreases wanted - i,
    {
        if to_ascii_lower(text.get_char(i)) != to_ascii_lower(prefix.get_char(i)) {
            return false;
        }
        i += 1;
    }
    true
}

impl TrackKind {
    /// The kind of the track behind a pad of this name, if the name stands for one.
    pub fn from_pad_name(name: &str) -> (kind: Option<TrackKind>)
        ensures
            kind == kind_of_pad_name(name@),
    {
        if starts_with_ignoring_ascii_case(name, "audio") {
            Some(TrackKind::Audio)
        } else if starts_with_ignoring_ascii_case(name, "video") {
            Some(TrackKind::Video)
        } else {
            None
        }
    }
}

/// One processing stage of a chain.
#[derive(Clone, Copy, PartialEq, Eq, Structural, Debug)]
pub enum Stage {
    /// Brings raw audio to a common sample format.
    AudioConvert,
    /// Brings raw audio to the rate of the output device.
    AudioResample,
    /// Brings raw video to a common pixel format.
    VideoConvert,
    /// Brings raw video to the size asked for downstream.
    VideoScale,
    /// Holds the newest buffer only.
    Queue,
    /// Plays on the system's audio device.
    AudioSink,
    /// Hands every sample to the frame cell as RGBA.
    CaptureSink,
}

/// Buffers that a chain's queue holds: only the newest.
pub const QUEUE_MAX_BUFFERS: u32 = 1;

/// Byte limit of a chain's queue; zero switches the limit off.
pub const QUEUE_MAX_BYTES: u32 = 0;

/// Time limit of a chain's queue in nanoseconds; zero switches the limit off.
pub const QUEUE_MAX_TIME: u64 = 0;

/// Media type that the capture sink accepts.
pub const CAPTURE_MEDIA_TYPE: &'static str = "video/x-raw";

/// Pixel format that the capture sink accepts.
pub const CAPTURE_PIXEL_FORMAT: &'static str = "RGBA";

/// The stages of the chain for a track of `kind`, from the track towards the sink.
pub open spec fn chain_stages(kind: TrackKind) -> Seq<Stage> {
    match kind {
        TrackKind::Audio => seq![
            Stage::AudioConvert,
            Stage::AudioResample,
            Stage::Queue,
            Stage::AudioSink,
        ],
        TrackKind::Video => seq![
            Stage::VideoConvert,
            Stage::VideoScale,
            Stage::Queue,
            Stage::CaptureSink,
        ],
    }
}

/// The name of the element factory that makes a stage.
pub open spec fn factory_name_of(stage: Stage) -> Seq<char> {
    match stage {
        Stage::AudioConvert => "audioconvert"@,
        Stage::AudioResample => "audioresample"@,
        Stage::VideoConvert => "videoconvert"@,
        Stage::VideoScale => "videoscale"@,
        Stage::Queue => "queue"@,
        Stage::AudioSink => "autoaudiosink"@,
        Stage::CaptureSink => "appsink"@,
    }
}

impl Stage {
    /// The name of the element factory that makes this stage.
    pub fn factory_name(self) -> (name: &'static str)
        ensures
            name@ == factory_name_of(self),
    {
        match self {
            Stage::AudioConvert => "audioconvert",
            Stage::AudioResample => "audioresample",
            Stage::VideoConvert => "videoconvert",
            Stage::VideoScale => "videoscale",
            Stage::Queue => "queue",
            Stage::AudioSink => "autoaudiosink",
            Stage::CaptureSink => "appsink",
        }
    }
}

/// One step of putting a chain into the running graph.
#[derive(Clone, Copy, PartialEq, Eq, Structural, Debug)]
pub enum ChainStep {
    /// Make the element of one stage.
    Construct(Stage),
    /// Add all elements of the chain to the graph.
    AddToGraph,
    /// Link the track's pad to the first stage.
    LinkTrack,
    /// Link each stage to the next, in chain order.
    LinkStages,
    /// Bring one stage's state in line with the graph's.
    SyncState(Stage),
}

/// The steps that put a chain of `stages` into the graph, in the order in
/// which they are taken: every stage is made, first to last; all are added;
/// the track is linked to the first; the stages are linked in chain order;
/// then the state of every stage is synchronized, the sink first and the
/// stage next to the track last.
pub open spec fn plan_of(stages: Seq<Stage>) -> Seq<ChainStep> {
    stages.map_values(|s: Stage| ChainStep::Construct(s)) + seq![
        ChainStep::AddToGraph,
        ChainStep::LinkTrack,
        ChainStep::LinkStages,
    ] + stages.reverse().map_values(|s: Stage| ChainStep::SyncState(s))
}

/// The steps that build the chain for a track of `kind`.
pub open spec fn chain_plan(kind: TrackKind) -> Seq<ChainStep> {
    plan_of(chain_stages(kind))
}

/// In every plan the stages are linked before any state is synchronized, and
/// the states are synchronized in reverse chain order: the step at place `i`
/// after the linking is for the stage that stands `i` places before the sink.
pub proof fn lemma_plan_order(stages: Seq<Stage>)
    ensures
        plan_of(stages).len() == 2 * stages.len() + 3,
        forall|i: int|
            0 <= i < stages.len() ==> #[trigger] plan_of(stages)[i] == ChainStep::Construct(
                stages[i],
            ),
        plan_of(stages)[stages.len() as int] == ChainStep::AddToGraph,
        plan_of(stages)[stages.len() as int + 1] == ChainStep::LinkTrack,
        plan_of(stages)[stages.len() as int + 2] == ChainStep::LinkStages,
        forall|i: int|
            0 <= i < stages.len() ==> #[trigger] plan_of(stages)[stages.len() + 3 + i]
                == ChainStep::SyncState(stages[stages.len() - 1 - i]),
{
}

impl TrackKind {
    /// The stages of the chain for this kind, from the track towards the sink.
    pub fn stages(self) -> (stages: Vec<Stage>)
        ensures
            stages@ == chain_stages(self),
    {
        let mut stages: Vec<Stage> = Vec::new();
        match self {
            TrackKind::Audio => {
                stages.push(Stage::AudioConvert);
                stages.push(Stage::AudioResample);
                stages.push(Stage::Queue);
                stages.push(Stage::AudioSink);
            },
            TrackKind::Video => {
                stages.push(Stage::VideoConvert);
                stages.push(Stage::VideoScale);
                stages.push(Stage::Queue);
                stages.push(Stage::CaptureSink);
            },
        }
        assert(stages@ =~= chain_stages(self));
        stages
    }

    /// The step at place `index` of the plan for this kind, if the plan is that long.
    pub fn step_at(self, index: usize) -> (step: Option<ChainStep>)
        ensures
            step == if index < chain_plan(self).len() {
                Some(chain_plan(self)[index as int])
            } else {
                None
            },
    {
        let stages = self.stages();
        let n = stages.len();
        proof {
            lemma_plan_order(stages@);
        }
        if index < n {
            Some(ChainStep::Construct(stages[index]))
        } else if index == n {
            Some(ChainStep::AddToGraph)
        } else if index == n + 1 {
            Some(ChainStep::LinkTrack)
        } else if index == n + 2 {
            Some(ChainStep::LinkStages)
        } else if index < 2 * n + 3 {
            let back = index - (n + 3);
            assert(chain_plan(self)[n + 3 + back] == ChainStep::SyncState(
                stages@[n - 1 - back],
            ));
            Some(ChainStep::SyncState(stages[n - 1 - back]))
        } else {
            None
        }
    }

    /// The whole plan for this kind.
    pub fn plan(self) -> (plan: Vec<ChainStep>)
        ensures
            plan@ == chain_plan(self),
    {
        let mut plan: Vec<ChainStep> = Vec::new();
        let mut i: usize = 0;
        proof {
            lemma_plan_order(chain_stages(self));
        }
        loop
            invariant
                i == plan.len(),
                i <= chain_plan(self).len() == 11,
                forall|k: int| 0 <= k < i ==> plan[k] == chain_plan(self)[k],
            ensures
                plan@ =~= chain_plan(self),
            decreases 11 - i,
        {
            match self.step_at(i) {
                Some(step) => {
                    plan.push(step);
                    i += 1;
                },
                None => {
                    break ;
                },
            }
        }
        plan
    }
}

} // verus!
