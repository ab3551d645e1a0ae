//! The fixed configuration of the network source that a pipeline starts with.

use vstd::prelude::*;

verus! {

/// Name of the element factory that makes the network source.
pub const SOURCE_FACTORY: &'static str = "webrtcsrc";

/// A video codec that the source may negotiate.
#[derive(Clone, Copy, PartialEq, Eq, Structural, Debug)]
pub enum VideoCodec {
    H264,
    Vp8,
}

/// An audio codec that the source may negotiate.
#[derive(Clone, Copy, PartialEq, Eq, Structural, Debug)]
pub enum AudioCodec {
    Opus,
}

/// The name by which the source knows a video codec.
pub open spec fn video_codec_name(codec: VideoCodec) -> Seq<char> {
    match codec {
        VideoCodec::H264 => "H264"@,
        VideoCodec::Vp8 => "VP8"@,
    }
}

/// The name by which the source knows an audio codec.
pub open spec fn audio_codec_name(codec: AudioCodec) -> Seq<char> {
    match codec {
        AudioCodec::Opus => "OPUS"@,
    }
}

impl VideoCodec {
    /// The name by which the source knows this codec.
    pub fn name(self) -> (name: &'static str)
        ensures
            name@ == video_codec_name(self),
    {
        match self {
            VideoCodec::H264 => "H264",
            VideoCodec::Vp8 => "VP8",
        }
    }
}

impl AudioCodec {
    /// The name by which the source knows this codec.
    pub fn name(self) -> (name: &'static str)
        ensures
            name@ == audio_codec_name(self),
    {
        match self {
            AudioCodec::Opus => "OPUS",
        }
    }
}

/// `names` one after the other, with a comma and a space between neighbours.
pub open spec fn joined(names: Seq<Seq<char>>) -> Seq<char>
    decreases names.len(),
{
    if names.len() == 0 {
        Seq::empty()
    } else if names.len() == 1 {
        names[0]
    } else {
        joined(names.drop_last()) + ", "@ + names.last()
    }
}

/// A list of names as the source reads a list property: the names between
/// angle brackets, with a comma and a space between neighbours.
pub open spec fn list_text(names: Seq<Seq<char>>) -> Seq<char> {
    "<"@ + joined(names) + ">"@
}

/// What a source configuration says.
pub struct SourceSettings {
    /// Connect to the first producer that is discovered.
    pub connect_to_first_producer: bool,
    /// The video codecs accepted, most wanted first.
    pub video_codecs: Seq<VideoCodec>,
    /// The audio codecs accepted, most wanted first.
    pub audio_codecs: Seq<AudioCodec>,
    /// Open the out-of-band control channel.
    pub enable_control_data_channel: bool,
}

/// The one configuration that every pipeline is started with: connect to the
/// first producer, accept H264 and VP8 video and OPUS audio, and open the
/// control channel.
pub open spec fn source_settings() -> SourceSettings {
    SourceSettings {
        connect_to_first_producer: true,
        video_codecs: seq![VideoCodec::H264, VideoCodec::Vp8],
        audio_codecs: seq![AudioCodec::Opus],
        enable_control_data_channel: true,
    }
}

/// The configuration of the network source.
#[derive(Debug)]
pub struct SourceConfig {
    pub connect_to_first_producer: bool,
    pub video_codecs: Vec<VideoCodec>,
    pub audio_codecs: Vec<AudioCodec>,
    pub enable_control_data_channel: bool,
}

impl View for SourceConfig {
    type V = SourceSettings;

    open spec fn view(&self) -> SourceSettings {
        SourceSettings {
            connect_to_first_producer: self.connect_to_first_producer,
            video_codecs: self.video_codecs@,
            audio_codecs: self.audio_codecs@,
            enable_control_data_channel: self.enable_control_data_channel,
        }
    }
}

impl SourceConfig {
    /// The accepted video codecs as the text of a list property.
    pub fn video_codecs_text(&self) -> (text: String)
        ensures
            text@ == list_text(self@.video_codecs.map_values(|c: VideoCodec| video_codec_name(c))),
    {
        let ghost names = self@.video_codecs.map_values(|c: VideoCodec| video_codec_name(c));
        let mut text = String::from_str("<");
        let mut i: usize = 0;
        while i < self.video_codecs.len()
            invariant
                i <= self.video_codecs.len(),
                names == self@.video_codecs.map_values(|c: VideoCodec| video_codec_name(c)),
                text@ == "<"@ + joined(names.take(i as int)),
            decreases self.video_codecs.len() - i,
        {
            proof {
                assert(names.take(i + 1).drop_last() =~= names.take(i as int));
            }
            if i > 0 {
                text.append(", ");
            }
            text.append(self.video_codecs[i].name());
            i += 1;
            assert(text@ =~= "<"@ + joined(names.take(i as int)));
        }
        assert(names.take(i as int) =~= names);
        text.append(">");
        text
    }

    /// The accepted audio codecs as the text of a list property.
    pub fn audio_codecs_text(&self) -> (text: String)
        ensures
            text@ == list_text(self@.audio_codecs.map_values(|c: AudioCodec| audio_codec_name(c))),
    {
        let ghost names = self@.audio_codecs.map_values(|c: AudioCodec| audio_codec_name(c));
        let mut text = String::from_str("<");
        let mut i: usize = 0;
        while i < self.audio_codecs.len()
            invariant
                i <= self.audio_codecs.len(),
                names == self@.audio_codecs.map_values(|c: AudioCodec| audio_codec_name(c)),
                text@ == "<"@ + joined(names.take(i as int)),
            decreases self.audio_codecs.len() - i,
        {
            proof {
                assert(names.take(i + 1).drop_last() =~= names.take(i as int));
            }
            if i > 0 {
                text.append(", ");
            }
            text.append(self.audio_codecs[i].name());
            i += 1;
            assert(text@ =~= "<"@ + joined(names.take(i as int)));
        }
        assert(names.take(i as int) =~= names);
        text.append(">");
        text
    }
}

/// The configuration that every pipeline is started with.
pub fn source_config() -> (config: SourceConfig)
    ensures
        config@ == source_settings(),
{
    let mut video_codecs: Vec<VideoCodec> = Vec::new();
    video_codecs.push(VideoCodec::H264);
    video_codecs.push(VideoCodec::Vp8);
    let mut audio_codecs: Vec<AudioCodec> = Vec::new();
    audio_codecs.push(AudioCodec::Opus);
    let config = SourceConfig {
        connect_to_first_producer: true,
        video_codecs,
        audio_codecs,
        enable_control_data_channel: true,
    };
    assert(config@.video_codecs =~= source_settings().video_codecs);
    assert(config@.audio_codecs =~= source_settings().audio_codecs);
    config
}

} // verus!
