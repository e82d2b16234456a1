//! Which conversion a media file needs.
use vstd::prelude::*;
use crate::media::{MediaFile, MediaStream};
use crate::text::{str_equal};

verus! {

/// The conversion that a file needs.
#[derive(Debug, Clone, Copy, PartialEq, Eq, Structural)]
pub enum ConversionPlan {
    /// The file can be used as it is.
    NoChange,
    /// The audio is re-encoded as PCM; video is copied.
    ConvertAudioToPcm,
}

/// How video is to be treated when a conversion is planned.
#[derive(Debug, Clone, Copy, PartialEq, Eq, Structural)]
pub enum VideoPreference {
    /// Keep the video as it is.
    Preserve,
    /// Transcode the video to DNxHR.
    ForceDnxhr,
}

/// The preferences that planning is done under.
#[derive(Debug, Clone, Copy, PartialEq, Eq, Structural)]
pub struct PlanningPreferences {
    pub video: VideoPreference,
}

/// Whether a stream is an audio stream in the AAC codec.
pub open spec fn is_aac_audio(stream: MediaStream) -> bool {
    stream matches MediaStream::Audio(audio) && audio.codec@ == "aac"@
}

/// Whether some stream is an audio stream in the AAC codec.
pub open spec fn has_aac_audio(streams: Seq<MediaStream>) -> bool {
    exists|i: int| 0 <= i < streams.len() && is_aac_audio(#[trigger] streams[i])
}

/// The plan for a file with these streams: AAC audio anywhere calls for PCM
/// audio, anything else for no change.
pub open spec fn plan_for(streams: Seq<MediaStream>) -> ConversionPlan {
    if has_aac_audio(streams) {
        ConversionPlan::ConvertAudioToPcm
    } else {
        ConversionPlan::NoChange
    }
}

/// Plans the conversion of a media file.
pub fn plan_conversion(media: &MediaFile) -> (r: ConversionPlan)
    ensures
        r == plan_for(media.streams@),
{
    let n = media.streams.len();
    for i in 0..n
        invariant
            n == media.streams.len(),
            forall|j: int| 0 <= j < i ==> !is_aac_audio(#[trigger] media.streams@[j]),
    {
        match &media.streams[i] {
            MediaStream::Audio(audio) => {
                if str_equal(audio.codec.as_str(), "aac") {
                    assert(is_aac_audio(media.streams@[i as int]));
                    return ConversionPlan::ConvertAudioToPcm;
                }
            },
            _ => {},
        }
    }
    ConversionPlan::NoChange
}

impl ConversionPlan {
    /// Whether the plan calls for a conversion.
    pub fn needs_conversion(&self) -> (r: bool)
        ensures
            r == (*self is ConvertAudioToPcm),
    {
        match self {
            ConversionPlan::NoChange => false,
            ConversionPlan::ConvertAudioToPcm => true,
        }
    }
}

impl VideoPreference {
    /// The other preference.
    pub fn toggled(self) -> (r: VideoPreference)
        ensures
            r == (match self {
                VideoPreference::Preserve => VideoPreference::ForceDnxhr,
                VideoPreference::ForceDnxhr => VideoPreference::Preserve,
            }),
    {
        match self {
            VideoPreference::Preserve => VideoPreference::ForceDnxhr,
            VideoPreference::ForceDnxhr => VideoPreference::Preserve,
        }
    }
}

/// A file with an AAC audio stream anywhere, whatever comes before or after
/// it, is planned for PCM audio; a file without one is left as it is.
pub proof fn lemma_plan_follows_aac(streams: Seq<MediaStream>, i: int)
    ensures
        0 <= i < streams.len() && (streams[i] matches MediaStream::Audio(audio) && audio.codec@
            == "aac"@) ==> plan_for(streams) == ConversionPlan::ConvertAudioToPcm,
        (forall|j: int|
            0 <= j < streams.len() ==> !(#[trigger] streams[j] matches MediaStream::Audio(audio)
                && audio.codec@ == "aac"@)) ==> plan_for(streams) == ConversionPlan::NoChange,
{
    if 0 <= i < streams.len() && (streams[i] matches MediaStream::Audio(audio) && audio.codec@
        == "aac"@) {
        assert(is_aac_audio(streams[i]));
    }
    if forall|j: int|
        0 <= j < streams.len() ==> !(#[trigger] streams[j] matches MediaStream::Audio(audio)
            && audio.codec@ == "aac"@) {
        assert forall|j: int| 0 <= j < streams.len() implies !is_aac_audio(#[trigger] streams[j]) by {
        }
    }
}

/// Adding streams to a file planned for PCM audio, before or after its
/// streams, keeps it planned for PCM audio.
pub proof fn lemma_plan_kept_by_more_streams(
    before: Seq<MediaStream>,
    streams: Seq<MediaStream>,
    after: Seq<MediaStream>,
)
    requires
        plan_for(streams) == ConversionPlan::ConvertAudioToPcm,
    ensures
        plan_for(before + streams + after) == ConversionPlan::ConvertAudioToPcm,
{
    let i = choose|i: int| 0 <= i < streams.len() && is_aac_audio(#[trigger] streams[i]);
    let all = before + streams + after;
    assert(all[before.len() + i] == streams[i]);
    assert(is_aac_audio(all[before.len() + i]));
}

} // verus!
