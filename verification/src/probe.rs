//! What `ffprobe` reports, and the media file that a report describes.
use vstd::prelude::*;
use crate::media::{AudioStream, MediaFile, MediaStream, VideoStream};
use crate::text::{owned, str_equal, parse_u32, parse_u32_spec, decimal, lemma_parse_decimal};

verus! {

/// The report of `ffprobe -show_streams -of json`: the fields that are read.
#[derive(Debug, Clone, PartialEq, Eq)]
pub struct ProbeOutput {
    pub streams: Vec<ProbeStream>,
}

/// One stream of an `ffprobe` report.
#[derive(Debug, Clone, PartialEq, Eq)]
pub struct ProbeStream {
    pub codec_name: Option<String>,
    pub codec_type: Option<String>,
    pub width: Option<u32>,
    pub height: Option<u32>,
    pub pix_fmt: Option<String>,
    pub sample_rate: Option<String>,
    pub channels: Option<u32>,
}

/// The codec's name, or `unknown` where the report gives none.
pub open spec fn codec_or_unknown(codec_name: Option<String>) -> Seq<char> {
    match codec_name {
        Some(name) => name@,
        None => "unknown"@,
    }
}

/// The sample rate of a report's (textual) sample rate: its value where it is
/// a `u32` in decimal, else none.
pub open spec fn sample_rate_of(sample_rate: Option<String>) -> Option<u32> {
    match sample_rate {
        Some(text) => parse_u32_spec(text@),
        None => None,
    }
}

/// A dimension, or 0 where the report gives none.
pub open spec fn dimension_or_zero(value: Option<u32>) -> u32 {
    match value {
        Some(v) => v,
        None => 0,
    }
}

/// Whether `stream` is what the report's `probe` stream describes: a video
/// stream for codec type `video`, an audio stream for `audio`, and `Other` for
/// any other type or none.
pub open spec fn describes(stream: MediaStream, probe: ProbeStream) -> bool {
    if probe.codec_type.deep_view() == Some("video"@) {
        &&& stream matches MediaStream::Video(video)
        &&& video.codec@ == codec_or_unknown(probe.codec_name)
        &&& video.width == dimension_or_zero(probe.width)
        &&& video.height == dimension_or_zero(probe.height)
        &&& video.pixel_format.deep_view() == probe.pix_fmt.deep_view()
    } else if probe.codec_type.deep_view() == Some("audio"@) {
        &&& stream matches MediaStream::Audio(audio)
        &&& audio.codec@ == codec_or_unknown(probe.codec_name)
        &&& audio.sample_rate == sample_rate_of(probe.sample_rate)
        &&& audio.channels == probe.channels
    } else {
        stream is Other
    }
}

fn codec_name_or_unknown(codec_name: Option<String>) -> (r: String)
    ensures
        r@ == codec_or_unknown(codec_name),
{
    match codec_name {
        Some(name) => name,
        None => owned("unknown"),
    }
}

fn has_type(codec_type: &Option<String>, name: &str) -> (r: bool)
    ensures
        r == (codec_type.deep_view() == Some(name@)),
{
    match codec_type {
        Some(t) => str_equal(t.as_str(), name),
        None => false,
    }
}

/// The media stream that one stream of a report describes.
pub fn stream_from_probe(probe: ProbeStream) -> (r: MediaStream)
    ensures
        describes(r, probe),
{
    if has_type(&probe.codec_type, "video") {
        let width = match probe.width {
            Some(w) => w,
            None => 0,
        };
        let height = match probe.height {
            Some(h) => h,
            None => 0,
        };
        MediaStream::Video(
            VideoStream {
                codec: codec_name_or_unknown(probe.codec_name),
                width,
                height,
                pixel_format: probe.pix_fmt,
            },
        )
    } else if has_type(&probe.codec_type, "audio") {
        let sample_rate = match &probe.sample_rate {
            Some(text) => parse_u32(text.as_str()),
            None => None,
        };
        MediaStream::Audio(
            AudioStream {
                codec: codec_name_or_unknown(probe.codec_name),
                sample_rate,
                channels: probe.channels,
            },
        )
    } else {
        MediaStream::Other
    }
}

/// The media file that a report describes: one stream per reported stream, in
/// the same order.
pub fn media_from_probe(probe: ProbeOutput) -> (r: MediaFile)
    ensures
        r.streams.len() == probe.streams.len(),
        forall|i: int|
            0 <= i < probe.streams.len() ==> describes(#[trigger] r.streams@[i], probe.streams@[i]),
{
    let mut streams: Vec<MediaStream> = Vec::new();
    let ghost reported = probe.streams@;
    for stream in it: probe.streams.into_iter()
        invariant
            it.seq() == reported,
            streams.len() == it.index(),
            forall|j: int| 0 <= j < it.index() ==> describes(#[trigger] streams@[j], reported[j]),
    {
        streams.push(stream_from_probe(stream));
    }
    MediaFile { streams }
}

/// The arguments of the `ffprobe` call that reports on `path`'s streams in
/// JSON.
pub fn ffprobe_args(path: &str) -> (r: Vec<String>)
    ensures
        r@.len() == 7,
        r@[0]@ == "-v"@,
        r@[1]@ == "error"@,
        r@[2]@ == "-show_streams"@,
        r@[3]@ == "-show_format"@,
        r@[4]@ == "-of"@,
        r@[5]@ == "json"@,
        r@[6]@ == path@,
{
    let mut r: Vec<String> = Vec::new();
    r.push(owned("-v"));
    r.push(owned("error"));
    r.push(owned("-show_streams"));
    r.push(owned("-show_format"));
    r.push(owned("-of"));
    r.push(owned("json"));
    r.push(owned(path));
    r
}

/// A stream reported as `video` is read as a video stream with the reported
/// codec name (`unknown` only when none is reported), the reported width and
/// height (0 where missing) and the reported pixel format.
pub proof fn lemma_video_stream_read(stream: MediaStream, probe: ProbeStream)
    requires
        describes(stream, probe),
        probe.codec_type matches Some(t) && t@ == "video"@,
    ensures
        stream matches MediaStream::Video(video) && {
            &&& probe.codec_name matches Some(name) ==> video.codec@ == name@
            &&& probe.codec_name is None ==> video.codec@ == "unknown"@
            &&& probe.width matches Some(w) ==> video.width == w
            &&& probe.width is None ==> video.width == 0
            &&& probe.height matches Some(h) ==> video.height == h
            &&& probe.height is None ==> video.height == 0
            &&& probe.pix_fmt matches Some(f) ==> video.pixel_format matches Some(g) && g@ == f@
            &&& probe.pix_fmt is None ==> video.pixel_format is None
        },
{
}

/// A stream reported as `audio` is read as an audio stream with the reported
/// codec name (`unknown` only when none is reported), the reported channel
/// count, and the reported sample rate where it is a `u32` written in decimal.
pub proof fn lemma_audio_stream_read(stream: MediaStream, probe: ProbeStream)
    requires
        describes(stream, probe),
        probe.codec_type matches Some(t) && t@ == "audio"@,
    ensures
        stream matches MediaStream::Audio(audio) && {
            &&& probe.codec_name matches Some(name) ==> audio.codec@ == name@
            &&& probe.codec_name is None ==> audio.codec@ == "unknown"@
            &&& audio.channels == probe.channels
            &&& probe.sample_rate is None ==> audio.sample_rate is None
            &&& forall|rate: u32|
                probe.sample_rate matches Some(text) && text@ == #[trigger] decimal(rate as nat)
                    ==> audio.sample_rate == Some(rate)
        },
{
    reveal_strlit("audio");
    reveal_strlit("video");
    assert("audio"@[0] != "video"@[0]);
    assert("audio"@ != "video"@);
    assert forall|rate: u32|
        probe.sample_rate matches Some(text) && text@ == #[trigger] decimal(
            rate as nat,
        ) implies stream matches MediaStream::Audio(audio) && audio.sample_rate == Some(rate) by {
        lemma_parse_decimal(rate);
    }
}

/// A stream reported with another type, or with none, is read as `Other`.
pub proof fn lemma_other_stream_read(stream: MediaStream, probe: ProbeStream)
    requires
        describes(stream, probe),
        !(probe.codec_type matches Some(t) && (t@ == "video"@ || t@ == "audio"@)),
    ensures
        stream is Other,
{
}

} // verus!
