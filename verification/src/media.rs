//! The streams of a media file, as the prober reports them.
use vstd::prelude::*;

verus! {

/// One stream of a media file.
#[derive(Debug, Clone, PartialEq, Eq)]
pub enum MediaStream {
    Video(VideoStream),
    Audio(AudioStream),
    Other,
}

/// A video stream.
#[derive(Debug, Clone, PartialEq, Eq)]
pub struct VideoStream {
    pub codec: String,
    pub width: u32,
    pub height: u32,
    pub pixel_format: Option<String>,
}

/// An audio stream.
#[derive(Debug, Clone, PartialEq, Eq)]
pub struct AudioStream {
    pub codec: String,
    pub sample_rate: Option<u32>,
    pub channels: Option<u32>,
}

/// A media file: its streams, in the order the prober lists them.
#[derive(Debug, Clone, PartialEq, Eq)]
pub struct MediaFile {
    pub streams: Vec<MediaStream>,
}

/// The first video stream of `streams`, if any.
pub open spec fn first_video_of(streams: Seq<MediaStream>) -> Option<VideoStream>
    decreases streams.len(),
{
    if streams.len() == 0 {
        None
    } else {
        match streams[0] {
            MediaStream::Video(video) => Some(video),
            _ => first_video_of(streams.drop_first()),
        }
    }
}

/// The first audio stream of `streams`, if any.
pub open spec fn first_audio_of(streams: Seq<MediaStream>) -> Option<AudioStream>
    decreases streams.len(),
{
    if streams.len() == 0 {
        None
    } else {
        match streams[0] {
            MediaStream::Audio(audio) => Some(audio),
            _ => first_audio_of(streams.drop_first()),
        }
    }
}

impl MediaFile {
    /// The first video stream of the file.
    pub fn first_video(&self) -> (r: Option<&VideoStream>)
        ensures
            match r {
                Some(video) => first_video_of(self.streams@) == Some(*video),
                None => first_video_of(self.streams@) is None,
            },
    {
        let n = self.streams.len();
        let mut i: usize = 0;
        assert(self.streams@.subrange(0, n as int) =~= self.streams@);
        while i < n
            invariant
                i <= n == self.streams.len(),
                first_video_of(self.streams@) == first_video_of(
                    self.streams@.subrange(i as int, n as int),
                ),
            decreases n - i,
        {
            let ghost rest = self.streams@.subrange(i as int, n as int);
            match &self.streams[i] {
                MediaStream::Video(video) => {
                    return Some(video);
                },
                _ => {},
            }
            assert(rest.drop_first() =~= self.streams@.subrange(i + 1, n as int));
            i = i + 1;
        }
        None
    }

    /// The first audio stream of the file.
    pub fn first_audio(&self) -> (r: Option<&AudioStream>)
        ensures
            match r {
                Some(audio) => first_audio_of(self.streams@) == Some(*audio),
                None => first_audio_of(self.streams@) is None,
            },
    {
        let n = self.streams.len();
        let mut i: usize = 0;
        assert(self.streams@.subrange(0, n as int) =~= self.streams@);
        while i < n
            invariant
                i <= n == self.streams.len(),
                first_audio_of(self.streams@) == first_audio_of(
                    self.streams@.subrange(i as int, n as int),
                ),
            decreases n - i,
        {
            let ghost rest = self.streams@.subrange(i as int, n as int);
            match &self.streams[i] {
                MediaStream::Audio(audio) => {
                    return Some(audio);
                },
                _ => {},
            }
            assert(rest.drop_first() =~= self.streams@.subrange(i + 1, n as int));
            i = i + 1;
        }
        None
    }
}

/// The first video stream is a video stream of the file with no video stream
/// before it; there is none exactly when the file has no video stream.
pub proof fn lemma_first_video(streams: Seq<MediaStream>)
    ensures
        first_video_of(streams) matches Some(video) ==> exists|i: int|
            0 <= i < streams.len() && #[trigger] streams[i] == MediaStream::Video(video) && forall|
                j: int,
            | 0 <= j < i ==> !(#[trigger] streams[j] is Video),
        first_video_of(streams) is None <==> forall|i: int|
            0 <= i < streams.len() ==> !(#[trigger] streams[i] is Video),
    decreases streams.len(),
{
    if streams.len() > 0 {
        let t = streams.drop_first();
        lemma_first_video(t);
        if !(streams[0] is Video) {
            if let Some(video) = first_video_of(streams) {
                let i = choose|i: int|
                    0 <= i < t.len() && #[trigger] t[i] == MediaStream::Video(video) && forall|j: int|
                        0 <= j < i ==> !(#[trigger] t[j] is Video);
                assert(streams[i + 1] == t[i]);
                assert forall|j: int| 0 <= j < i + 1 implies !(#[trigger] streams[j] is Video) by {
                    if j > 0 {
                        assert(streams[j] == t[j - 1]);
                    }
                }
            }
            if forall|i: int| 0 <= i < t.len() ==> !(#[trigger] t[i] is Video) {
                assert forall|i: int| 0 <= i < streams.len() implies !(#[trigger] streams[i] is Video) by {
                    if i > 0 {
                        assert(streams[i] == t[i - 1]);
                    }
                }
            }
            if forall|i: int| 0 <= i < streams.len() ==> !(#[trigger] streams[i] is Video) {
                assert forall|i: int| 0 <= i < t.len() implies !(#[trigger] t[i] is Video) by {
                    assert(t[i] == streams[i + 1]);
                }
            }
        }
    }
}

/// The first audio stream is an audio stream of the file with no audio stream
/// before it; there is none exactly when the file has no audio stream.
pub proof fn lemma_first_audio(streams: Seq<MediaStream>)
    ensures
        first_audio_of(streams) matches Some(audio) ==> exists|i: int|
            0 <= i < streams.len() && #[trigger] streams[i] == MediaStream::Audio(audio) && forall|
                j: int,
            | 0 <= j < i ==> !(#[trigger] streams[j] is Audio),
        first_audio_of(streams) is None <==> forall|i: int|
            0 <= i < streams.len() ==> !(#[trigger] streams[i] is Audio),
    decreases streams.len(),
{
    if streams.len() > 0 {
        let t = streams.drop_first();
        lemma_first_audio(t);
        if !(streams[0] is Audio) {
            if let Some(audio) = first_audio_of(streams) {
                let i = choose|i: int|
                    0 <= i < t.len() && #[trigger] t[i] == MediaStream::Audio(audio) && forall|j: int|
                        0 <= j < i ==> !(#[trigger] t[j] is Audio);
                assert(streams[i + 1] == t[i]);
                assert forall|j: int| 0 <= j < i + 1 implies !(#[trigger] streams[j] is Audio) by {
                    if j > 0 {
                        assert(streams[j] == t[j - 1]);
                    }
                }
            }
            if forall|i: int| 0 <= i < t.len() ==> !(#[trigger] t[i] is Audio) {
                assert forall|i: int| 0 <= i < streams.len() implies !(#[trigger] streams[i] is Audio) by {
                    if i > 0 {
                        assert(streams[i] == t[i - 1]);
                    }
                }
            }
            if forall|i: int| 0 <= i < streams.len() ==> !(#[trigger] streams[i] is Audio) {
                assert forall|i: int| 0 <= i < t.len() implies !(#[trigger] t[i] is Audio) by {
                    assert(t[i] == streams[i + 1]);
                }
            }
        }
    }
}

} // verus!
