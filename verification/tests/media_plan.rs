use codecbridge::media::{AudioStream, MediaFile, MediaStream, VideoStream};
use codecbridge::planner::{plan_conversion, ConversionPlan, VideoPreference};
use codecbridge::probe::{ffprobe_args, media_from_probe, stream_from_probe, ProbeOutput, ProbeStream};

fn audio(codec: &str) -> MediaStream {
    MediaStream::Audio(AudioStream { codec: codec.to_string(), sample_rate: Some(48000), channels: Some(2) })
}

fn video(codec: &str) -> MediaStream {
    MediaStream::Video(VideoStream { codec: codec.to_string(), width: 1920, height: 1080, pixel_format: None })
}

fn probe_stream(codec_type: Option<&str>, codec_name: Option<&str>) -> ProbeStream {
    ProbeStream {
        codec_name: codec_name.map(|s| s.to_string()),
        codec_type: codec_type.map(|s| s.to_string()),
        width: Some(1280),
        height: None,
        pix_fmt: Some("yuv420p".to_string()),
        sample_rate: Some("44100".to_string()),
        channels: Some(6),
    }
}

#[test]
fn first_streams_are_found() {
    let media = MediaFile { streams: vec![MediaStream::Other, audio("aac"), video("h264"), audio("mp3"), video("hevc")] };
    assert_eq!(media.first_video().unwrap().codec, "h264");
    assert_eq!(media.first_audio().unwrap().codec, "aac");
}

#[test]
fn first_streams_absent() {
    let media = MediaFile { streams: vec![MediaStream::Other] };
    assert!(media.first_video().is_none());
    assert!(media.first_audio().is_none());
    let empty = MediaFile { streams: vec![] };
    assert!(empty.first_video().is_none());
}

#[test]
fn aac_audio_needs_pcm() {
    let media = MediaFile { streams: vec![video("h264"), audio("mp3"), audio("aac")] };
    let plan = plan_conversion(&media);
    assert_eq!(plan, ConversionPlan::ConvertAudioToPcm);
    assert!(plan.needs_conversion());
}

#[test]
fn no_aac_needs_nothing() {
    let media = MediaFile { streams: vec![video("aac"), audio("AAC"), audio("pcm_s24le"), MediaStream::Other] };
    let plan = plan_conversion(&media);
    assert_eq!(plan, ConversionPlan::NoChange);
    assert!(!plan.needs_conversion());
    assert_eq!(plan_conversion(&MediaFile { streams: vec![] }), ConversionPlan::NoChange);
}

#[test]
fn video_preference_toggles() {
    assert_eq!(VideoPreference::Preserve.toggled(), VideoPreference::ForceDnxhr);
    assert_eq!(VideoPreference::ForceDnxhr.toggled(), VideoPreference::Preserve);
}

#[test]
fn probe_video_stream() {
    let s = stream_from_probe(probe_stream(Some("video"), None));
    assert_eq!(
        s,
        MediaStream::Video(VideoStream { codec: "unknown".to_string(), width: 1280, height: 0, pixel_format: Some("yuv420p".to_string()) })
    );
}

#[test]
fn probe_audio_stream() {
    let s = stream_from_probe(probe_stream(Some("audio"), Some("aac")));
    assert_eq!(
        s,
        MediaStream::Audio(AudioStream { codec: "aac".to_string(), sample_rate: Some(44100), channels: Some(6) })
    );
    let mut bad_rate = probe_stream(Some("audio"), Some("opus"));
    bad_rate.sample_rate = Some("44.1k".to_string());
    match stream_from_probe(bad_rate) {
        MediaStream::Audio(a) => assert_eq!(a.sample_rate, None),
        other => panic!("unexpected {other:?}"),
    }
}

#[test]
fn probe_other_streams() {
    assert_eq!(stream_from_probe(probe_stream(Some("subtitle"), Some("srt"))), MediaStream::Other);
    assert_eq!(stream_from_probe(probe_stream(None, Some("aac"))), MediaStream::Other);
    assert_eq!(stream_from_probe(probe_stream(Some("Video"), Some("h264"))), MediaStream::Other);
}

#[test]
fn probe_output_keeps_order() {
    let out = ProbeOutput { streams: vec![probe_stream(Some("audio"), Some("aac")), probe_stream(Some("data"), None), probe_stream(Some("video"), Some("h264"))] };
    let media = media_from_probe(out);
    assert_eq!(media.streams.len(), 3);
    assert!(matches!(media.streams[0], MediaStream::Audio(_)));
    assert_eq!(media.streams[1], MediaStream::Other);
    assert!(matches!(media.streams[2], MediaStream::Video(_)));
    assert_eq!(plan_conversion(&media), ConversionPlan::ConvertAudioToPcm);
}

#[test]
fn ffprobe_arguments() {
    assert_eq!(ffprobe_args("/tmp/a.mp4"), vec!["-v", "error", "-show_streams", "-show_format", "-of", "json", "/tmp/a.mp4"]);
}
