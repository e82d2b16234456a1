use codecbridge::app::{App, JobStatus, Page, WorkerMessage};
use codecbridge::media::{AudioStream, MediaFile, MediaStream};
use codecbridge::output::{CollisionPolicy, OutputDirectory};
use codecbridge::view::{
    current_conversion, display_name, footer_text, header_text, job_line, job_lines, preferences_text,
    progress_summary, summary_text, ProgressSummary,
};

fn aac_file() -> MediaFile {
    MediaFile { streams: vec![MediaStream::Audio(AudioStream { codec: "aac".to_string(), sample_rate: None, channels: None })] }
}

#[test]
fn header_marks_current_page() {
    assert_eq!(header_text(Page::Preferences), "[1 Preferences]   2 Queue    3 Progress ");
    assert_eq!(header_text(Page::Queue), " 1 Preferences   [2 Queue]   3 Progress ");
    assert_eq!(header_text(Page::Progress), " 1 Preferences    2 Queue   [3 Progress]");
}

#[test]
fn footer_texts() {
    let mut app = App::new();
    assert_eq!(footer_text(&app), "v video default | o output location | c collision policy | <Tab> next page | q quit");
    app.page = Page::Progress;
    assert_eq!(footer_text(&app), "1 Queue | 2 Preferences | 3 Progress | <Tab> next page | q quit");
    app.page = Page::Queue;
    assert_eq!(
        footer_text(&app),
        "\u{2191}\u{2193}/jk move | <Space> toggle | a add file/path | x remove | v video | <Enter> run | <Tab> next page | q quit"
    );
    app.begin_add_path();
    app.push_path_character('/');
    assert_eq!(footer_text(&app), "Add path: /\u{2588} | Enter confirm | Esc cancel");
}

#[test]
fn preferences_page_text() {
    let mut app = App::new();
    assert_eq!(
        preferences_text(&app),
        "Default video plan\nPreserve compatible video\n\nOutput\nLocation: Same as source\nFilename: {stem}_codecbrdige.mov\nExisting ouptut: Skip existing output\n\nv Toggle video mode\no Change output location\nc Change collision policy"
    );
    app.toggle_default_video_preference();
    app.output_preferences.directory = OutputDirectory::Custom("/out".to_string());
    app.output_preferences.collision = CollisionPolicy::Rename;
    let text = preferences_text(&app);
    assert!(text.contains("\nForce DNxHR\n"));
    assert!(text.contains("Location: Custom: /out\n"));
    assert!(text.contains("Existing ouptut: Create numbered copy\n"));
    app.output_preferences.directory = OutputDirectory::Subdirectory("conv".to_string());
    app.output_preferences.collision = CollisionPolicy::Overwrite;
    let text = preferences_text(&app);
    assert!(text.contains("Location: Subdirectory: conv\n"));
    assert!(text.contains("Existing ouptut: Overwrite existing output\n"));
}

fn five_jobs() -> App {
    let mut app = App::new();
    for name in ["/v/a.mp4", "/v/b.mp4", "/v/c.mp4", "/v/d.mp4", "/v/e.mp4"] {
        app.add_path(name.to_string(), aac_file());
    }
    app.apply_worker_message(WorkerMessage::Complete(0));
    app.apply_worker_message(WorkerMessage::Skipped(1, "Output already  exists".to_string()));
    app.apply_worker_message(WorkerMessage::Failed(2, "bad".to_string()));
    app.apply_worker_message(WorkerMessage::Started(3));
    app.apply_worker_message(WorkerMessage::Progress(3, 37));
    app
}

#[test]
fn progress_counts() {
    let mut app = five_jobs();
    let s = progress_summary(&app.jobs);
    assert_eq!(s, ProgressSummary { total: 5, complete: 1, pending: 1, skipped: 1, failed: 1, converting: 1 });
    assert_eq!(summary_text(&s), "Completed: 1/5    Pending: 1    Skipped: 1    Failed: 1");
    app.selected = 0;
    app.toggle_selected();
    let s = progress_summary(&app.jobs);
    assert_eq!(s, ProgressSummary { total: 4, complete: 0, pending: 1, skipped: 1, failed: 1, converting: 1 });
}

#[test]
fn job_list_lines() {
    let mut app = five_jobs();
    app.selected = 4;
    app.toggle_selected();
    assert_eq!(
        job_lines(&app.jobs),
        vec![
            "\u{2713} a.mp4  Complete".to_string(),
            "- b.mp4 SKipped: Output already  exists".to_string(),
            "! c.mp4  Failed: bad".to_string(),
            "\u{25b6} d.mp4  37%".to_string(),
        ]
    );
    app.jobs[4].status = JobStatus::Ready;
    assert_eq!(job_line(&app.jobs[4]), "\u{2022} e.mp4  Pending");
    app.jobs[4].status = JobStatus::NotNeeded;
    assert_eq!(job_line(&app.jobs[4]), "- e.mp4  Not needed");
}

#[test]
fn current_conversion_box() {
    let app = five_jobs();
    assert_eq!(current_conversion(&app), Some((" Converting: d.mp4 ".to_string(), 37)));
    assert_eq!(current_conversion(&App::new()), None);
}

#[test]
fn display_names() {
    assert_eq!(display_name("/v/clip.mp4"), "clip.mp4");
    assert_eq!(display_name("/"), "/");
    assert_eq!(display_name("a/.."), "a/..");
}
