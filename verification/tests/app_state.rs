use codecbridge::app::{
    command_for_key, conversion_report, start_job, App, Command, Job, JobStart, JobStatus, Key, KeyOutcome, Page,
    QueuedJob, WorkerMessage,
};
use codecbridge::media::{AudioStream, MediaFile, MediaStream};
use codecbridge::output::{CollisionPolicy, OutputDirectory, OutputError, OutputResolution};
use codecbridge::planner::{ConversionPlan, VideoPreference};

fn aac_file() -> MediaFile {
    MediaFile { streams: vec![MediaStream::Audio(AudioStream { codec: "aac".to_string(), sample_rate: None, channels: None })] }
}

fn pcm_file() -> MediaFile {
    MediaFile { streams: vec![MediaStream::Audio(AudioStream { codec: "pcm_s16le".to_string(), sample_rate: None, channels: None })] }
}

fn app_with(files: &[(&str, MediaFile)]) -> App {
    let mut app = App::new();
    for (path, media) in files {
        app.add_path(path.to_string(), media.clone());
    }
    app
}

#[test]
fn new_app() {
    let app = App::new();
    assert!(!app.should_quit);
    assert!(app.jobs.is_empty());
    assert_eq!(app.selected, 0);
    assert_eq!(app.page, Page::Preferences);
    assert_eq!(app.default_preferences.video, VideoPreference::Preserve);
    assert!(!app.worker_running);
    assert_eq!(app.output_preferences.collision, CollisionPolicy::Skip);
    assert!(!app.adding_path);
    assert_eq!(app.path_input, "");
}

#[test]
fn status_descriptions() {
    assert_eq!(JobStatus::Ready.description(), "Ready");
    assert_eq!(JobStatus::NotNeeded.description(), "Not needed");
    assert_eq!(JobStatus::Converting.description(), "Converting");
    assert_eq!(JobStatus::Complete.description(), "Complete");
    assert_eq!(JobStatus::Skipped("x".to_string()).description(), "Skipped");
    assert_eq!(JobStatus::Failed("x".to_string()).description(), "Failed");
}

#[test]
fn added_jobs_are_planned() {
    let app = app_with(&[("a.mp4", aac_file()), ("b.mov", pcm_file())]);
    assert_eq!(app.jobs.len(), 2);
    assert_eq!(app.jobs[0].path, "a.mp4");
    assert_eq!(app.jobs[0].plan, ConversionPlan::ConvertAudioToPcm);
    assert!(app.jobs[0].enabled);
    assert_eq!(app.jobs[0].status, JobStatus::Ready);
    assert_eq!(app.jobs[1].plan, ConversionPlan::NoChange);
    assert!(!app.jobs[1].enabled);
    assert_eq!(app.jobs[1].status, JobStatus::NotNeeded);
    assert_eq!(app.jobs[1].progress, 0);
}

#[test]
fn path_entry() {
    let mut app = App::new();
    app.begin_add_path();
    assert!(app.adding_path);
    for c in " '/tmp/a\\ b.mp4' ".chars() {
        app.push_path_character(c);
    }
    app.push_path_character('x');
    app.pop_path_character();
    assert_eq!(app.path_input, " '/tmp/a\\ b.mp4' ");
    let path = app.submit_path();
    assert_eq!(path, "/tmp/a b.mp4");
    assert!(!app.adding_path);
    assert_eq!(app.path_input, "");
    app.pop_path_character();
    assert_eq!(app.path_input, "");
}

#[test]
fn cancel_path_entry() {
    let mut app = App::new();
    app.begin_add_path();
    app.push_path_character('a');
    app.cancel_add_path();
    assert!(!app.adding_path);
    assert_eq!(app.path_input, "");
    app.push_path_character('b');
    app.begin_add_path();
    assert_eq!(app.path_input, "");
}

#[test]
fn page_navigation() {
    let mut app = App::new();
    app.next_page();
    assert_eq!(app.page, Page::Progress);
    app.next_page();
    assert_eq!(app.page, Page::Queue);
    app.next_page();
    assert_eq!(app.page, Page::Preferences);
    app.previous_page();
    assert_eq!(app.page, Page::Queue);
    app.next_page();
    assert_eq!(app.page, Page::Preferences);
}

#[test]
fn preference_cycles() {
    let mut app = App::new();
    app.cycle_collision_policy();
    assert_eq!(app.output_preferences.collision, CollisionPolicy::Rename);
    app.cycle_collision_policy();
    assert_eq!(app.output_preferences.collision, CollisionPolicy::Overwrite);
    app.cycle_collision_policy();
    assert_eq!(app.output_preferences.collision, CollisionPolicy::Skip);
    app.toggle_default_video_preference();
    assert_eq!(app.default_preferences.video, VideoPreference::ForceDnxhr);
    app.toggle_default_video_preference();
    assert_eq!(app.default_preferences.video, VideoPreference::Preserve);
    app.cycle_output_directory();
    assert_eq!(app.output_preferences.directory, OutputDirectory::Subdirectory("codecbridge".to_string()));
    app.cycle_output_directory();
    assert_eq!(app.output_preferences.directory, OutputDirectory::SameAsSource);
    app.output_preferences.directory = OutputDirectory::Custom("/x".to_string());
    app.cycle_output_directory();
    assert_eq!(app.output_preferences.directory, OutputDirectory::SameAsSource);
}

#[test]
fn selection_wraps() {
    let mut app = app_with(&[("a.mp4", aac_file()), ("b.mp4", aac_file()), ("c.mp4", aac_file())]);
    app.previous();
    assert_eq!(app.selected, 2);
    app.next();
    assert_eq!(app.selected, 0);
    app.next();
    app.next();
    assert_eq!(app.selected, 2);
    app.previous();
    app.next();
    assert_eq!(app.selected, 2);
    let mut empty = App::new();
    empty.next();
    empty.previous();
    assert_eq!(empty.selected, 0);
}

#[test]
fn toggle_selected_job() {
    let mut app = app_with(&[("a.mp4", aac_file()), ("b.mp4", pcm_file())]);
    app.next();
    app.toggle_selected();
    assert!(app.jobs[1].enabled);
    assert!(app.jobs[0].enabled);
    app.toggle_selected();
    assert!(!app.jobs[1].enabled);
    let mut empty = App::new();
    empty.toggle_selected();
    assert!(empty.jobs.is_empty());
}

#[test]
fn remove_keeps_selection_inside() {
    let mut app = app_with(&[("a.mp4", aac_file()), ("b.mp4", aac_file()), ("c.mp4", aac_file())]);
    app.previous();
    app.remove_selected();
    assert_eq!(app.jobs.len(), 2);
    assert_eq!(app.selected, 1);
    assert_eq!(app.jobs[1].path, "b.mp4");
    app.previous();
    app.remove_selected();
    assert_eq!(app.selected, 0);
    assert_eq!(app.jobs[0].path, "b.mp4");
    app.remove_selected();
    assert!(app.jobs.is_empty());
    assert_eq!(app.selected, 0);
    app.remove_selected();
    assert!(app.jobs.is_empty());
}

#[test]
fn worker_messages_update_jobs() {
    let mut app = app_with(&[("a.mp4", aac_file()), ("b.mp4", aac_file())]);
    app.worker_running = true;
    app.apply_worker_message(WorkerMessage::Started(0));
    assert_eq!(app.jobs[0].status, JobStatus::Converting);
    assert_eq!(app.active_job().unwrap().path, "a.mp4");
    app.apply_worker_message(WorkerMessage::Progress(0, 42));
    assert_eq!(app.jobs[0].progress, 42);
    app.apply_worker_message(WorkerMessage::Complete(0));
    assert_eq!(app.jobs[0].status, JobStatus::Complete);
    assert!(app.active_job().is_none());
    app.apply_worker_message(WorkerMessage::Skipped(1, "exists".to_string()));
    assert_eq!(app.jobs[1].status, JobStatus::Skipped("exists".to_string()));
    app.apply_worker_message(WorkerMessage::Failed(1, "boom".to_string()));
    assert_eq!(app.jobs[1].status, JobStatus::Failed("boom".to_string()));
    app.apply_worker_message(WorkerMessage::Started(7));
    assert_eq!(app.jobs.len(), 2);
    assert!(app.worker_running);
    app.apply_worker_message(WorkerMessage::QueueComplete);
    assert!(!app.worker_running);
}

#[test]
fn run_conversions_queues_enabled_jobs() {
    let mut app = app_with(&[("a.mp4", aac_file()), ("b.mp4", pcm_file()), ("c.mp4", aac_file()), ("d.mp4", aac_file())]);
    app.selected = 2;
    app.toggle_selected();
    app.selected = 1;
    app.toggle_selected();
    let batch = app.run_conversions();
    assert_eq!(
        batch,
        vec![
            QueuedJob { index: 0, path: "a.mp4".to_string(), plan: ConversionPlan::ConvertAudioToPcm },
            QueuedJob { index: 3, path: "d.mp4".to_string(), plan: ConversionPlan::ConvertAudioToPcm },
        ]
    );
    assert!(app.worker_running);
    assert!(app.run_conversions().is_empty());
}

#[test]
fn run_conversions_with_nothing_to_do() {
    let mut app = app_with(&[("b.mp4", pcm_file())]);
    assert!(app.run_conversions().is_empty());
    assert!(!app.worker_running);
}

#[test]
fn worker_job_starts() {
    assert_eq!(
        start_job(3, Ok(OutputResolution::Path("x.mov".to_string())), CollisionPolicy::Rename),
        JobStart::Convert { output: "x.mov".to_string(), overwrite: false }
    );
    assert_eq!(
        start_job(3, Ok(OutputResolution::Path("x.mov".to_string())), CollisionPolicy::Overwrite),
        JobStart::Convert { output: "x.mov".to_string(), overwrite: true }
    );
    assert_eq!(
        start_job(3, Ok(OutputResolution::Skip), CollisionPolicy::Skip),
        JobStart::Report(WorkerMessage::Skipped(3, "Output already  exists".to_string()))
    );
    assert_eq!(
        start_job(4, Err(OutputError::NoFileName), CollisionPolicy::Skip),
        JobStart::Report(WorkerMessage::Failed(4, "Input file has no filename".to_string()))
    );
}

#[test]
fn conversion_reports() {
    assert_eq!(conversion_report(2, Ok(())), WorkerMessage::Complete(2));
    assert_eq!(conversion_report(2, Err("ffmpeg conversion failed".to_string())), WorkerMessage::Failed(2, "ffmpeg conversion failed".to_string()));
}

#[test]
fn toggle_video_mode_replans_selected_job() {
    let mut app = app_with(&[("a.mp4", aac_file()), ("b.mp4", pcm_file())]);
    app.jobs[0].enabled = false;
    app.jobs[0].status = JobStatus::Complete;
    app.jobs[0].progress = 100;
    app.toggle_video_mode();
    assert!(app.jobs[0].enabled);
    assert_eq!(app.jobs[0].status, JobStatus::Ready);
    assert_eq!(app.jobs[0].progress, 100);
    app.next();
    app.jobs[1].enabled = true;
    app.toggle_video_mode();
    assert!(!app.jobs[1].enabled);
    assert_eq!(app.jobs[1].status, JobStatus::NotNeeded);
    let mut empty = App::new();
    empty.toggle_video_mode();
    assert!(empty.jobs.is_empty());
}

#[test]
fn key_commands() {
    assert_eq!(command_for_key(Key::Char('q'), false, Page::Queue), Command::Quit);
    assert_eq!(command_for_key(Key::Char('q'), true, Page::Queue), Command::TypeCharacter('q'));
    assert_eq!(command_for_key(Key::Enter, true, Page::Preferences), Command::SubmitPath);
    assert_eq!(command_for_key(Key::Esc, true, Page::Queue), Command::CancelPath);
    assert_eq!(command_for_key(Key::Backspace, true, Page::Queue), Command::DeleteCharacter);
    assert_eq!(command_for_key(Key::Tab, true, Page::Queue), Command::Nothing);
    assert_eq!(command_for_key(Key::Char('a'), false, Page::Queue), Command::BeginPath);
    assert_eq!(command_for_key(Key::Char('a'), false, Page::Progress), Command::Nothing);
    assert_eq!(command_for_key(Key::Char('j'), false, Page::Progress), Command::SelectNext);
    assert_eq!(command_for_key(Key::Down, false, Page::Progress), Command::SelectNext);
    assert_eq!(command_for_key(Key::Char('k'), false, Page::Queue), Command::SelectPrevious);
    assert_eq!(command_for_key(Key::Up, false, Page::Queue), Command::SelectPrevious);
    assert_eq!(command_for_key(Key::Char(' '), false, Page::Preferences), Command::ToggleSelected);
    assert_eq!(command_for_key(Key::Enter, false, Page::Queue), Command::RunConversions);
    assert_eq!(command_for_key(Key::Enter, false, Page::Progress), Command::Nothing);
    assert_eq!(command_for_key(Key::Char('o'), false, Page::Preferences), Command::CycleOutputDirectory);
    assert_eq!(command_for_key(Key::Char('o'), false, Page::Queue), Command::Nothing);
    assert_eq!(command_for_key(Key::Char('v'), false, Page::Queue), Command::ToggleVideoMode);
    assert_eq!(command_for_key(Key::Char('v'), false, Page::Preferences), Command::ToggleDefaultVideo);
    assert_eq!(command_for_key(Key::Char('v'), false, Page::Progress), Command::Nothing);
    assert_eq!(command_for_key(Key::Char('c'), false, Page::Preferences), Command::CycleCollisionPolicy);
    assert_eq!(command_for_key(Key::Char('x'), false, Page::Queue), Command::RemoveSelected);
    assert_eq!(command_for_key(Key::Char('x'), false, Page::Preferences), Command::Nothing);
    assert_eq!(command_for_key(Key::Tab, false, Page::Queue), Command::NextPage);
    assert_eq!(command_for_key(Key::BackTab, false, Page::Queue), Command::PreviousPage);
    assert_eq!(command_for_key(Key::Char('1'), false, Page::Queue), Command::GoTo(Page::Preferences));
    assert_eq!(command_for_key(Key::Char('2'), false, Page::Queue), Command::GoTo(Page::Queue));
    assert_eq!(command_for_key(Key::Char('3'), false, Page::Queue), Command::GoTo(Page::Progress));
    assert_eq!(command_for_key(Key::Char('z'), false, Page::Queue), Command::Nothing);
    assert_eq!(command_for_key(Key::Other, false, Page::Queue), Command::Nothing);
}

#[test]
fn keys_drive_the_application() {
    let mut app = app_with(&[("a.mp4", aac_file()), ("b.mp4", pcm_file())]);
    assert_eq!(app.handle_key(Key::Char('2')), KeyOutcome::Nothing);
    assert_eq!(app.page, Page::Queue);
    app.handle_key(Key::Char('a'));
    assert!(app.adding_path);
    for c in "'x.mp4'".chars() {
        app.handle_key(Key::Char(c));
    }
    app.handle_key(Key::Char('q'));
    app.handle_key(Key::Backspace);
    assert_eq!(app.handle_key(Key::Enter), KeyOutcome::AddPath("x.mp4".to_string()));
    assert!(!app.adding_path);
    app.handle_key(Key::Down);
    assert_eq!(app.selected, 1);
    app.handle_key(Key::Char('x'));
    assert_eq!(app.jobs.len(), 1);
    assert_eq!(app.selected, 0);
    let outcome = app.handle_key(Key::Enter);
    assert_eq!(
        outcome,
        KeyOutcome::StartWorker(vec![QueuedJob { index: 0, path: "a.mp4".to_string(), plan: ConversionPlan::ConvertAudioToPcm }])
    );
    assert!(app.worker_running);
    assert_eq!(app.page, Page::Progress);
    app.handle_key(Key::Tab);
    assert_eq!(app.page, Page::Queue);
    app.handle_key(Key::Char('q'));
    assert!(app.should_quit);
}

#[test]
fn enter_with_nothing_to_convert_stays_on_queue() {
    let mut app = app_with(&[("b.mp4", pcm_file())]);
    app.page = Page::Queue;
    assert_eq!(app.handle_key(Key::Enter), KeyOutcome::StartWorker(vec![]));
    assert!(!app.worker_running);
    assert_eq!(app.page, Page::Queue);
}

#[test]
fn job_fields_are_public() {
    let job = Job { path: "p".to_string(), media: pcm_file(), plan: ConversionPlan::NoChange, enabled: false, status: JobStatus::Ready, progress: 5 };
    assert_eq!(job.clone(), job);
}
