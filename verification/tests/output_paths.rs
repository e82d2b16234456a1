use codecbridge::converter::{pcm_conversion_args, pcm_output_path};
use codecbridge::output::{
    rename_step, resolve_output_path_with, KnownFiles, RenameStep, MAX_OUTPUT_NUMBER,
    collision_action, numbered_name, output_name, resolve_output_path, CollisionAction, CollisionPolicy,
    OutputDirectory, OutputError, OutputPreferences, OutputResolution,
};
use codecbridge::paths::{is_media_extension, is_media_file};

const MISSING_DIR: &str = "/nonexistent-codecbridge-test-dir";

fn prefs(directory: OutputDirectory, collision: CollisionPolicy) -> OutputPreferences {
    OutputPreferences { directory, suffix: "_codecbridge".to_string(), collision }
}

#[test]
fn default_output_preferences() {
    let p = OutputPreferences::default();
    assert_eq!(p.directory, OutputDirectory::SameAsSource);
    assert_eq!(p.suffix, "_codecbridge");
    assert_eq!(p.collision, CollisionPolicy::Skip);
}

#[test]
fn output_names() {
    assert_eq!(output_name("clip", "_codecbridge"), "clip_codecbridge.mov");
    assert_eq!(numbered_name("clip", "_codecbridge", 2), "clip_codecbridge_2.mov");
    assert_eq!(numbered_name("clip", "", 2147483647), "clip_2147483647.mov");
}

#[test]
fn resolves_next_to_source() {
    let input = format!("{MISSING_DIR}/holiday.mp4");
    for policy in [CollisionPolicy::Skip, CollisionPolicy::Rename, CollisionPolicy::Overwrite] {
        let r = resolve_output_path(&input, &prefs(OutputDirectory::SameAsSource, policy));
        assert_eq!(r, Ok(OutputResolution::Path(format!("{MISSING_DIR}/holiday_codecbridge.mov"))));
    }
}

#[test]
fn resolves_in_subdirectory() {
    let input = format!("{MISSING_DIR}/holiday.tar.mp4");
    let r = resolve_output_path(&input, &prefs(OutputDirectory::Subdirectory("codecbridge".to_string()), CollisionPolicy::Skip));
    assert_eq!(r, Ok(OutputResolution::Path(format!("{MISSING_DIR}/codecbridge/holiday.tar_codecbridge.mov"))));
}

#[test]
fn resolves_in_custom_directory() {
    let r = resolve_output_path("/videos/clip.mkv", &prefs(OutputDirectory::Custom(MISSING_DIR.to_string()), CollisionPolicy::Rename));
    assert_eq!(r, Ok(OutputResolution::Path(format!("{MISSING_DIR}/clip_codecbridge.mov"))));
}

#[test]
fn relative_input_resolves_relative() {
    let r = resolve_output_path("nonexistent-codecbridge-clip.mp4", &prefs(OutputDirectory::SameAsSource, CollisionPolicy::Skip));
    assert_eq!(r, Ok(OutputResolution::Path("nonexistent-codecbridge-clip_codecbridge.mov".to_string())));
}

#[test]
fn input_without_file_name_is_refused() {
    for input in ["", "/", format!("{MISSING_DIR}/..").as_str()] {
        let r = resolve_output_path(input, &OutputPreferences::default());
        assert_eq!(r, Err(OutputError::NoFileName), "input {input:?}");
    }
}

#[test]
fn existing_output_under_each_policy() {
    assert_eq!(collision_action(CollisionPolicy::Skip, true), CollisionAction::SkipJob);
    assert_eq!(collision_action(CollisionPolicy::Rename, true), CollisionAction::FindNumbered);
    assert_eq!(collision_action(CollisionPolicy::Overwrite, true), CollisionAction::UseName);
    for policy in [CollisionPolicy::Skip, CollisionPolicy::Rename, CollisionPolicy::Overwrite] {
        assert_eq!(collision_action(policy, false), CollisionAction::UseName);
    }
}

#[test]
fn error_messages() {
    assert_eq!(OutputError::NoFileName.message(), "Input file has no filename");
    assert_eq!(OutputError::NoParentDirectory.message(), "Input file has no parent directory");
    assert_eq!(OutputError::NoFreeName.message(), "No free numbered output name");
}

#[test]
fn media_files_by_extension() {
    assert!(is_media_file("/a/b/clip.mp4"));
    assert!(is_media_file("clip.MKV"));
    assert!(is_media_file("clip.M2ts"));
    assert!(is_media_file("x.y.mpeg"));
    assert!(!is_media_file("clip.txt"));
    assert!(!is_media_file("clip"));
    assert!(!is_media_file(".mp4"));
    assert!(is_media_file("clip.mp4/"));
}

#[test]
fn media_extensions() {
    for ext in ["mp4", "mov", "mkv", "m4v", "avi", "webm", "mts", "m2ts", "mpg", "mpeg"] {
        assert!(is_media_extension(ext));
    }
    assert!(!is_media_extension("MP4"));
    assert!(!is_media_extension("mp3"));
    assert!(!is_media_extension(""));
}

#[test]
fn pcm_output_next_to_input() {
    assert_eq!(pcm_output_path("/v/clip.mp4"), Ok("/v/clip_codecbridge.mov".to_string()));
    assert_eq!(pcm_output_path("clip"), Ok("clip_codecbridge.mov".to_string()));
    assert_eq!(pcm_output_path("/"), Err(OutputError::NoFileName));
}

#[test]
fn pcm_arguments() {
    assert_eq!(
        pcm_conversion_args("in.mp4", "out.mov", false),
        vec!["-i", "in.mp4", "-map", "0:v?", "-map", "0:a?", "-c:v", "copy", "-c:a", "pcm_s24le", "out.mov"]
    );
    let args = pcm_conversion_args("in.mp4", "out.mov", true);
    assert_eq!(args[0], "-y");
    assert_eq!(args.len(), 12);
}

fn known(paths: &[&str]) -> KnownFiles {
    KnownFiles { paths: paths.iter().map(|p| p.to_string()).collect() }
}

fn rename() -> OutputPreferences {
    OutputPreferences { collision: CollisionPolicy::Rename, ..OutputPreferences::default() }
}

#[test]
fn rename_takes_first_free_number() {
    let files = known(&["/videos/clip_codecbridge.mov", "/videos/clip_codecbridge_2.mov"]);
    assert_eq!(
        resolve_output_path_with("/videos/clip.mp4", &rename(), &files),
        Ok(OutputResolution::Path("/videos/clip_codecbridge_3.mov".to_string()))
    );
    let gap = known(&["/videos/clip_codecbridge.mov", "/videos/clip_codecbridge_3.mov"]);
    assert_eq!(
        resolve_output_path_with("/videos/clip.mp4", &rename(), &gap),
        Ok(OutputResolution::Path("/videos/clip_codecbridge_2.mov".to_string()))
    );
    let free = known(&["/videos/clip_codecbridge_2.mov"]);
    assert_eq!(
        resolve_output_path_with("/videos/clip.mp4", &rename(), &free),
        Ok(OutputResolution::Path("/videos/clip_codecbridge.mov".to_string()))
    );
}

#[test]
fn skip_and_overwrite_with_known_files() {
    let files = known(&["/videos/clip_codecbridge.mov"]);
    let skip = OutputPreferences::default();
    assert_eq!(resolve_output_path_with("/videos/clip.mp4", &skip, &files), Ok(OutputResolution::Skip));
    assert_eq!(
        resolve_output_path_with("/videos/other.mp4", &skip, &files),
        Ok(OutputResolution::Path("/videos/other_codecbridge.mov".to_string()))
    );
    let overwrite = OutputPreferences { collision: CollisionPolicy::Overwrite, ..OutputPreferences::default() };
    assert_eq!(
        resolve_output_path_with("/videos/clip.mp4", &overwrite, &files),
        Ok(OutputResolution::Path("/videos/clip_codecbridge.mov".to_string()))
    );
}

#[test]
fn rename_steps() {
    assert_eq!(rename_step(2, false), RenameStep::Take);
    assert_eq!(rename_step(2, true), RenameStep::TryNext);
    assert_eq!(rename_step(MAX_OUTPUT_NUMBER, true), RenameStep::GiveUp);
    assert_eq!(rename_step(MAX_OUTPUT_NUMBER, false), RenameStep::Take);
}
