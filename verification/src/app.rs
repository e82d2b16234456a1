//! The state of the conversion queue application and every change a key press
//! or a worker report makes to it.
use vstd::prelude::*;
use crate::media::{MediaFile, MediaStream};
use crate::output::{
    CollisionPolicy, OutputDirectory, OutputError, OutputPreferences, OutputResolution,
};
use crate::planner::{
    plan_conversion, plan_for, ConversionPlan, PlanningPreferences, VideoPreference,
};
use crate::text::{
    chars_between, chars_of, owned, replace_escaped_spaces, string_of, strip_enclosing, trim_chars, trimmed, is_white_space, trim_start, trim_end,
    unescape_spaces, unquoted,
};

verus! {

/// `s` without its last character (an empty string stays empty).
fn without_last_char(s: &String) -> (r: String)
    ensures
        s@.len() == 0 ==> r@ == s@,
        s@.len() > 0 ==> r@ == s@.drop_last(),
{
    let v = chars_of(s.as_str());
    if v.len() == 0 {
        return owned(s.as_str());
    }
    let shorter = chars_between(&v, 0, v.len() - 1);
    string_of(&shorter)
}

/// Where a job stands.
#[derive(Debug, Clone, PartialEq, Eq)]
pub enum JobStatus {
    Ready,
    NotNeeded,
    Converting,
    Complete,
    Skipped(String),
    Failed(String),
}

impl JobStatus {
    /// A short description of the status.
    pub fn description(&self) -> (r: &'static str)
        ensures
            r@ == match self {
                JobStatus::Ready => "Ready"@,
                JobStatus::NotNeeded => "Not needed"@,
                JobStatus::Converting => "Converting"@,
                JobStatus::Complete => "Complete"@,
                JobStatus::Failed(_) => "Failed"@,
                JobStatus::Skipped(_) => "Skipped"@,
            },
    {
        match self {
            JobStatus::Ready => "Ready",
            JobStatus::NotNeeded => "Not needed",
            JobStatus::Converting => "Converting",
            JobStatus::Complete => "Complete",
            JobStatus::Failed(_) => "Failed",
            JobStatus::Skipped(_) => "Skipped",
        }
    }
}

/// The pages of the application.
#[derive(Debug, Clone, Copy, PartialEq, Eq, Structural)]
pub enum Page {
    Queue,
    Preferences,
    Progress,
}

/// The page after `page`, in the order Queue, Preferences, Progress.
pub open spec fn next_page_of(page: Page) -> Page {
    match page {
        Page::Queue => Page::Preferences,
        Page::Preferences => Page::Progress,
        Page::Progress => Page::Queue,
    }
}

/// The page before `page`.
pub open spec fn previous_page_of(page: Page) -> Page {
    match page {
        Page::Queue => Page::Progress,
        Page::Preferences => Page::Queue,
        Page::Progress => Page::Preferences,
    }
}

/// The collision policy after `p` in the order Skip, Rename, Overwrite.
pub open spec fn next_collision_policy(p: CollisionPolicy) -> CollisionPolicy {
    match p {
        CollisionPolicy::Skip => CollisionPolicy::Rename,
        CollisionPolicy::Rename => CollisionPolicy::Overwrite,
        CollisionPolicy::Overwrite => CollisionPolicy::Skip,
    }
}

/// The other video preference.
pub open spec fn toggled_video(v: VideoPreference) -> VideoPreference {
    match v {
        VideoPreference::Preserve => VideoPreference::ForceDnxhr,
        VideoPreference::ForceDnxhr => VideoPreference::Preserve,
    }
}

/// `jobs` with the job at `i` enabled if it was disabled and disabled if it
/// was enabled.
pub open spec fn with_enabled_toggled(jobs: Seq<Job>, i: int) -> Seq<Job> {
    jobs.update(i, Job { enabled: !jobs[i].enabled, ..jobs[i] })
}

/// One file in the queue.
#[derive(Debug, Clone, PartialEq, Eq)]
pub struct Job {
    pub path: String,
    pub media: MediaFile,
    pub plan: ConversionPlan,
    pub enabled: bool,
    pub status: JobStatus,
    /// The progress of the conversion, in whole percent.
    pub progress: u16,
}

/// A report from the worker that runs the conversions.
#[derive(Debug, Clone, PartialEq, Eq)]
pub enum WorkerMessage {
    Started(usize),
    Skipped(usize, String),
    Complete(usize),
    Failed(usize, String),
    Progress(usize, u16),
    QueueComplete,
}

/// A job handed to the worker: its index in the queue, its path and its plan.
#[derive(Debug, Clone, PartialEq, Eq)]
pub struct QueuedJob {
    pub index: usize,
    pub path: String,
    pub plan: ConversionPlan,
}

/// The state of the application.
#[derive(Debug)]
pub struct App {
    pub should_quit: bool,
    pub jobs: Vec<Job>,
    pub selected: usize,
    pub page: Page,
    pub default_preferences: PlanningPreferences,
    pub worker_running: bool,
    pub output_preferences: OutputPreferences,
    pub adding_path: bool,
    pub path_input: String,
}

/// The selection after moving down in a list of `len` entries, wrapping
/// around at the end.
pub open spec fn next_index(selected: int, len: int) -> int {
    (selected + 1) % len
}

/// The selection after moving up in a list of `len` entries, wrapping around
/// at the start.
pub open spec fn previous_index(selected: int, len: int) -> int {
    if selected == 0 {
        len - 1
    } else {
        selected - 1
    }
}

/// Whether a job is handed to the worker: it is enabled and its plan calls
/// for a conversion.
pub open spec fn is_queueable(job: Job) -> bool {
    job.enabled && job.plan is ConvertAudioToPcm
}

/// Whether `batch` lists exactly the queueable jobs of `jobs`, in queue order,
/// each with its index, path and plan.
pub open spec fn batch_of(batch: Seq<QueuedJob>, jobs: Seq<Job>) -> bool {
    &&& forall|k: int| 0 <= k < batch.len() ==> queued_from(#[trigger] batch[k], jobs)
    &&& forall|k: int, l: int| 0 <= k < l < batch.len() ==> #[trigger] batch[k].index < #[trigger] batch[l].index
    &&& forall|i: int|
        0 <= i < jobs.len() && is_queueable(#[trigger] jobs[i]) ==> in_batch(batch, i)
}

/// Whether `entry` names a queueable job of `jobs` with that job's path and
/// plan.
pub open spec fn queued_from(entry: QueuedJob, jobs: Seq<Job>) -> bool {
    let i = entry.index as int;
    &&& 0 <= i < jobs.len()
    &&& is_queueable(jobs[i])
    &&& entry.path@ == jobs[i].path@
    &&& entry.plan == jobs[i].plan
}

/// Whether some entry of `batch` names the job at `index`.
pub open spec fn in_batch(batch: Seq<QueuedJob>, index: int) -> bool {
    exists|k: int| 0 <= k < batch.len() && #[trigger] batch[k].index == index
}

/// The first job that is converting, if any.
pub open spec fn first_converting(jobs: Seq<Job>) -> Option<Job>
    decreases jobs.len(),
{
    if jobs.len() == 0 {
        None
    } else if jobs[0].status is Converting {
        Some(jobs[0])
    } else {
        first_converting(jobs.drop_first())
    }
}

/// The path typed by the user, cleaned up: surrounding whitespace trimmed,
/// one pair of surrounding single quotes and then one of double quotes
/// removed, and escaped spaces unescaped.
pub open spec fn normalized_path(input: Seq<char>) -> Seq<char> {
    unescape_spaces(unquoted(unquoted(trimmed(input), '\''), '"'))
}

/// Cleans up a path as typed or pasted by the user.
pub fn normalize_path_input(input: &str) -> (r: String)
    ensures
        r@ == normalized_path(input@),
{
    let v = chars_of(input);
    let t = trim_chars(&v);
    let t = strip_enclosing(&t, '\'');
    let t = strip_enclosing(&t, '"');
    let t = replace_escaped_spaces(&t);
    string_of(&t)
}

/// The worker's report for a job once its output path is resolved: nothing
/// to report where a path was found, else that the job was skipped or failed.
pub open spec fn resolution_report(
    index: usize,
    resolution: Result<OutputResolution, OutputError>,
    report: Option<WorkerMessage>,
) -> bool {
    match resolution {
        Ok(OutputResolution::Path(_)) => report is None,
        Ok(OutputResolution::Skip) => report matches Some(WorkerMessage::Skipped(i, reason)) && i
            == index && reason@ == "Output already  exists"@,
        Err(error) => report matches Some(WorkerMessage::Failed(i, message)) && i == index
            && message@ == match error {
            OutputError::NoFileName => "Input file has no filename"@,
            OutputError::NoParentDirectory => "Input file has no parent directory"@,
            OutputError::NoFreeName => "No free numbered output name"@,
        },
    }
}

/// What the worker does with a job once its output path is resolved.
#[derive(Debug, Clone, PartialEq, Eq)]
pub enum JobStart {
    /// Report this and go on to the next job.
    Report(WorkerMessage),
    /// Convert into `output`, writing over an existing file if `overwrite`.
    Convert { output: String, overwrite: bool },
}

/// Decides what the worker does with a job, given how its output path
/// resolved: a path is converted into (overwriting only under the
/// `Overwrite` policy); a skip or an error is reported.
pub fn start_job(
    index: usize,
    resolution: Result<OutputResolution, OutputError>,
    policy: CollisionPolicy,
) -> (r: JobStart)
    ensures
        match resolution {
            Ok(OutputResolution::Path(path)) => r matches JobStart::Convert { output, overwrite }
                && output@ == path@ && overwrite == (policy == CollisionPolicy::Overwrite),
            _ => r matches JobStart::Report(message) && resolution_report(
                index,
                resolution,
                Some(message),
            ),
        },
{
    match resolution {
        Ok(OutputResolution::Path(path)) => JobStart::Convert {
            output: path,
            overwrite: policy == CollisionPolicy::Overwrite,
        },
        Ok(OutputResolution::Skip) => JobStart::Report(
            WorkerMessage::Skipped(index, owned("Output already  exists")),
        ),
        Err(error) => JobStart::Report(WorkerMessage::Failed(index, owned(error.message()))),
    }
}

/// The worker's report once a conversion has ended: complete, or failed with
/// the error's message.
pub fn conversion_report(index: usize, outcome: Result<(), String>) -> (r: WorkerMessage)
    ensures
        match outcome {
            Ok(()) => r == WorkerMessage::Complete(index),
            Err(message) => r == WorkerMessage::Failed(index, message),
        },
{
    match outcome {
        Ok(()) => WorkerMessage::Complete(index),
        Err(message) => WorkerMessage::Failed(index, message),
    }
}

/// A key press, as far as the application tells keys apart.
#[derive(Debug, Clone, Copy, PartialEq, Eq, Structural)]
pub enum Key {
    Char(char),
    Enter,
    Esc,
    Backspace,
    Up,
    Down,
    Tab,
    BackTab,
    Other,
}

/// What a key press asks the application to do.
#[derive(Debug, Clone, Copy, PartialEq, Eq, Structural)]
pub enum Command {
    Nothing,
    SubmitPath,
    CancelPath,
    DeleteCharacter,
    TypeCharacter(char),
    Quit,
    BeginPath,
    SelectNext,
    SelectPrevious,
    ToggleSelected,
    RunConversions,
    CycleOutputDirectory,
    ToggleVideoMode,
    ToggleDefaultVideo,
    CycleCollisionPolicy,
    RemoveSelected,
    NextPage,
    PreviousPage,
    GoTo(Page),
}

/// What is left to do after a key press.
#[derive(Debug, Clone, PartialEq, Eq)]
pub enum KeyOutcome {
    /// Nothing.
    Nothing,
    /// Probe and queue the typed path (a file, or the media files of a
    /// directory).
    AddPath(String),
    /// Start the worker on these jobs (none when it was already running or
    /// nothing needs converting).
    StartWorker(Vec<QueuedJob>),
}

/// The command for a character key outside the path entry.
pub open spec fn command_for_char(c: char, page: Page) -> Command {
    if c == 'q' {
        Command::Quit
    } else if c == 'a' {
        if page == Page::Queue {
            Command::BeginPath
        } else {
            Command::Nothing
        }
    } else if c == 'j' {
        Command::SelectNext
    } else if c == 'k' {
        Command::SelectPrevious
    } else if c == ' ' {
        Command::ToggleSelected
    } else if c == 'o' {
        if page == Page::Preferences {
            Command::CycleOutputDirectory
        } else {
            Command::Nothing
        }
    } else if c == 'v' {
        match page {
            Page::Queue => Command::ToggleVideoMode,
            Page::Preferences => Command::ToggleDefaultVideo,
            Page::Progress => Command::Nothing,
        }
    } else if c == 'c' {
        if page == Page::Preferences {
            Command::CycleCollisionPolicy
        } else {
            Command::Nothing
        }
    } else if c == 'x' {
        if page == Page::Queue {
            Command::RemoveSelected
        } else {
            Command::Nothing
        }
    } else if c == '1' {
        Command::GoTo(Page::Preferences)
    } else if c == '2' {
        Command::GoTo(Page::Queue)
    } else if c == '3' {
        Command::GoTo(Page::Progress)
    } else {
        Command::Nothing
    }
}

/// The command for a key. While a path is typed, Enter submits it, Esc
/// cancels, Backspace deletes and a character is typed. Otherwise `q` quits;
/// Down or `j` and Up or `k` move the selection; space toggles the selected
/// job; Tab and BackTab change page; `1`, `2`, `3` go to the Preferences,
/// Queue and Progress pages; on the Queue page `a` opens the path entry,
/// Enter runs the conversions, `x` removes the selected job and `v` plans it
/// anew; on the Preferences page `o`, `v` and `c` switch the output location,
/// the default video preference and the collision policy.
pub open spec fn command_for(key: Key, adding_path: bool, page: Page) -> Command {
    if adding_path {
        match key {
            Key::Enter => Command::SubmitPath,
            Key::Esc => Command::CancelPath,
            Key::Backspace => Command::DeleteCharacter,
            Key::Char(c) => Command::TypeCharacter(c),
            _ => Command::Nothing,
        }
    } else {
        match key {
            Key::Char(c) => command_for_char(c, page),
            Key::Down => Command::SelectNext,
            Key::Up => Command::SelectPrevious,
            Key::Enter => if page == Page::Queue {
                Command::RunConversions
            } else {
                Command::Nothing
            },
            Key::Tab => Command::NextPage,
            Key::BackTab => Command::PreviousPage,
            _ => Command::Nothing,
        }
    }
}

fn char_command(c: char, page: Page) -> (r: Command)
    ensures
        r == command_for_char(c, page),
{
    if c == 'q' {
        Command::Quit
    } else if c == 'a' {
        if page == Page::Queue {
            Command::BeginPath
        } else {
            Command::Nothing
        }
    } else if c == 'j' {
        Command::SelectNext
    } else if c == 'k' {
        Command::SelectPrevious
    } else if c == ' ' {
        Command::ToggleSelected
    } else if c == 'o' {
        if page == Page::Preferences {
            Command::CycleOutputDirectory
        } else {
            Command::Nothing
        }
    } else if c == 'v' {
        match page {
            Page::Queue => Command::ToggleVideoMode,
            Page::Preferences => Command::ToggleDefaultVideo,
            Page::Progress => Command::Nothing,
        }
    } else if c == 'c' {
        if page == Page::Preferences {
            Command::CycleCollisionPolicy
        } else {
            Command::Nothing
        }
    } else if c == 'x' {
        if page == Page::Queue {
            Command::RemoveSelected
        } else {
            Command::Nothing
        }
    } else if c == '1' {
        Command::GoTo(Page::Preferences)
    } else if c == '2' {
        Command::GoTo(Page::Queue)
    } else if c == '3' {
        Command::GoTo(Page::Progress)
    } else {
        Command::Nothing
    }
}

/// Decides the command for a key.
pub fn command_for_key(key: Key, adding_path: bool, page: Page) -> (r: Command)
    ensures
        r == command_for(key, adding_path, page),
{
    if adding_path {
        return match key {
            Key::Enter => Command::SubmitPath,
            Key::Esc => Command::CancelPath,
            Key::Backspace => Command::DeleteCharacter,
            Key::Char(c) => Command::TypeCharacter(c),
            _ => Command::Nothing,
        };
    }
    match key {
        Key::Char(c) => char_command(c, page),
        Key::Down => Command::SelectNext,
        Key::Up => Command::SelectPrevious,
        Key::Enter => if page == Page::Queue {
            Command::RunConversions
        } else {
            Command::Nothing
        },
        Key::Tab => Command::NextPage,
        Key::BackTab => Command::PreviousPage,
        _ => Command::Nothing,
    }
}

/// A job planned anew: the plan of its streams, enabled when that plan calls
/// for a conversion, and ready (or not needed) accordingly.
pub open spec fn replanned(job: Job) -> Job {
    let plan = plan_for(job.media.streams@);
    let enabled = plan is ConvertAudioToPcm;
    Job {
        plan,
        enabled,
        status: if enabled {
            JobStatus::Ready
        } else {
            JobStatus::NotNeeded
        },
        ..job
    }
}

impl App {
    /// The selection lies in the queue, or is 0 for an empty queue.
    pub open spec fn wf(&self) -> bool {
        if self.jobs.len() == 0 {
            self.selected == 0
        } else {
            self.selected < self.jobs.len()
        }
    }

    /// The queue and the worker flag are unchanged.
    pub open spec fn same_queue(&self, other: &App) -> bool {
        &&& self.jobs@ == other.jobs@
        &&& self.selected == other.selected
        &&& self.worker_running == other.worker_running
    }

    /// The page, the preferences and the quit flag are unchanged.
    pub open spec fn same_settings(&self, other: &App) -> bool {
        &&& self.should_quit == other.should_quit
        &&& self.page == other.page
        &&& self.default_preferences == other.default_preferences
        &&& self.output_preferences == other.output_preferences
    }

    /// The path entry is unchanged.
    pub open spec fn same_input(&self, other: &App) -> bool {
        &&& self.adding_path == other.adding_path
        &&& self.path_input@ == other.path_input@
    }

    /// A fresh application: no jobs, the Preferences page, video preserved,
    /// the default output preferences, no worker, no path entry.
    pub fn new() -> (r: App)
        ensures
            !r.should_quit,
            r.jobs@.len() == 0,
            r.selected == 0,
            r.page == Page::Preferences,
            r.default_preferences == (PlanningPreferences { video: VideoPreference::Preserve }),
            !r.worker_running,
            r.output_preferences.directory is SameAsSource,
            r.output_preferences.suffix@ == "_codecbridge"@,
            r.output_preferences.collision == CollisionPolicy::Skip,
            !r.adding_path,
            r.path_input@.len() == 0,
            r.wf(),
    {
        App {
            should_quit: false,
            jobs: Vec::new(),
            selected: 0,
            page: Page::Preferences,
            default_preferences: PlanningPreferences { video: VideoPreference::Preserve },
            worker_running: false,
            output_preferences: OutputPreferences::default(),
            adding_path: false,
            path_input: String::new(),
        }
    }

    /// The queue and the worker flag are unchanged, and so are the page, the
    /// preferences, the quit flag and the path entry.
    pub open spec fn unchanged(&self, other: &App) -> bool {
        &&& self.same_queue(other)
        &&& self.same_settings(other)
        &&& self.same_input(other)
    }

    /// Everything but the page is unchanged, and the page is `page`.
    pub open spec fn page_set(before: &App, after: &App, page: Page) -> bool {
        &&& after.page == page
        &&& after.should_quit == before.should_quit
        &&& after.default_preferences == before.default_preferences
        &&& after.output_preferences == before.output_preferences
        &&& after.same_queue(before)
        &&& after.same_input(before)
    }

    /// Everything but the output preferences is unchanged.
    pub open spec fn only_output_preferences_changed(before: &App, after: &App) -> bool {
        &&& after.should_quit == before.should_quit
        &&& after.page == before.page
        &&& after.default_preferences == before.default_preferences
        &&& after.same_queue(before)
        &&& after.same_input(before)
    }

    /// The path entry was opened, empty.
    pub open spec fn entry_begun(before: &App, after: &App) -> bool {
        &&& after.adding_path
        &&& after.path_input@.len() == 0
        &&& after.same_queue(before)
        &&& after.same_settings(before)
    }

    /// The path entry was closed and emptied.
    pub open spec fn entry_closed(before: &App, after: &App) -> bool {
        &&& !after.adding_path
        &&& after.path_input@.len() == 0
        &&& after.same_queue(before)
        &&& after.same_settings(before)
    }

    /// `character` was typed into the path entry.
    pub open spec fn character_typed(before: &App, after: &App, character: char) -> bool {
        &&& after.path_input@ == before.path_input@.push(character)
        &&& after.adding_path == before.adding_path
        &&& after.same_queue(before)
        &&& after.same_settings(before)
    }

    /// The last character of the path entry, if any, was deleted.
    pub open spec fn character_deleted(before: &App, after: &App) -> bool {
        &&& before.path_input@.len() == 0 ==> after.path_input@ == before.path_input@
        &&& before.path_input@.len() > 0 ==> after.path_input@ == before.path_input@.drop_last()
        &&& after.adding_path == before.adding_path
        &&& after.same_queue(before)
        &&& after.same_settings(before)
    }

    /// The path entry was submitted: closed and emptied, giving back `path`,
    /// the cleaned-up entry.
    pub open spec fn path_submitted(before: &App, after: &App, path: Seq<char>) -> bool {
        &&& path == normalized_path(before.path_input@)
        &&& App::entry_closed(before, after)
    }

    /// The quit flag was set.
    pub open spec fn quit_requested(before: &App, after: &App) -> bool {
        &&& after.should_quit
        &&& after.page == before.page
        &&& after.default_preferences == before.default_preferences
        &&& after.output_preferences == before.output_preferences
        &&& after.same_queue(before)
        &&& after.same_input(before)
    }

    /// The output location was switched: the source's directory becomes a
    /// `codecbridge` subdirectory, anything else the source's directory.
    pub open spec fn directory_cycled(before: &App, after: &App) -> bool {
        &&& before.output_preferences.directory is SameAsSource ==> (after.output_preferences.directory matches OutputDirectory::Subdirectory(name) && name@ == "codecbridge"@)
        &&& !(before.output_preferences.directory is SameAsSource) ==> after.output_preferences.directory is SameAsSource
        &&& after.output_preferences.suffix == before.output_preferences.suffix
        &&& after.output_preferences.collision == before.output_preferences.collision
        &&& App::only_output_preferences_changed(before, after)
    }

    /// The collision policy was switched to the next one.
    pub open spec fn collision_cycled(before: &App, after: &App) -> bool {
        &&& after.output_preferences.collision == next_collision_policy(
            before.output_preferences.collision,
        )
        &&& after.output_preferences.directory == before.output_preferences.directory
        &&& after.output_preferences.suffix == before.output_preferences.suffix
        &&& App::only_output_preferences_changed(before, after)
    }

    /// The default video preference was switched.
    pub open spec fn default_video_toggled(before: &App, after: &App) -> bool {
        &&& after.default_preferences.video == toggled_video(before.default_preferences.video)
        &&& after.should_quit == before.should_quit
        &&& after.page == before.page
        &&& after.output_preferences == before.output_preferences
        &&& after.same_queue(before)
        &&& after.same_input(before)
    }

    /// Only the jobs changed, to `jobs`.
    pub open spec fn jobs_set(before: &App, after: &App, jobs: Seq<Job>) -> bool {
        &&& after.jobs@ == jobs
        &&& after.selected == before.selected
        &&& after.worker_running == before.worker_running
        &&& after.same_settings(before)
        &&& after.same_input(before)
    }

    /// Only the selection changed, to `selected`.
    pub open spec fn selection_set(before: &App, after: &App, selected: int) -> bool {
        &&& after.selected == selected
        &&& after.jobs@ == before.jobs@
        &&& after.worker_running == before.worker_running
        &&& after.same_settings(before)
        &&& after.same_input(before)
    }

    /// The selected job (if the selection is in the queue) was enabled if it
    /// was disabled and disabled if it was enabled.
    pub open spec fn selection_toggled(before: &App, after: &App) -> bool {
        App::jobs_set(
            before,
            after,
            if before.selected < before.jobs.len() {
                with_enabled_toggled(before.jobs@, before.selected as int)
            } else {
                before.jobs@
            },
        )
    }

    /// The selected job (if the selection is in the queue) was planned anew.
    pub open spec fn selection_replanned(before: &App, after: &App) -> bool {
        App::jobs_set(
            before,
            after,
            if before.selected < before.jobs.len() {
                before.jobs@.update(
                    before.selected as int,
                    replanned(before.jobs@[before.selected as int]),
                )
            } else {
                before.jobs@
            },
        )
    }

    /// The selection moved down, wrapping around at the end (and stayed put
    /// in an empty queue).
    pub open spec fn moved_down(before: &App, after: &App) -> bool {
        App::selection_set(
            before,
            after,
            if before.jobs.len() == 0 {
                before.selected as int
            } else {
                next_index(before.selected as int, before.jobs.len() as int)
            },
        )
    }

    /// The selection moved up, wrapping around at the start (and stayed put
    /// in an empty queue).
    pub open spec fn moved_up(before: &App, after: &App) -> bool {
        App::selection_set(
            before,
            after,
            if before.jobs.len() == 0 {
                before.selected as int
            } else {
                previous_index(before.selected as int, before.jobs.len() as int)
            },
        )
    }

    /// The selected job was removed (nothing, in an empty queue), and the
    /// selection was brought back inside the queue.
    pub open spec fn selection_removed(before: &App, after: &App) -> bool {
        &&& before.jobs.len() == 0 ==> after.jobs@ == before.jobs@ && after.selected == before.selected
        &&& before.jobs.len() > 0 ==> after.jobs@ == before.jobs@.remove(before.selected as int)
        &&& before.jobs.len() > 0 ==> after.selected == if after.jobs.len() == 0 {
            0
        } else if before.selected >= after.jobs.len() {
            after.jobs.len() - 1
        } else {
            before.selected as int
        }
        &&& after.worker_running == before.worker_running
        &&& after.same_settings(before)
        &&& after.same_input(before)
    }

    /// The queueable jobs were handed out as `batch`, unless the worker was
    /// running (then nothing was); the worker runs when anything was handed
    /// out. The queue, the preferences and the path entry are unchanged.
    pub open spec fn batch_handed_out(before: &App, after: &App, batch: Seq<QueuedJob>) -> bool {
        &&& before.worker_running ==> batch.len() == 0 && after.worker_running
        &&& !before.worker_running ==> batch_of(batch, before.jobs@) && after.worker_running == (batch.len() > 0)
        &&& after.jobs@ == before.jobs@
        &&& after.selected == before.selected
        &&& after.should_quit == before.should_quit
        &&& after.default_preferences == before.default_preferences
        &&& after.output_preferences == before.output_preferences
        &&& after.same_input(before)
    }

    /// Opens the path entry, empty.
    pub fn begin_add_path(&mut self)
        ensures
            App::entry_begun(old(self), final(self)),
    {
        self.adding_path = true;
        self.path_input = String::new();
    }

    /// Closes the path entry and empties it.
    pub fn cancel_add_path(&mut self)
        ensures
            App::entry_closed(old(self), final(self)),
    {
        self.adding_path = false;
        self.path_input = String::new();
    }

    /// Types a character into the path entry.
    pub fn push_path_character(&mut self, character: char)
        ensures
            App::character_typed(old(self), final(self), character),
    {
        crate::text::push_char(&mut self.path_input, character);
    }

    /// Deletes the last character of the path entry, if any.
    pub fn pop_path_character(&mut self)
        ensures
            App::character_deleted(old(self), final(self)),
    {
        self.path_input = without_last_char(&self.path_input);
    }

    /// Closes the path entry, empties it, and gives back the cleaned-up path
    /// that was typed.
    pub fn submit_path(&mut self) -> (r: String)
        ensures
            App::path_submitted(old(self), final(self), r@),
    {
        let normalized = normalize_path_input(self.path_input.as_str());
        self.adding_path = false;
        self.path_input = String::new();
        normalized
    }

    /// Switches the output location: the source's directory becomes a
    /// `codecbridge` subdirectory, anything else the source's directory.
    pub fn cycle_output_directory(&mut self)
        ensures
            App::directory_cycled(old(self), final(self)),
    {
        let next = match &self.output_preferences.directory {
            OutputDirectory::SameAsSource => OutputDirectory::Subdirectory(owned("codecbridge")),
            OutputDirectory::Subdirectory(_) => OutputDirectory::SameAsSource,
            OutputDirectory::Custom(_) => OutputDirectory::SameAsSource,
        };
        self.output_preferences.directory = next;
    }

    /// Switches the collision policy: Skip, then Rename, then Overwrite, then
    /// Skip again.
    pub fn cycle_collision_policy(&mut self)
        ensures
            App::collision_cycled(old(self), final(self)),
    {
        self.output_preferences.collision = match self.output_preferences.collision {
            CollisionPolicy::Skip => CollisionPolicy::Rename,
            CollisionPolicy::Rename => CollisionPolicy::Overwrite,
            CollisionPolicy::Overwrite => CollisionPolicy::Skip,
        };
    }

    /// The first job whose conversion is running, if any.
    pub fn active_job(&self) -> (r: Option<&Job>)
        ensures
            match r {
                Some(job) => first_converting(self.jobs@) == Some(*job),
                None => first_converting(self.jobs@) is None,
            },
    {
        let n = self.jobs.len();
        let mut i: usize = 0;
        assert(self.jobs@.subrange(0, n as int) =~= self.jobs@);
        while i < n
            invariant
                i <= n == self.jobs.len(),
                first_converting(self.jobs@) == first_converting(
                    self.jobs@.subrange(i as int, n as int),
                ),
            decreases n - i,
        {
            let ghost rest = self.jobs@.subrange(i as int, n as int);
            if let JobStatus::Converting = self.jobs[i].status {
                return Some(&self.jobs[i]);
            }
            assert(rest.drop_first() =~= self.jobs@.subrange(i + 1, n as int));
            i = i + 1;
        }
        None
    }

    /// Goes to the next page.
    pub fn next_page(&mut self)
        ensures
            App::page_set(old(self), final(self), next_page_of(old(self).page)),
    {
        self.page = match self.page {
            Page::Queue => Page::Preferences,
            Page::Preferences => Page::Progress,
            Page::Progress => Page::Queue,
        };
    }

    /// Goes to the previous page.
    pub fn previous_page(&mut self)
        ensures
            App::page_set(old(self), final(self), previous_page_of(old(self).page)),
    {
        self.page = match self.page {
            Page::Queue => Page::Progress,
            Page::Preferences => Page::Queue,
            Page::Progress => Page::Preferences,
        };
    }

    /// Switches the default video preference.
    pub fn toggle_default_video_preference(&mut self)
        ensures
            App::default_video_toggled(old(self), final(self)),
    {
        self.default_preferences.video = self.default_preferences.video.toggled();
    }

    /// Adds a probed file to the end of the queue, planned, enabled when it
    /// needs a conversion, and ready (or marked as not needing one).
    pub fn add_path(&mut self, path: String, media: MediaFile)
        ensures
            final(self).jobs@.len() == old(self).jobs@.len() + 1,
            final(self).jobs@.take(old(self).jobs@.len() as int) == old(self).jobs@,
            ({
                let job = final(self).jobs@.last();
                &&& job.path == path
                &&& job.media == media
                &&& job.plan == plan_for(media.streams@)
                &&& job.enabled == (job.plan is ConvertAudioToPcm)
                &&& job.status == (if job.enabled {
                    JobStatus::Ready
                } else {
                    JobStatus::NotNeeded
                })
                &&& job.progress == 0
            }),
            final(self).selected == old(self).selected,
            final(self).worker_running == old(self).worker_running,
            old(self).wf() ==> final(self).wf(),
            final(self).same_settings(old(self)),
            final(self).same_input(old(self)),
    {
        let plan = plan_conversion(&media);
        let enabled = plan.needs_conversion();
        let status = if enabled {
            JobStatus::Ready
        } else {
            JobStatus::NotNeeded
        };
        self.jobs.push(Job { path, media, plan, enabled, status, progress: 0 });
        assert(self.jobs@.take(old(self).jobs@.len() as int) =~= old(self).jobs@);
    }

    /// Enables or disables the selected job.
    pub fn toggle_selected(&mut self)
        ensures
            App::selection_toggled(old(self), final(self)),
            old(self).wf() ==> final(self).wf(),
    {
        if self.selected < self.jobs.len() {
            let i = self.selected;
            let enabled = self.jobs[i].enabled;
            self.jobs[i].enabled = !enabled;
            assert(self.jobs@ =~= with_enabled_toggled(old(self).jobs@, i as int));
        }
    }

    /// Plans the selected job anew: its plan, whether it is enabled (when it
    /// needs a conversion) and its status (ready, or not needed).
    pub fn toggle_video_mode(&mut self)
        ensures
            App::selection_replanned(old(self), final(self)),
            old(self).wf() ==> final(self).wf(),
    {
        if self.selected < self.jobs.len() {
            let i = self.selected;
            let plan = plan_conversion(&self.jobs[i].media);
            let enabled = plan.needs_conversion();
            self.jobs[i].plan = plan;
            self.jobs[i].enabled = enabled;
            self.jobs[i].status = if enabled {
                JobStatus::Ready
            } else {
                JobStatus::NotNeeded
            };
            assert(self.jobs@ =~= old(self).jobs@.update(
                i as int,
                replanned(old(self).jobs@[i as int]),
            ));
        }
    }

    /// Moves the selection down, wrapping around at the end.
    pub fn next(&mut self)
        ensures
            App::moved_down(old(self), final(self)),
            old(self).wf() ==> final(self).wf(),
    {
        let n = self.jobs.len();
        if n == 0 {
            return;
        }
        let s = self.selected % n;
        proof {
            vstd::arithmetic::div_mod::lemma_add_mod_noop_right(1, self.selected as int, n as int);
            vstd::arithmetic::div_mod::lemma_mod_bound(self.selected as int, n as int);
        }
        self.selected = (s + 1) % n;
    }

    /// Moves the selection up, wrapping around at the start.
    pub fn previous(&mut self)
        ensures
            App::moved_up(old(self), final(self)),
            old(self).wf() ==> final(self).wf(),
    {
        let n = self.jobs.len();
        if n == 0 {
            return;
        }
        if self.selected == 0 {
            self.selected = n - 1;
        } else {
            self.selected = self.selected - 1;
        }
    }

    /// Removes the selected job and keeps the selection in the queue.
    pub fn remove_selected(&mut self)
        requires
            old(self).jobs.len() > 0 ==> old(self).selected < old(self).jobs.len(),
        ensures
            App::selection_removed(old(self), final(self)),
            old(self).jobs.len() > 0 ==> final(self).wf(),
            old(self).wf() ==> final(self).wf(),
    {
        if self.jobs.len() == 0 {
            return;
        }
        let _ = self.jobs.remove(self.selected);
        if self.jobs.len() == 0 {
            self.selected = 0;
        } else if self.selected >= self.jobs.len() {
            self.selected = self.jobs.len() - 1;
        }
    }

    /// Applies a report from the worker: the job it names (if it is in the
    /// queue) takes the reported status or progress; the end of the queue
    /// clears the worker flag.
    pub fn apply_worker_message(&mut self, message: WorkerMessage)
        ensures
            final(self).jobs@.len() == old(self).jobs@.len(),
            match message {
                WorkerMessage::Started(i) => if i < old(self).jobs.len() {
                    let job = old(self).jobs@[i as int];
                    final(self).jobs@ == old(self).jobs@.update(
                        i as int,
                        Job { status: JobStatus::Converting, progress: 0, ..job },
                    )
                } else {
                    final(self).jobs@ == old(self).jobs@
                },
                WorkerMessage::Skipped(i, reason) => if i < old(self).jobs.len() {
                    let job = old(self).jobs@[i as int];
                    final(self).jobs@ == old(self).jobs@.update(
                        i as int,
                        Job { status: JobStatus::Skipped(reason), ..job },
                    )
                } else {
                    final(self).jobs@ == old(self).jobs@
                },
                WorkerMessage::Progress(i, percent) => if i < old(self).jobs.len() {
                    let job = old(self).jobs@[i as int];
                    final(self).jobs@ == old(self).jobs@.update(
                        i as int,
                        Job { progress: percent, ..job },
                    )
                } else {
                    final(self).jobs@ == old(self).jobs@
                },
                WorkerMessage::Complete(i) => if i < old(self).jobs.len() {
                    let job = old(self).jobs@[i as int];
                    final(self).jobs@ == old(self).jobs@.update(
                        i as int,
                        Job { status: JobStatus::Complete, ..job },
                    )
                } else {
                    final(self).jobs@ == old(self).jobs@
                },
                WorkerMessage::Failed(i, error) => if i < old(self).jobs.len() {
                    let job = old(self).jobs@[i as int];
                    final(self).jobs@ == old(self).jobs@.update(
                        i as int,
                        Job { status: JobStatus::Failed(error), ..job },
                    )
                } else {
                    final(self).jobs@ == old(self).jobs@
                },
                WorkerMessage::QueueComplete => final(self).jobs@ == old(self).jobs@,
            },
            final(self).worker_running == (old(self).worker_running
                && !(message is QueueComplete)),
            final(self).selected == old(self).selected,
            old(self).wf() ==> final(self).wf(),
            final(self).same_settings(old(self)),
            final(self).same_input(old(self)),
    {
        let ghost before = self.jobs@;
        match message {
            WorkerMessage::Started(index) => {
                if index < self.jobs.len() {
                    self.jobs[index].status = JobStatus::Converting;
                    self.jobs[index].progress = 0;
                    assert(self.jobs@ =~= before.update(
                        index as int,
                        Job { status: JobStatus::Converting, progress: 0, ..before[index as int] },
                    ));
                }
            },
            WorkerMessage::Skipped(index, reason) => {
                if index < self.jobs.len() {
                    self.jobs[index].status = JobStatus::Skipped(reason);
                }
            },
            WorkerMessage::Progress(index, percent) => {
                if index < self.jobs.len() {
                    self.jobs[index].progress = percent;
                }
            },
            WorkerMessage::Complete(index) => {
                if index < self.jobs.len() {
                    self.jobs[index].status = JobStatus::Complete;
                }
            },
            WorkerMessage::Failed(index, error) => {
                if index < self.jobs.len() {
                    self.jobs[index].status = JobStatus::Failed(error);
                }
            },
            WorkerMessage::QueueComplete => {
                self.worker_running = false;
            },
        }
    }

    /// Hands the enabled jobs that need a conversion to the worker, unless it
    /// is already running: gives them back, in queue order, and marks the
    /// worker as running when there is at least one.
    pub fn run_conversions(&mut self) -> (r: Vec<QueuedJob>)
        ensures
            App::batch_handed_out(old(self), final(self), r@),
            final(self).page == old(self).page,
    {
        let mut batch: Vec<QueuedJob> = Vec::new();
        if self.worker_running {
            return batch;
        }
        let n = self.jobs.len();
        for i in 0..n
            invariant
                n == self.jobs.len(),
                forall|k: int|
                    0 <= k < batch.len() ==> queued_from(#[trigger] batch@[k], self.jobs@)
                        && batch@[k].index < i,
                forall|k: int, l: int|
                    0 <= k < l < batch.len() ==> #[trigger] batch@[k].index
                        < #[trigger] batch@[l].index,
                forall|j: int| 0 <= j < i && is_queueable(#[trigger] self.jobs@[j]) ==> in_batch(batch@, j),
        {
            let job = &self.jobs[i];
            if job.enabled && job.plan.needs_conversion() {
                let ghost old_batch = batch@;
                batch.push(QueuedJob { index: i, path: job.path.clone(), plan: job.plan });
                assert(batch@[old_batch.len() as int].index == i);
                assert forall|j: int| 0 <= j < i + 1 && is_queueable(#[trigger] self.jobs@[j]) implies in_batch(batch@, j) by {
                    if j == i {
                        assert(batch@[old_batch.len() as int].index == j);
                    } else {
                        assert(in_batch(old_batch, j));
                        let k = choose|k: int| 0 <= k < old_batch.len() && #[trigger] old_batch[k].index == j;
                        assert(batch@[k].index == j);
                    }
                }
            }
        }
        if batch.len() > 0 {
            self.worker_running = true;
        }
        batch
    }

    /// Carries out what a key press asks for (see `command_for`), and says
    /// what is left for the caller to do: probe and queue a typed path, or
    /// start the worker on a batch.
    pub fn handle_key(&mut self, key: Key) -> (r: KeyOutcome)
        requires
            command_for(key, old(self).adding_path, old(self).page) == Command::RemoveSelected
                ==> (old(self).jobs.len() > 0 ==> old(self).selected < old(self).jobs.len()),
        ensures
            old(self).wf() ==> final(self).wf(),
            match command_for(key, old(self).adding_path, old(self).page) {
                Command::Nothing => r is Nothing && final(self).unchanged(old(self)),
                Command::SubmitPath => r matches KeyOutcome::AddPath(path) && App::path_submitted(old(self), final(self), path@),
                Command::CancelPath => r is Nothing && App::entry_closed(old(self), final(self)),
                Command::DeleteCharacter => r is Nothing && App::character_deleted(old(self), final(self)),
                Command::TypeCharacter(c) => r is Nothing && App::character_typed(old(self), final(self), c),
                Command::Quit => r is Nothing && App::quit_requested(old(self), final(self)),
                Command::BeginPath => r is Nothing && App::entry_begun(old(self), final(self)),
                Command::SelectNext => r is Nothing && App::moved_down(old(self), final(self)),
                Command::SelectPrevious => r is Nothing && App::moved_up(old(self), final(self)),
                Command::ToggleSelected => r is Nothing && App::selection_toggled(old(self), final(self)),
                Command::RunConversions => r matches KeyOutcome::StartWorker(batch) && App::batch_handed_out(old(self), final(self), batch@) && final(self).page == (if final(self).worker_running { Page::Progress } else { old(self).page }),
                Command::CycleOutputDirectory => r is Nothing && App::directory_cycled(old(self), final(self)),
                Command::ToggleVideoMode => r is Nothing && App::selection_replanned(old(self), final(self)),
                Command::ToggleDefaultVideo => r is Nothing && App::default_video_toggled(old(self), final(self)),
                Command::CycleCollisionPolicy => r is Nothing && App::collision_cycled(old(self), final(self)),
                Command::RemoveSelected => r is Nothing && App::selection_removed(old(self), final(self)),
                Command::NextPage => r is Nothing && App::page_set(old(self), final(self), next_page_of(old(self).page)),
                Command::PreviousPage => r is Nothing && App::page_set(old(self), final(self), previous_page_of(old(self).page)),
                Command::GoTo(page) => r is Nothing && App::page_set(old(self), final(self), page),
            },
    {
        match command_for_key(key, self.adding_path, self.page) {
            Command::Nothing => KeyOutcome::Nothing,
            Command::SubmitPath => KeyOutcome::AddPath(self.submit_path()),
            Command::CancelPath => {
                self.cancel_add_path();
                KeyOutcome::Nothing
            },
            Command::DeleteCharacter => {
                self.pop_path_character();
                KeyOutcome::Nothing
            },
            Command::TypeCharacter(c) => {
                self.push_path_character(c);
                KeyOutcome::Nothing
            },
            Command::Quit => {
                self.should_quit = true;
                KeyOutcome::Nothing
            },
            Command::BeginPath => {
                self.begin_add_path();
                KeyOutcome::Nothing
            },
            Command::SelectNext => {
                self.next();
                KeyOutcome::Nothing
            },
            Command::SelectPrevious => {
                self.previous();
                KeyOutcome::Nothing
            },
            Command::ToggleSelected => {
                self.toggle_selected();
                KeyOutcome::Nothing
            },
            Command::RunConversions => {
                let batch = self.run_conversions();
                if self.worker_running {
                    self.page = Page::Progress;
                }
                KeyOutcome::StartWorker(batch)
            },
            Command::CycleOutputDirectory => {
                self.cycle_output_directory();
                KeyOutcome::Nothing
            },
            Command::ToggleVideoMode => {
                self.toggle_video_mode();
                KeyOutcome::Nothing
            },
            Command::ToggleDefaultVideo => {
                self.toggle_default_video_preference();
                KeyOutcome::Nothing
            },
            Command::CycleCollisionPolicy => {
                self.cycle_collision_policy();
                KeyOutcome::Nothing
            },
            Command::RemoveSelected => {
                self.remove_selected();
                KeyOutcome::Nothing
            },
            Command::NextPage => {
                self.next_page();
                KeyOutcome::Nothing
            },
            Command::PreviousPage => {
                self.previous_page();
                KeyOutcome::Nothing
            },
            Command::GoTo(page) => {
                self.page = page;
                KeyOutcome::Nothing
            },
        }
    }
}

// ---------------------------------------------------------------------------
// Laws of the application state
// ---------------------------------------------------------------------------

/// Going to the previous page undoes going to the next page, and the other way
/// round; three steps forward come back to the start.
pub proof fn lemma_page_navigation(page: Page)
    ensures
        previous_page_of(next_page_of(page)) == page,
        next_page_of(previous_page_of(page)) == page,
        next_page_of(next_page_of(next_page_of(page))) == page,
{
}

/// In a non-empty queue with the selection inside it, moving up undoes moving
/// down, and the other way round; both keep the selection inside the queue.
pub proof fn lemma_selection_round_trip(selected: int, len: int)
    requires
        0 <= selected < len,
    ensures
        0 <= next_index(selected, len) < len,
        0 <= previous_index(selected, len) < len,
        previous_index(next_index(selected, len), len) == selected,
        next_index(previous_index(selected, len), len) == selected,
{
    if selected + 1 < len {
        vstd::arithmetic::div_mod::lemma_small_mod((selected + 1) as nat, len as nat);
    } else {
        vstd::arithmetic::div_mod::lemma_mod_self_0(len);
    }
    if selected > 0 {
        vstd::arithmetic::div_mod::lemma_small_mod(selected as nat, len as nat);
    } else {
        vstd::arithmetic::div_mod::lemma_mod_self_0(len);
    }
}

/// Cycling the collision policy three times, or toggling the video preference
/// twice, comes back to where it started.
pub proof fn lemma_preference_cycles(policy: CollisionPolicy, video: VideoPreference)
    ensures
        next_collision_policy(next_collision_policy(next_collision_policy(policy))) == policy,
        toggled_video(toggled_video(video)) == video,
{
}

/// Typing a character into the path entry and deleting it again leaves the
/// entry as it was.
pub proof fn lemma_type_then_delete(input: Seq<char>, character: char)
    ensures
        input.push(character).len() > 0,
        input.push(character).drop_last() == input,
{
    assert(input.push(character).drop_last() =~= input);
}

/// Toggling the same job twice leaves the queue as it was.
pub proof fn lemma_toggle_twice(jobs: Seq<Job>, i: int)
    requires
        0 <= i < jobs.len(),
    ensures
        with_enabled_toggled(with_enabled_toggled(jobs, i), i) == jobs,
{
    assert(with_enabled_toggled(with_enabled_toggled(jobs, i), i) =~= jobs);
}

/// A state change that keeps the queue and the selection keeps the selection
/// inside the queue.
pub proof fn lemma_same_queue_keeps_wf(before: App, after: App)
    requires
        before.wf(),
        after.same_queue(&before),
    ensures
        after.wf(),
{
}

/// Outside the path entry, the commands that change the queue come only from
/// their key on the Queue page, those that change the preferences only from
/// their key on the Preferences page, and `q` alone quits; pages are reached
/// only by Tab, BackTab and `1` to `3`.
pub proof fn lemma_page_bound_commands(key: Key, page: Page)
    ensures
        command_for(key, false, page) == Command::RemoveSelected <==> key == Key::Char('x')
            && page == Page::Queue,
        command_for(key, false, page) == Command::BeginPath <==> key == Key::Char('a') && page
            == Page::Queue,
        command_for(key, false, page) == Command::RunConversions <==> key == Key::Enter && page
            == Page::Queue,
        command_for(key, false, page) == Command::ToggleVideoMode <==> key == Key::Char('v')
            && page == Page::Queue,
        command_for(key, false, page) == Command::ToggleDefaultVideo <==> key == Key::Char('v')
            && page == Page::Preferences,
        command_for(key, false, page) == Command::CycleOutputDirectory <==> key == Key::Char('o')
            && page == Page::Preferences,
        command_for(key, false, page) == Command::CycleCollisionPolicy <==> key == Key::Char('c')
            && page == Page::Preferences,
        command_for(key, false, page) == Command::Quit <==> key == Key::Char('q'),
        command_for(key, false, page) == Command::SelectNext <==> key == Key::Down || key
            == Key::Char('j'),
        command_for(key, false, page) == Command::SelectPrevious <==> key == Key::Up || key
            == Key::Char('k'),
        command_for(key, false, page) == Command::ToggleSelected <==> key == Key::Char(' '),
        command_for(key, false, page) == Command::NextPage <==> key == Key::Tab,
        command_for(key, false, page) == Command::PreviousPage <==> key == Key::BackTab,
        command_for(key, false, page) == Command::GoTo(Page::Preferences) <==> key == Key::Char(
            '1',
        ),
        command_for(key, false, page) == Command::GoTo(Page::Queue) <==> key == Key::Char('2'),
        command_for(key, false, page) == Command::GoTo(Page::Progress) <==> key == Key::Char('3'),
        !(command_for(key, false, page) is SubmitPath || command_for(key, false, page) is CancelPath
            || command_for(key, false, page) is DeleteCharacter || command_for(
            key,
            false,
            page,
        ) is TypeCharacter),
{
}

/// While a path is typed, every character is typed into it, Enter submits,
/// Esc cancels, Backspace deletes, and no key does anything else.
pub proof fn lemma_typing_commands(key: Key, page: Page)
    ensures
        key matches Key::Char(c) ==> command_for(key, true, page) == Command::TypeCharacter(c),
        command_for(key, true, page) == Command::SubmitPath <==> key == Key::Enter,
        command_for(key, true, page) == Command::CancelPath <==> key == Key::Esc,
        command_for(key, true, page) == Command::DeleteCharacter <==> key == Key::Backspace,
        command_for(key, true, page) is Nothing <==> (key is Up || key is Down || key is Tab
            || key is BackTab || key is Other),
{
}

/// A path with no whitespace at either end, no surrounding quotes and no
/// backslash is kept as it is, and so is it inside single or double quotes
/// once the quotes are removed.
pub proof fn lemma_normalized_clean_path(path: Seq<char>)
    requires
        path.len() > 0,
        !is_white_space(path[0]),
        !is_white_space(path.last()),
        !(path[0] == '\'' && path.last() == '\''),
        !(path[0] == '"' && path.last() == '"'),
        !path.contains('\\'),
    ensures
        normalized_path(path) == path,
        normalized_path(seq!['\''] + path + seq!['\'']) == path,
        normalized_path(seq!['"'] + path + seq!['"']) == path,
        normalized_path(seq!['\'', '"'] + path + seq!['"', '\'']) == path,
        normalized_path(seq![' '] + path + seq!['\t']) == path,
{
    crate::text::lemma_unescape_spaces(path);
    assert(trim_start(path) == path);
    assert(trim_end(path) == path);
    let single = seq!['\''] + path + seq!['\''];
    assert(trim_start(single) == single);
    assert(trim_end(single) == single);
    assert(single.subrange(1, single.len() - 1) =~= path);
    let double = seq!['"'] + path + seq!['"'];
    assert(trim_start(double) == double);
    assert(trim_end(double) == double);
    assert(double.subrange(1, double.len() - 1) =~= path);
    assert(unquoted(double, '\'') == double);
    let both = seq!['\'', '"'] + path + seq!['"', '\''];
    assert(trim_start(both) == both);
    assert(trim_end(both) == both);
    assert(both.subrange(1, both.len() - 1) =~= double);
    let padded = seq![' '] + path + seq!['\t'];
    assert(padded.drop_first() =~= path + seq!['\t']);
    assert(trim_start(path + seq!['\t']) == path + seq!['\t']);
    assert((path + seq!['\t']).drop_last() =~= path);
    assert(trim_end(path + seq!['\t']) == path);
    assert(trimmed(padded) == path);
}

/// The worker reports nothing for a resolved path, a skip (with the job's
/// index) when the output is to be skipped, and a failure (with the job's
/// index) for an error.
pub proof fn lemma_resolution_report(
    index: usize,
    resolution: Result<OutputResolution, OutputError>,
    report: Option<WorkerMessage>,
)
    requires
        resolution_report(index, resolution, report),
    ensures
        report is None <==> resolution matches Ok(OutputResolution::Path(_)),
        report matches Some(WorkerMessage::Skipped(i, _)) <==> resolution == Ok::<
            OutputResolution,
            OutputError,
        >(OutputResolution::Skip),
        report matches Some(WorkerMessage::Failed(i, _)) <==> resolution is Err,
        report matches Some(WorkerMessage::Skipped(i, _)) ==> i == index,
        report matches Some(WorkerMessage::Failed(i, _)) ==> i == index,
{
}

/// Moving down goes to the next entry, and from the last back to the first;
/// moving up goes to the entry before, and from the first to the last.
pub proof fn lemma_selection_steps(selected: int, len: int)
    requires
        0 <= selected < len,
    ensures
        selected + 1 < len ==> next_index(selected, len) == selected + 1,
        selected + 1 == len ==> next_index(selected, len) == 0,
        selected > 0 ==> previous_index(selected, len) == selected - 1,
        selected == 0 ==> previous_index(selected, len) == len - 1,
{
    lemma_selection_round_trip(selected, len);
    if selected + 1 < len {
        vstd::arithmetic::div_mod::lemma_small_mod((selected + 1) as nat, len as nat);
    } else {
        vstd::arithmetic::div_mod::lemma_mod_self_0(len);
    }
}

/// Each preference change moves to a different value: the video preference
/// alternates, and the collision policy goes from Skip to Rename to Overwrite.
pub proof fn lemma_preference_steps(policy: CollisionPolicy, video: VideoPreference)
    ensures
        toggled_video(video) != video,
        next_collision_policy(policy) != policy,
        policy == CollisionPolicy::Skip ==> next_collision_policy(policy)
            == CollisionPolicy::Rename,
        policy == CollisionPolicy::Rename ==> next_collision_policy(policy)
            == CollisionPolicy::Overwrite,
        policy == CollisionPolicy::Overwrite ==> next_collision_policy(policy)
            == CollisionPolicy::Skip,
{
}

/// Toggling a job flips whether it is enabled and changes nothing else, of it
/// or of any other job.
pub proof fn lemma_toggle_one_job(jobs: Seq<Job>, i: int, j: int)
    requires
        0 <= i < jobs.len(),
        0 <= j < jobs.len(),
    ensures
        with_enabled_toggled(jobs, i).len() == jobs.len(),
        with_enabled_toggled(jobs, i)[i].enabled == !jobs[i].enabled,
        with_enabled_toggled(jobs, i)[i].path == jobs[i].path,
        with_enabled_toggled(jobs, i)[i].media == jobs[i].media,
        with_enabled_toggled(jobs, i)[i].plan == jobs[i].plan,
        with_enabled_toggled(jobs, i)[i].status == jobs[i].status,
        with_enabled_toggled(jobs, i)[i].progress == jobs[i].progress,
        j != i ==> with_enabled_toggled(jobs, i)[j] == jobs[j],
{
}

/// Planning a job anew enables it exactly when one of its streams is AAC
/// audio, marks it ready when enabled and not needed otherwise, and keeps its
/// path, media and progress.
pub proof fn lemma_replanned(job: Job)
    ensures
        replanned(job).enabled <==> exists|i: int|
            0 <= i < job.media.streams.len() && (#[trigger] job.media.streams@[i] matches MediaStream::Audio(
                audio,
            ) && audio.codec@ == "aac"@),
        replanned(job).status == JobStatus::Ready <==> replanned(job).enabled,
        replanned(job).status == JobStatus::NotNeeded <==> !replanned(job).enabled,
        replanned(job).plan == ConversionPlan::ConvertAudioToPcm <==> replanned(job).enabled,
        replanned(job).path == job.path,
        replanned(job).media == job.media,
        replanned(job).progress == job.progress,
{
    let streams = job.media.streams@;
    if exists|i: int|
        0 <= i < streams.len() && (#[trigger] streams[i] matches MediaStream::Audio(audio)
            && audio.codec@ == "aac"@) {
        let i = choose|i: int|
            0 <= i < streams.len() && (#[trigger] streams[i] matches MediaStream::Audio(audio)
                && audio.codec@ == "aac"@);
        crate::planner::lemma_plan_follows_aac(streams, i);
    } else {
        crate::planner::lemma_plan_follows_aac(streams, 0);
    }
}

/// Moving down and then up (or up and then down) in a queue with the
/// selection inside it comes back to the same entry and leaves the queue as
/// it was.
pub proof fn lemma_move_round_trip(a: App, b: App, c: App)
    requires
        a.wf(),
        a.jobs.len() > 0,
    ensures
        App::moved_down(&a, &b) && App::moved_up(&b, &c) ==> c.selected == a.selected
            && c.jobs@ == a.jobs@,
        App::moved_up(&a, &b) && App::moved_down(&b, &c) ==> c.selected == a.selected
            && c.jobs@ == a.jobs@,
{
    lemma_selection_round_trip(a.selected as int, a.jobs.len() as int);
}

/// Typing a character and then deleting one leaves the path entry as it was.
pub proof fn lemma_type_delete_round_trip(a: App, b: App, c: App, character: char)
    requires
        App::character_typed(&a, &b, character),
        App::character_deleted(&b, &c),
    ensures
        c.path_input@ == a.path_input@,
        c.adding_path == a.adding_path,
        c.jobs@ == a.jobs@,
{
    lemma_type_then_delete(a.path_input@, character);
}

/// Removing the selected job shortens the queue by one and keeps every other
/// job, in order: those before the selection in place, those after it moved
/// up by one.
pub proof fn lemma_removal(a: App, b: App)
    requires
        App::selection_removed(&a, &b),
        a.jobs.len() > 0,
        a.selected < a.jobs.len(),
    ensures
        b.jobs.len() == a.jobs.len() - 1,
        forall|j: int| 0 <= j < a.selected ==> #[trigger] b.jobs@[j] == a.jobs@[j],
        forall|j: int| a.selected <= j < b.jobs.len() ==> #[trigger] b.jobs@[j] == a.jobs@[j + 1],
        b.wf(),
{
}

/// A job is handed to the worker at most once, and only when it is enabled
/// and its plan calls for a conversion; the worker is started exactly when
/// something was handed out, and never twice.
pub proof fn lemma_batch(a: App, b: App, batch: Seq<QueuedJob>)
    requires
        App::batch_handed_out(&a, &b, batch),
    ensures
        forall|k: int, l: int|
            0 <= k < batch.len() && 0 <= l < batch.len() && k != l ==> #[trigger] batch[k].index
                != #[trigger] batch[l].index,
        forall|k: int|
            0 <= k < batch.len() ==> (#[trigger] a.jobs@[batch[k].index as int]).enabled
                && a.jobs@[batch[k].index as int].plan == ConversionPlan::ConvertAudioToPcm,
        a.worker_running ==> batch.len() == 0,
        !a.worker_running ==> (b.worker_running <==> batch.len() > 0),
        forall|i: int|
            0 <= i < a.jobs.len() && !a.worker_running && (#[trigger] a.jobs@[i]).enabled
                && a.jobs@[i].plan == ConversionPlan::ConvertAudioToPcm ==> exists|k: int|
                0 <= k < batch.len() && #[trigger] batch[k].index == i,
{
    assert forall|k: int, l: int|
        0 <= k < batch.len() && 0 <= l < batch.len() && k != l implies #[trigger] batch[k].index
        != #[trigger] batch[l].index by {
        if k < l {
            assert(batch[k].index < batch[l].index);
        } else {
            assert(batch[l].index < batch[k].index);
        }
    }
    assert forall|k: int| 0 <= k < batch.len() implies (#[trigger] a.jobs@[batch[k].index as int]).enabled
        && a.jobs@[batch[k].index as int].plan == ConversionPlan::ConvertAudioToPcm by {
        assert(queued_from(batch[k], a.jobs@));
    }
    assert forall|i: int|
        0 <= i < a.jobs.len() && !a.worker_running && (#[trigger] a.jobs@[i]).enabled
            && a.jobs@[i].plan == ConversionPlan::ConvertAudioToPcm implies exists|k: int|
        0 <= k < batch.len() && #[trigger] batch[k].index == i by {
        assert(is_queueable(a.jobs@[i]));
        assert(in_batch(batch, i));
    }
}

/// The first converting job is a job of the queue that is converting, with
/// none converting before it; there is none exactly when no job converts.
pub proof fn lemma_first_converting(jobs: Seq<Job>)
    ensures
        first_converting(jobs) matches Some(job) ==> exists|i: int|
            0 <= i < jobs.len() && #[trigger] jobs[i] == job && job.status is Converting && forall|
                j: int,
            | 0 <= j < i ==> !((#[trigger] jobs[j]).status is Converting),
        first_converting(jobs) is None <==> forall|i: int|
            0 <= i < jobs.len() ==> !((#[trigger] jobs[i]).status is Converting),
    decreases jobs.len(),
{
    if jobs.len() > 0 {
        let t = jobs.drop_first();
        lemma_first_converting(t);
        if !(jobs[0].status is Converting) {
            if let Some(job) = first_converting(jobs) {
                let i = choose|i: int|
                    0 <= i < t.len() && #[trigger] t[i] == job && job.status is Converting && forall|
                        j: int,
                    | 0 <= j < i ==> !((#[trigger] t[j]).status is Converting);
                assert(jobs[i + 1] == t[i]);
                assert forall|j: int| 0 <= j < i + 1 implies !((#[trigger] jobs[j]).status is Converting) by {
                    if j > 0 {
                        assert(jobs[j] == t[j - 1]);
                    }
                }
            }
            if forall|i: int| 0 <= i < t.len() ==> !((#[trigger] t[i]).status is Converting) {
                assert forall|i: int| 0 <= i < jobs.len() implies !((#[trigger] jobs[i]).status is Converting) by {
                    if i > 0 {
                        assert(jobs[i] == t[i - 1]);
                    }
                }
            }
            if forall|i: int| 0 <= i < jobs.len() ==> !((#[trigger] jobs[i]).status is Converting) {
                assert forall|i: int| 0 <= i < t.len() implies !((#[trigger] t[i]).status is Converting) by {
                    assert(t[i] == jobs[i + 1]);
                }
            }
        }
    }
}

} // verus!
