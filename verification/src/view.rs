//! The text that the pages of the application show.
use vstd::prelude::*;
use crate::app::{App, Job, JobStatus, Page, first_converting};
use crate::output::{CollisionPolicy, OutputDirectory, OutputPreferences};
use crate::paths::{file_name, path_file_name};
use crate::planner::{PlanningPreferences, VideoPreference};
use crate::text::{owned, append_str, decimal_string, decimal, string_views, all_digits, digits_value, lemma_decimal_value};

verus! {

/// The header: the three pages, the current one in brackets.
pub open spec fn header_spec(page: Page) -> Seq<char> {
    let preferences = if page == Page::Preferences {
        "[1 Preferences]"@
    } else {
        " 1 Preferences "@
    };
    let queue = if page == Page::Queue {
        "[2 Queue]"@
    } else {
        " 2 Queue "@
    };
    let progress = if page == Page::Progress {
        "[3 Progress]"@
    } else {
        " 3 Progress "@
    };
    preferences + "  "@ + queue + "  "@ + progress
}

/// The header line for `page`.
pub fn header_text(page: Page) -> (r: String)
    ensures
        r@ == header_spec(page),
{
    let mut r = if page == Page::Preferences {
        owned("[1 Preferences]")
    } else {
        owned(" 1 Preferences ")
    };
    append_str(&mut r, "  ");
    append_str(
        &mut r,
        if page == Page::Queue {
            "[2 Queue]"
        } else {
            " 2 Queue "
        },
    );
    append_str(&mut r, "  ");
    append_str(
        &mut r,
        if page == Page::Progress {
            "[3 Progress]"
        } else {
            " 3 Progress "
        },
    );
    r
}

/// The footer: the path being typed, or the keys of the page.
pub open spec fn footer_spec(adding_path: bool, path_input: Seq<char>, page: Page) -> Seq<char> {
    if adding_path {
        "Add path: "@ + path_input + "\u{2588} | Enter confirm | Esc cancel"@
    } else {
        match page {
            Page::Queue => "\u{2191}\u{2193}/jk move | <Space> toggle | a add file/path | x remove | v video | <Enter> run | <Tab> next page | q quit"@,
            Page::Preferences => "v video default | o output location | c collision policy | <Tab> next page | q quit"@,
            Page::Progress => "1 Queue | 2 Preferences | 3 Progress | <Tab> next page | q quit"@,
        }
    }
}

/// The footer line for the application's state.
pub fn footer_text(app: &App) -> (r: String)
    ensures
        r@ == footer_spec(app.adding_path, app.path_input@, app.page),
{
    if app.adding_path {
        let mut r = owned("Add path: ");
        append_str(&mut r, app.path_input.as_str());
        append_str(&mut r, "\u{2588} | Enter confirm | Esc cancel");
        r
    } else {
        match app.page {
            Page::Queue => owned(
                "\u{2191}\u{2193}/jk move | <Space> toggle | a add file/path | x remove | v video | <Enter> run | <Tab> next page | q quit",
            ),
            Page::Preferences => owned(
                "v video default | o output location | c collision policy | <Tab> next page | q quit",
            ),
            Page::Progress => owned("1 Queue | 2 Preferences | 3 Progress | <Tab> next page | q quit"),
        }
    }
}

/// How the video preference reads on the Preferences page.
pub open spec fn video_label(video: VideoPreference) -> Seq<char> {
    match video {
        VideoPreference::Preserve => "Preserve compatible video"@,
        VideoPreference::ForceDnxhr => "Force DNxHR"@,
    }
}

/// How the collision policy reads on the Preferences page.
pub open spec fn collision_label(collision: CollisionPolicy) -> Seq<char> {
    match collision {
        CollisionPolicy::Skip => "Skip existing output"@,
        CollisionPolicy::Rename => "Create numbered copy"@,
        CollisionPolicy::Overwrite => "Overwrite existing output"@,
    }
}

/// How the output location reads on the Preferences page.
pub open spec fn location_label(directory: OutputDirectory) -> Seq<char> {
    match directory {
        OutputDirectory::SameAsSource => "Same as source"@,
        OutputDirectory::Subdirectory(name) => "Subdirectory: "@ + name@,
        OutputDirectory::Custom(path) => "Custom: "@ + path@,
    }
}

/// The body of the Preferences page.
pub open spec fn preferences_spec(
    planning: PlanningPreferences,
    output: OutputPreferences,
) -> Seq<char> {
    "Default video plan\n"@ + video_label(planning.video) + "\n\nOutput\nLocation: "@
        + location_label(output.directory)
        + "\nFilename: {stem}_codecbrdige.mov\nExisting ouptut: "@ + collision_label(
        output.collision,
    ) + "\n\nv Toggle video mode\no Change output location\nc Change collision policy"@
}

/// The body of the Preferences page for the application's preferences.
pub fn preferences_text(app: &App) -> (r: String)
    ensures
        r@ == preferences_spec(app.default_preferences, app.output_preferences),
{
    let mut r = owned("Default video plan\n");
    append_str(
        &mut r,
        match app.default_preferences.video {
            VideoPreference::Preserve => "Preserve compatible video",
            VideoPreference::ForceDnxhr => "Force DNxHR",
        },
    );
    append_str(&mut r, "\n\nOutput\nLocation: ");
    match &app.output_preferences.directory {
        OutputDirectory::SameAsSource => append_str(&mut r, "Same as source"),
        OutputDirectory::Subdirectory(name) => {
            append_str(&mut r, "Subdirectory: ");
            append_str(&mut r, name.as_str());
        },
        OutputDirectory::Custom(path) => {
            append_str(&mut r, "Custom: ");
            append_str(&mut r, path.as_str());
        },
    }
    append_str(&mut r, "\nFilename: {stem}_codecbrdige.mov\nExisting ouptut: ");
    append_str(
        &mut r,
        match app.output_preferences.collision {
            CollisionPolicy::Skip => "Skip existing output",
            CollisionPolicy::Rename => "Create numbered copy",
            CollisionPolicy::Overwrite => "Overwrite existing output",
        },
    );
    append_str(&mut r, "\n\nv Toggle video mode\no Change output location\nc Change collision policy");
    r
}

/// The statuses that the Progress page counts.
#[derive(Debug, Clone, Copy, PartialEq, Eq, Structural)]
pub enum StatusKind {
    Any,
    Complete,
    Skipped,
    Failed,
    Converting,
}

/// Whether a status is of the given kind.
pub open spec fn is_kind(status: JobStatus, kind: StatusKind) -> bool {
    match kind {
        StatusKind::Any => true,
        StatusKind::Complete => status is Complete,
        StatusKind::Skipped => status is Skipped,
        StatusKind::Failed => status is Failed,
        StatusKind::Converting => status is Converting,
    }
}

/// The number of enabled jobs of `jobs` whose status is of the given kind.
pub open spec fn count_enabled(jobs: Seq<Job>, kind: StatusKind) -> nat
    decreases jobs.len(),
{
    if jobs.len() == 0 {
        0
    } else {
        count_enabled(jobs.drop_last(), kind) + if jobs.last().enabled && is_kind(
            jobs.last().status,
            kind,
        ) {
            1nat
        } else {
            0nat
        }
    }
}

/// The counts that the Progress page shows, over the enabled jobs.
#[derive(Debug, Clone, Copy, PartialEq, Eq, Structural)]
pub struct ProgressSummary {
    pub total: usize,
    pub complete: usize,
    pub pending: usize,
    pub skipped: usize,
    pub failed: usize,
    pub converting: usize,
}

/// Whether `s` holds the counts of `jobs`: the enabled jobs, those of them
/// that are complete, skipped, failed or converting, and the pending rest
/// (the total less the others, or 0 where they exceed it).
pub open spec fn summarizes(s: ProgressSummary, jobs: Seq<Job>) -> bool {
    let total = count_enabled(jobs, StatusKind::Any);
    let complete = count_enabled(jobs, StatusKind::Complete);
    let skipped = count_enabled(jobs, StatusKind::Skipped);
    let failed = count_enabled(jobs, StatusKind::Failed);
    let converting = count_enabled(jobs, StatusKind::Converting);
    &&& s.total == total
    &&& s.complete == complete
    &&& s.skipped == skipped
    &&& s.failed == failed
    &&& s.converting == converting
    &&& s.pending == if complete + skipped + failed + converting <= total {
        total - (complete + skipped + failed + converting)
    } else {
        0
    }
}

/// Counts the enabled jobs and their outcomes.
pub fn progress_summary(jobs: &Vec<Job>) -> (r: ProgressSummary)
    ensures
        summarizes(r, jobs@),
{
    let mut total: usize = 0;
    let mut complete: usize = 0;
    let mut skipped: usize = 0;
    let mut failed: usize = 0;
    let mut converting: usize = 0;
    for i in 0..jobs.len()
        invariant
            total == count_enabled(jobs@.take(i as int), StatusKind::Any),
            complete == count_enabled(jobs@.take(i as int), StatusKind::Complete),
            skipped == count_enabled(jobs@.take(i as int), StatusKind::Skipped),
            failed == count_enabled(jobs@.take(i as int), StatusKind::Failed),
            converting == count_enabled(jobs@.take(i as int), StatusKind::Converting),
            total <= i,
            complete <= i,
            skipped <= i,
            failed <= i,
            converting <= i,
    {
        let ghost next = jobs@.take(i + 1);
        assert(next.drop_last() =~= jobs@.take(i as int));
        assert(next.last() == jobs@[i as int]);
        let job = &jobs[i];
        if job.enabled {
            total = total + 1;
            match &job.status {
                JobStatus::Complete => {
                    complete = complete + 1;
                },
                JobStatus::Skipped(_) => {
                    skipped = skipped + 1;
                },
                JobStatus::Failed(_) => {
                    failed = failed + 1;
                },
                JobStatus::Converting => {
                    converting = converting + 1;
                },
                _ => {},
            }
        }
    }
    assert(jobs@.take(jobs.len() as int) =~= jobs@);
    let pending = if complete as u128 + skipped as u128 + failed as u128 + converting as u128
        <= total as u128 {
        total - (complete + skipped + failed + converting)
    } else {
        0
    };
    ProgressSummary { total, complete, pending, skipped, failed, converting }
}

/// The summary line of the Progress page.
pub open spec fn summary_spec(s: ProgressSummary) -> Seq<char> {
    "Completed: "@ + decimal(s.complete as nat) + "/"@ + decimal(s.total as nat)
        + "    Pending: "@ + decimal(s.pending as nat) + "    Skipped: "@ + decimal(
        s.skipped as nat,
    ) + "    Failed: "@ + decimal(s.failed as nat)
}

/// The summary line for the counts.
pub fn summary_text(s: &ProgressSummary) -> (r: String)
    ensures
        r@ == summary_spec(*s),
{
    let mut r = owned("Completed: ");
    append_str(&mut r, decimal_string(s.complete as u64).as_str());
    append_str(&mut r, "/");
    append_str(&mut r, decimal_string(s.total as u64).as_str());
    append_str(&mut r, "    Pending: ");
    append_str(&mut r, decimal_string(s.pending as u64).as_str());
    append_str(&mut r, "    Skipped: ");
    append_str(&mut r, decimal_string(s.skipped as u64).as_str());
    append_str(&mut r, "    Failed: ");
    append_str(&mut r, decimal_string(s.failed as u64).as_str());
    r
}

/// The name a job is shown under: its file name, else its whole path.
pub open spec fn display_name_spec(path: Seq<char>) -> Seq<char> {
    match path_file_name(path) {
        Some(name) => name,
        None => path,
    }
}

/// The name a job is shown under.
pub fn display_name(path: &str) -> (r: String)
    ensures
        r@ == display_name_spec(path@),
{
    match file_name(path) {
        Some(name) => name,
        None => owned(path),
    }
}

/// The line of the job list for a job.
pub open spec fn job_line_spec(job: Job) -> Seq<char> {
    let name = display_name_spec(job.path@);
    match job.status {
        JobStatus::Ready => "\u{2022} "@ + name + "  Pending"@,
        JobStatus::NotNeeded => "- "@ + name + "  Not needed"@,
        JobStatus::Skipped(reason) => "- "@ + name + " SKipped: "@ + reason@,
        JobStatus::Converting => "\u{25b6} "@ + name + "  "@ + decimal(job.progress as nat) + "%"@,
        JobStatus::Complete => "\u{2713} "@ + name + "  Complete"@,
        JobStatus::Failed(error) => "! "@ + name + "  Failed: "@ + error@,
    }
}

/// The line of the job list for a job.
pub fn job_line(job: &Job) -> (r: String)
    ensures
        r@ == job_line_spec(*job),
{
    let name = display_name(job.path.as_str());
    match &job.status {
        JobStatus::Ready => {
            let mut r = owned("\u{2022} ");
            append_str(&mut r, name.as_str());
            append_str(&mut r, "  Pending");
            r
        },
        JobStatus::NotNeeded => {
            let mut r = owned("- ");
            append_str(&mut r, name.as_str());
            append_str(&mut r, "  Not needed");
            r
        },
        JobStatus::Skipped(reason) => {
            let mut r = owned("- ");
            append_str(&mut r, name.as_str());
            append_str(&mut r, " SKipped: ");
            append_str(&mut r, reason.as_str());
            r
        },
        JobStatus::Converting => {
            let mut r = owned("\u{25b6} ");
            append_str(&mut r, name.as_str());
            append_str(&mut r, "  ");
            append_str(&mut r, decimal_string(job.progress as u64).as_str());
            append_str(&mut r, "%");
            r
        },
        JobStatus::Complete => {
            let mut r = owned("\u{2713} ");
            append_str(&mut r, name.as_str());
            append_str(&mut r, "  Complete");
            r
        },
        JobStatus::Failed(error) => {
            let mut r = owned("! ");
            append_str(&mut r, name.as_str());
            append_str(&mut r, "  Failed: ");
            append_str(&mut r, error.as_str());
            r
        },
    }
}

/// The job list of the Progress page: one line per enabled job, in queue
/// order.
pub open spec fn job_lines_spec(jobs: Seq<Job>) -> Seq<Seq<char>>
    decreases jobs.len(),
{
    if jobs.len() == 0 {
        Seq::empty()
    } else if jobs.last().enabled {
        job_lines_spec(jobs.drop_last()).push(job_line_spec(jobs.last()))
    } else {
        job_lines_spec(jobs.drop_last())
    }
}

/// The job list of the Progress page.
pub fn job_lines(jobs: &Vec<Job>) -> (r: Vec<String>)
    ensures
        string_views(r@) == job_lines_spec(jobs@),
{
    let mut r: Vec<String> = Vec::new();
    for i in 0..jobs.len()
        invariant
            string_views(r@) == job_lines_spec(jobs@.take(i as int)),
    {
        let ghost before = jobs@.take(i as int);
        let ghost after = jobs@.take(i + 1);
        assert(after.drop_last() =~= before);
        assert(after.last() == jobs@[i as int]);
        if jobs[i].enabled {
            let line = job_line(&jobs[i]);
            let ghost old_r = r@;
            r.push(line);
            assert(string_views(r@) =~= string_views(old_r).push(line@));
        }
    }
    assert(jobs@.take(jobs.len() as int) =~= jobs@);
    r
}

/// What the "current conversion" box of the Progress page shows: the title
/// naming the job that is converting and its progress, or none.
pub open spec fn current_spec(jobs: Seq<Job>) -> Option<(Seq<char>, u16)> {
    match first_converting(jobs) {
        Some(job) => Some((" Converting: "@ + display_name_spec(job.path@) + " "@, job.progress)),
        None => None,
    }
}

/// The title and progress of the conversion that is running, if any.
pub fn current_conversion(app: &App) -> (r: Option<(String, u16)>)
    ensures
        match r {
            Some((title, percent)) => current_spec(app.jobs@) == Some((title@, percent)),
            None => current_spec(app.jobs@) is None,
        },
{
    match app.active_job() {
        Some(job) => {
            let mut title = owned(" Converting: ");
            append_str(&mut title, display_name(job.path.as_str()).as_str());
            append_str(&mut title, " ");
            Some((title, job.progress))
        },
        None => None,
    }
}

/// The number of enabled jobs that are ready or need no conversion.
pub open spec fn count_waiting(jobs: Seq<Job>) -> nat
    decreases jobs.len(),
{
    if jobs.len() == 0 {
        0
    } else {
        count_waiting(jobs.drop_last()) + if jobs.last().enabled && (jobs.last().status is Ready
            || jobs.last().status is NotNeeded) {
            1nat
        } else {
            0nat
        }
    }
}

/// Every enabled job is exactly one of complete, skipped, failed, converting
/// and waiting.
pub proof fn lemma_counts_partition(jobs: Seq<Job>)
    ensures
        count_enabled(jobs, StatusKind::Complete) + count_enabled(jobs, StatusKind::Skipped)
            + count_enabled(jobs, StatusKind::Failed) + count_enabled(jobs, StatusKind::Converting)
            + count_waiting(jobs) == count_enabled(jobs, StatusKind::Any),
    decreases jobs.len(),
{
    if jobs.len() > 0 {
        lemma_counts_partition(jobs.drop_last());
    }
}

/// The pending count of the Progress page is the number of enabled jobs that
/// are waiting: the outcomes never outnumber the enabled jobs.
pub proof fn lemma_pending_is_waiting(summary: ProgressSummary, jobs: Seq<Job>)
    requires
        summarizes(summary, jobs),
    ensures
        summary.pending == count_waiting(jobs),
        summary.complete + summary.skipped + summary.failed + summary.converting
            <= summary.total,
{
    lemma_counts_partition(jobs);
}

/// The summary line shape, with the five numbers written as given.
pub open spec fn summary_line(
    complete: Seq<char>,
    total: Seq<char>,
    pending: Seq<char>,
    skipped: Seq<char>,
    failed: Seq<char>,
) -> Seq<char> {
    "Completed: "@ + complete + "/"@ + total + "    Pending: "@ + pending + "    Skipped: "@
        + skipped + "    Failed: "@ + failed
}

/// The summary line shows, in decimal digits, the complete count over the
/// total, then the pending, the skipped and the failed count, each after its
/// own label.
pub proof fn lemma_summary_fields(s: ProgressSummary)
    ensures
        exists|c: Seq<char>, t: Seq<char>, p: Seq<char>, k: Seq<char>, f: Seq<char>|
            {
                &&& all_digits(c) && digits_value(c) == s.complete
                &&& all_digits(t) && digits_value(t) == s.total
                &&& all_digits(p) && digits_value(p) == s.pending
                &&& all_digits(k) && digits_value(k) == s.skipped
                &&& all_digits(f) && digits_value(f) == s.failed
                &&& summary_spec(s) == #[trigger] summary_line(c, t, p, k, f)
            },
{
    lemma_decimal_value(s.complete as nat);
    lemma_decimal_value(s.total as nat);
    lemma_decimal_value(s.pending as nat);
    lemma_decimal_value(s.skipped as nat);
    lemma_decimal_value(s.failed as nat);
    let c = decimal(s.complete as nat);
    let t = decimal(s.total as nat);
    let p = decimal(s.pending as nat);
    let k = decimal(s.skipped as nat);
    let f = decimal(s.failed as nat);
    assert(summary_spec(s) == summary_line(c, t, p, k, f));
}

/// The header brackets exactly the current page: it starts with a bracket
/// only on the Preferences page, ends with one only on the Progress page, and
/// differs from page to page.
pub proof fn lemma_header(page: Page, other: Page)
    ensures
        header_spec(page)[0] == '[' <==> page == Page::Preferences,
        header_spec(page).last() == ']' <==> page == Page::Progress,
        page != other ==> header_spec(page) != header_spec(other),
{
    reveal_strlit("[1 Preferences]");
    reveal_strlit(" 1 Preferences ");
    reveal_strlit("[2 Queue]");
    reveal_strlit(" 2 Queue ");
    reveal_strlit("[3 Progress]");
    reveal_strlit(" 3 Progress ");
    reveal_strlit("  ");
    let h = header_spec(page);
    let g = header_spec(other);
    assert(h[0] == header_spec(page).subrange(0, 1)[0]);
    if page != other {
        if page == Page::Preferences || other == Page::Preferences {
            assert(h[0] != g[0]);
        } else {
            assert(h.last() != g.last());
        }
    }
}

/// While a path is typed, the footer shows `Add path: ` and the typed text on
/// every page; otherwise it depends on the page alone, never on the entry,
/// and differs from page to page.
pub proof fn lemma_footer(path_input: Seq<char>, other_input: Seq<char>, page: Page, other: Page)
    ensures
        footer_spec(true, path_input, page) == footer_spec(true, path_input, other),
        footer_spec(true, path_input, page).subrange(0, 10) == "Add path: "@,
        footer_spec(true, path_input, page).subrange(10, 10 + path_input.len() as int) == path_input,
        footer_spec(false, path_input, page) == footer_spec(false, other_input, page),
        page != other ==> footer_spec(false, path_input, page) != footer_spec(
            false,
            path_input,
            other,
        ),
{
    reveal_strlit("Add path: ");
    reveal_strlit(
        "\u{2191}\u{2193}/jk move | <Space> toggle | a add file/path | x remove | v video | <Enter> run | <Tab> next page | q quit",
    );
    reveal_strlit(
        "v video default | o output location | c collision policy | <Tab> next page | q quit",
    );
    reveal_strlit("1 Queue | 2 Preferences | 3 Progress | <Tab> next page | q quit");
    let f = footer_spec(true, path_input, page);
    assert(f.subrange(0, 10) =~= "Add path: "@);
    assert(f.subrange(10, 10 + path_input.len() as int) =~= path_input);
    if page != other {
        let a = footer_spec(false, path_input, page);
        let b = footer_spec(false, path_input, other);
        assert(a[0] != b[0]);
    }
}

/// Different choices read differently on the Preferences page, and the page
/// shows the video choice right after its heading line.
pub proof fn lemma_preference_labels(
    v: VideoPreference,
    w: VideoPreference,
    p: CollisionPolicy,
    q: CollisionPolicy,
    planning: PlanningPreferences,
    output: OutputPreferences,
)
    ensures
        v != w ==> video_label(v) != video_label(w),
        p != q ==> collision_label(p) != collision_label(q),
        preferences_spec(planning, output).subrange(
            19,
            19 + video_label(planning.video).len() as int,
        ) == video_label(planning.video),
{
    reveal_strlit("Preserve compatible video");
    reveal_strlit("Force DNxHR");
    reveal_strlit("Skip existing output");
    reveal_strlit("Create numbered copy");
    reveal_strlit("Overwrite existing output");
    reveal_strlit("Default video plan\n");
    if v != w {
        assert(video_label(v)[0] != video_label(w)[0]);
    }
    if p != q {
        assert(collision_label(p)[0] != collision_label(q)[0]);
    }
    let t = preferences_spec(planning, output);
    let head = "Default video plan\n"@ + video_label(planning.video);
    assert(t.subrange(0, head.len() as int) =~= head);
    assert(head.subrange(19, head.len() as int) =~= video_label(planning.video));
    assert(t.subrange(19, 19 + video_label(planning.video).len() as int) =~= head.subrange(
        19,
        head.len() as int,
    ));
}

/// A job's line shows its name after a two-character mark that tells its
/// status (a bullet when ready, a dash when not needed or skipped, a triangle
/// when converting, a tick when complete, `!` when failed).
pub proof fn lemma_job_line(job: Job)
    ensures
        job_line_spec(job).subrange(2, 2 + display_name_spec(job.path@).len() as int)
            == display_name_spec(job.path@),
        job_line_spec(job)[0] == match job.status {
            JobStatus::Ready => '\u{2022}',
            JobStatus::NotNeeded => '-',
            JobStatus::Skipped(_) => '-',
            JobStatus::Converting => '\u{25b6}',
            JobStatus::Complete => '\u{2713}',
            JobStatus::Failed(_) => '!',
        },
{
    reveal_strlit("\u{2022} ");
    reveal_strlit("- ");
    reveal_strlit("\u{25b6} ");
    reveal_strlit("\u{2713} ");
    reveal_strlit("! ");
    let name = display_name_spec(job.path@);
    let line = job_line_spec(job);
    assert(line.subrange(2, 2 + name.len() as int) =~= name);
}

/// The line of a converting job ends with its progress in decimal digits and
/// `%`.
pub proof fn lemma_converting_line(job: Job)
    requires
        job.status is Converting,
    ensures
        exists|d: Seq<char>|
            all_digits(d) && digits_value(d) == job.progress && #[trigger] job_line_spec(job).subrange(
                job_line_spec(job).len() - d.len() - 1,
                job_line_spec(job).len() as int,
            ) == d + "%"@,
{
    reveal_strlit("%");
    lemma_decimal_value(job.progress as nat);
    let d = decimal(job.progress as nat);
    let line = job_line_spec(job);
    assert(line.subrange(line.len() - d.len() - 1, line.len() as int) =~= d + "%"@);
}

/// The job list has one line per enabled job, and the list of two queues
/// joined is the two lists joined.
pub proof fn lemma_job_lines(a: Seq<Job>, b: Seq<Job>)
    ensures
        job_lines_spec(a).len() == count_enabled(a, StatusKind::Any),
        job_lines_spec(a + b) == job_lines_spec(a) + job_lines_spec(b),
    decreases a.len() + b.len(),
{
    if a.len() > 0 {
        lemma_job_lines(a.drop_last(), b);
    }
    if b.len() == 0 {
        assert(a + b =~= a);
        assert(job_lines_spec(a) + job_lines_spec(b) =~= job_lines_spec(a));
    } else {
        lemma_job_lines(a, b.drop_last());
        assert((a + b).drop_last() =~= a + b.drop_last());
        assert((a + b).last() == b.last());
        if b.last().enabled {
            assert(job_lines_spec(a) + job_lines_spec(b) =~= (job_lines_spec(a) + job_lines_spec(
                b.drop_last(),
            )).push(job_line_spec(b.last())));
        }
    }
}

/// Counting over two queues joined adds up the two counts, and a disabled
/// job is never counted.
pub proof fn lemma_count_enabled(a: Seq<Job>, b: Seq<Job>, kind: StatusKind)
    ensures
        count_enabled(a + b, kind) == count_enabled(a, kind) + count_enabled(b, kind),
        (forall|i: int| 0 <= i < b.len() ==> !(#[trigger] b[i]).enabled) ==> count_enabled(
            a + b,
            kind,
        ) == count_enabled(a, kind),
    decreases b.len(),
{
    if b.len() == 0 {
        assert(a + b =~= a);
    } else {
        lemma_count_enabled(a, b.drop_last(), kind);
        assert((a + b).drop_last() =~= a + b.drop_last());
        assert((a + b).last() == b.last());
        if forall|i: int| 0 <= i < b.len() ==> !(#[trigger] b[i]).enabled {
            assert(!b[b.len() - 1].enabled);
            assert forall|i: int| 0 <= i < b.drop_last().len() implies !(#[trigger] b.drop_last()[i]).enabled by {
                assert(b.drop_last()[i] == b[i]);
            }
            lemma_count_enabled(Seq::empty(), b.drop_last(), kind);
        }
    }
}

/// The current conversion box names a job exactly when some job is
/// converting, and then shows the first converting job's name and progress.
pub proof fn lemma_current(jobs: Seq<Job>)
    ensures
        current_spec(jobs) is Some <==> exists|i: int|
            0 <= i < jobs.len() && (#[trigger] jobs[i]).status is Converting,
        current_spec(jobs) matches Some((title, percent)) ==> exists|i: int|
            0 <= i < jobs.len() && (#[trigger] jobs[i]).status is Converting && percent
                == jobs[i].progress && title.subrange(13, 13 + display_name_spec(jobs[i].path@).len() as int)
                == display_name_spec(jobs[i].path@),
{
    reveal_strlit(" Converting: ");
    crate::app::lemma_first_converting(jobs);
    if let Some(job) = first_converting(jobs) {
        let title = " Converting: "@ + display_name_spec(job.path@) + " "@;
        assert(title.subrange(13, 13 + display_name_spec(job.path@).len() as int) =~= display_name_spec(
            job.path@,
        ));
    }
}

/// A single job is counted exactly when it is enabled and its status is of
/// the counted kind: complete, skipped, failed, converting, or any.
pub proof fn lemma_count_one(job: Job)
    ensures
        count_enabled(seq![job], StatusKind::Any) == if job.enabled {
            1nat
        } else {
            0nat
        },
        count_enabled(seq![job], StatusKind::Complete) == if job.enabled && job.status
            is Complete {
            1nat
        } else {
            0nat
        },
        count_enabled(seq![job], StatusKind::Skipped) == if job.enabled && job.status is Skipped {
            1nat
        } else {
            0nat
        },
        count_enabled(seq![job], StatusKind::Failed) == if job.enabled && job.status is Failed {
            1nat
        } else {
            0nat
        },
        count_enabled(seq![job], StatusKind::Converting) == if job.enabled && job.status
            is Converting {
            1nat
        } else {
            0nat
        },
{
    let one = seq![job];
    assert(one.drop_last() =~= Seq::<Job>::empty());
    assert(one.last() == job);
    assert(count_enabled(Seq::<Job>::empty(), StatusKind::Any) == 0);
    assert(count_enabled(Seq::<Job>::empty(), StatusKind::Complete) == 0);
    assert(count_enabled(Seq::<Job>::empty(), StatusKind::Skipped) == 0);
    assert(count_enabled(Seq::<Job>::empty(), StatusKind::Failed) == 0);
    assert(count_enabled(Seq::<Job>::empty(), StatusKind::Converting) == 0);
}

/// A job is shown under its file name, and under its whole path only when the
/// path has no file name.
pub proof fn lemma_display_name(path: Seq<char>)
    ensures
        path_file_name(path) matches Some(name) ==> display_name_spec(path) == name,
        path_file_name(path) is None ==> display_name_spec(path) == path,
{
}

} // verus!
