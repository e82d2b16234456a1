//! Where a converted file is written, and what happens when that file exists.
use vstd::prelude::*;
use crate::paths::{file_stem, parent, join, path_exists, path_file_stem, path_parent, path_join};
use crate::text::{owned, append_str, decimal_string, decimal, str_equal, lemma_decimal_injective};

verus! {

/// The directory that receives the converted files.
#[derive(Debug, Clone, PartialEq, Eq)]
pub enum OutputDirectory {
    /// The directory of the source file.
    SameAsSource,
    /// A directory of the given name inside the source file's directory.
    Subdirectory(String),
    /// A directory given by its path.
    Custom(String),
}

/// What to do when the output file already exists.
#[derive(Debug, Clone, Copy, PartialEq, Eq, Structural)]
pub enum CollisionPolicy {
    /// Leave the existing file alone and skip the job.
    Skip,
    /// Write to the first free numbered name instead.
    Rename,
    /// Write over the existing file.
    Overwrite,
}

/// Where and under which name the converted files go.
#[derive(Debug, Clone, PartialEq, Eq)]
pub struct OutputPreferences {
    pub directory: OutputDirectory,
    pub suffix: String,
    pub collision: CollisionPolicy,
}

impl Default for OutputPreferences {
    fn default() -> (r: Self)
        ensures
            r.directory is SameAsSource,
            r.suffix@ == "_codecbridge"@,
            r.collision == CollisionPolicy::Skip,
    {
        OutputPreferences {
            directory: OutputDirectory::SameAsSource,
            suffix: owned("_codecbridge"),
            collision: CollisionPolicy::Skip,
        }
    }
}

/// The outcome of choosing an output path.
#[derive(Debug, Clone, PartialEq, Eq)]
pub enum OutputResolution {
    /// Write the converted file to this path.
    Path(String),
    /// Do not convert: the output exists and the policy says to skip.
    Skip,
}

/// Why no output path could be chosen.
#[derive(Debug, Clone, Copy, PartialEq, Eq, Structural)]
pub enum OutputError {
    /// The input path has no file name to take a stem from.
    NoFileName,
    /// The input path has no parent directory.
    NoParentDirectory,
    /// Every numbered name up to `i32::MAX` is taken.
    NoFreeName,
}

/// The highest number tried for a numbered output name.
pub const MAX_OUTPUT_NUMBER: u32 = 2147483647u32;

impl OutputError {
    /// The message that describes the error.
    pub fn message(&self) -> (r: &'static str)
        ensures
            r@ == match self {
                OutputError::NoFileName => "Input file has no filename"@,
                OutputError::NoParentDirectory => "Input file has no parent directory"@,
                OutputError::NoFreeName => "No free numbered output name"@,
            },
    {
        match self {
            OutputError::NoFileName => "Input file has no filename",
            OutputError::NoParentDirectory => "Input file has no parent directory",
            OutputError::NoFreeName => "No free numbered output name",
        }
    }
}

/// The output file's name: the stem, the suffix and `.mov`.
pub open spec fn output_file_name(stem: Seq<char>, suffix: Seq<char>) -> Seq<char> {
    stem + suffix + ".mov"@
}

/// The numbered output file's name: the stem, the suffix, `_`, the number and
/// `.mov`.
pub open spec fn numbered_file_name(stem: Seq<char>, suffix: Seq<char>, n: nat) -> Seq<char> {
    stem + suffix + "_"@ + decimal(n) + ".mov"@
}

/// The directory that receives the output of `input`, if there is one.
pub open spec fn output_directory(input: Seq<char>, directory: OutputDirectory) -> Option<
    Seq<char>,
> {
    match directory {
        OutputDirectory::SameAsSource => path_parent(input),
        OutputDirectory::Subdirectory(name) => match path_parent(input) {
            Some(dir) => Some(path_join(dir, name@)),
            None => None,
        },
        OutputDirectory::Custom(path) => Some(path@),
    }
}

/// The output file's name for a stem and a suffix.
pub fn output_name(stem: &str, suffix: &str) -> (r: String)
    ensures
        r@ == output_file_name(stem@, suffix@),
{
    let mut r = owned(stem);
    append_str(&mut r, suffix);
    append_str(&mut r, ".mov");
    r
}

/// The numbered output file's name for a stem, a suffix and a number.
pub fn numbered_name(stem: &str, suffix: &str, n: u32) -> (r: String)
    ensures
        r@ == numbered_file_name(stem@, suffix@, n as nat),
{
    let mut r = owned(stem);
    append_str(&mut r, suffix);
    append_str(&mut r, "_");
    let digits = decimal_string(n as u64);
    append_str(&mut r, digits.as_str());
    append_str(&mut r, ".mov");
    r
}

/// What to do about the plain output name, once it is known whether a file of
/// that name exists.
#[derive(Debug, Clone, Copy, PartialEq, Eq, Structural)]
pub enum CollisionAction {
    /// Use the plain output name.
    UseName,
    /// Skip the job.
    SkipJob,
    /// Look for the first free numbered name.
    FindNumbered,
}

/// The decision for the plain output name: a free name is used; a taken one is
/// skipped, written over or replaced by a numbered name, as the policy says.
pub open spec fn collision_action_spec(policy: CollisionPolicy, exists: bool) -> CollisionAction {
    if !exists {
        CollisionAction::UseName
    } else {
        match policy {
            CollisionPolicy::Skip => CollisionAction::SkipJob,
            CollisionPolicy::Overwrite => CollisionAction::UseName,
            CollisionPolicy::Rename => CollisionAction::FindNumbered,
        }
    }
}

/// Decides what to do about the plain output name.
pub fn collision_action(policy: CollisionPolicy, exists: bool) -> (r: CollisionAction)
    ensures
        r == collision_action_spec(policy, exists),
{
    if !exists {
        return CollisionAction::UseName;
    }
    match policy {
        CollisionPolicy::Skip => CollisionAction::SkipJob,
        CollisionPolicy::Overwrite => CollisionAction::UseName,
        CollisionPolicy::Rename => CollisionAction::FindNumbered,
    }
}

/// What the numbered-name search does with the answer for candidate `number`.
#[derive(Debug, Clone, Copy, PartialEq, Eq, Structural)]
pub enum RenameStep {
    /// The candidate is free: use it.
    Take,
    /// The candidate is taken: try the next number.
    TryNext,
    /// The candidate is taken and it was the last number: give up.
    GiveUp,
}

/// The decision for a numbered candidate: a free one is taken; a taken one
/// moves the search on, unless it was the last number.
pub open spec fn rename_step_spec(number: u32, exists: bool) -> RenameStep {
    if !exists {
        RenameStep::Take
    } else if number == MAX_OUTPUT_NUMBER {
        RenameStep::GiveUp
    } else {
        RenameStep::TryNext
    }
}

/// Decides what to do about a numbered candidate.
pub fn rename_step(number: u32, exists: bool) -> (r: RenameStep)
    requires
        2 <= number <= MAX_OUTPUT_NUMBER,
    ensures
        r == rename_step_spec(number, exists),
{
    if !exists {
        RenameStep::Take
    } else if number == MAX_OUTPUT_NUMBER {
        RenameStep::GiveUp
    } else {
        RenameStep::TryNext
    }
}

/// Where the output search learns whether a path is taken.
pub trait FileExistence {
    /// Whether `taken` may be the answer for `path`.
    spec fn answers(&self, path: Seq<char>, taken: bool) -> bool;

    /// Whether a file (or directory) exists at `path`.
    fn is_taken(&self, path: &str) -> (r: bool)
        ensures
            self.answers(path@, r),
    ;
}

/// The file system, asked at the moment of each call. Any answer may come back,
/// as the disk may change between calls.
pub struct DiskFiles;

impl FileExistence for DiskFiles {
    open spec fn answers(&self, path: Seq<char>, taken: bool) -> bool {
        true
    }

    fn is_taken(&self, path: &str) -> (r: bool) {
        path_exists(path)
    }
}

/// A fixed list of paths that are taken.
#[derive(Debug, Clone, PartialEq, Eq)]
pub struct KnownFiles {
    pub paths: Vec<String>,
}

impl KnownFiles {
    /// Whether `path` is one of the listed paths.
    pub open spec fn lists(&self, path: Seq<char>) -> bool {
        exists|i: int| 0 <= i < self.paths.len() && #[trigger] self.paths@[i]@ == path
    }
}

impl FileExistence for KnownFiles {
    open spec fn answers(&self, path: Seq<char>, taken: bool) -> bool {
        taken == self.lists(path)
    }

    fn is_taken(&self, path: &str) -> (r: bool) {
        for i in 0..self.paths.len()
            invariant
                forall|j: int| 0 <= j < i ==> #[trigger] self.paths@[j]@ != path@,
        {
            if str_equal(self.paths[i].as_str(), path) {
                assert(self.paths@[i as int]@ == path@);
                return true;
            }
        }
        false
    }
}

/// The numbered output path for number `n`.
pub open spec fn numbered_path(dir: Seq<char>, stem: Seq<char>, suffix: Seq<char>, n: nat) -> Seq<
    char,
> {
    path_join(dir, numbered_file_name(stem, suffix, n))
}

/// What a resolution in `dir` for `stem` and `suffix` under `policy` is, given
/// the answers of `check`: a free plain name is used; a taken one is written
/// over (`Overwrite`), skipped (`Skip`), or replaced by the least free numbered
/// name from 2 up (`Rename`), and where every number up to the last is taken,
/// the search gives up.
pub open spec fn resolved_by<E: FileExistence>(
    r: Result<OutputResolution, OutputError>,
    dir: Seq<char>,
    stem: Seq<char>,
    suffix: Seq<char>,
    policy: CollisionPolicy,
    check: &E,
) -> bool {
    let plain = path_join(dir, output_file_name(stem, suffix));
    match policy {
        CollisionPolicy::Overwrite => r matches Ok(OutputResolution::Path(p)) && p@ == plain,
        CollisionPolicy::Skip => {
            ||| r matches Ok(OutputResolution::Path(p)) && p@ == plain && check.answers(plain, false)
            ||| r matches Ok(OutputResolution::Skip) && check.answers(plain, true)
        },
        CollisionPolicy::Rename => {
            ||| r matches Ok(OutputResolution::Path(p)) && p@ == plain && check.answers(plain, false)
            ||| check.answers(plain, true) && exists|n: nat|
                {
                    &&& 2 <= n <= MAX_OUTPUT_NUMBER
                    &&& r matches Ok(OutputResolution::Path(p)) && p@ == #[trigger] numbered_path(
                        dir,
                        stem,
                        suffix,
                        n,
                    )
                    &&& check.answers(numbered_path(dir, stem, suffix, n), false)
                    &&& forall|k: nat|
                        2 <= k < n ==> check.answers(
                            #[trigger] numbered_path(dir, stem, suffix, k),
                            true,
                        )
                }
            ||| {
                &&& r == Err::<OutputResolution, OutputError>(OutputError::NoFreeName)
                &&& check.answers(plain, true)
                &&& forall|k: nat|
                    2 <= k <= MAX_OUTPUT_NUMBER ==> check.answers(
                        #[trigger] numbered_path(dir, stem, suffix, k),
                        true,
                    )
            }
        },
    }
}

/// Chooses the path of the converted file for `input`, asking `check` which
/// paths are taken: the stem of `input`, the suffix and `.mov`, in the
/// preferred directory, with the collision policy applied when that file is
/// taken.
pub fn resolve_output_path_with<E: FileExistence>(
    input: &str,
    preferences: &OutputPreferences,
    check: &E,
) -> (r: Result<OutputResolution, OutputError>)
    ensures
        path_file_stem(input@) is None ==> r == Err::<OutputResolution, OutputError>(
            OutputError::NoFileName,
        ),
        path_file_stem(input@) is Some && output_directory(input@, preferences.directory) is None
            ==> r == Err::<OutputResolution, OutputError>(OutputError::NoParentDirectory),
        path_file_stem(input@) is Some && output_directory(input@, preferences.directory) is Some
            ==> resolved_by(
            r,
            output_directory(input@, preferences.directory)->0,
            path_file_stem(input@)->0,
            preferences.suffix@,
            preferences.collision,
            check,
        ),
{
    let stem = match file_stem(input) {
        Some(stem) => stem,
        None => return Err(OutputError::NoFileName),
    };
    let directory = match &preferences.directory {
        OutputDirectory::SameAsSource => match parent(input) {
            Some(dir) => dir,
            None => return Err(OutputError::NoParentDirectory),
        },
        OutputDirectory::Subdirectory(name) => match parent(input) {
            Some(dir) => join(dir.as_str(), name.as_str()),
            None => return Err(OutputError::NoParentDirectory),
        },
        OutputDirectory::Custom(path) => owned(path.as_str()),
    };
    let ghost dir = directory@;
    assert(output_directory(input@, preferences.directory) == Some(dir));
    let name = output_name(stem.as_str(), preferences.suffix.as_str());
    let output = join(directory.as_str(), name.as_str());
    let taken = check.is_taken(output.as_str());
    match collision_action(preferences.collision, taken) {
        CollisionAction::UseName => Ok(OutputResolution::Path(output)),
        CollisionAction::SkipJob => Ok(OutputResolution::Skip),
        CollisionAction::FindNumbered => {
            let mut number: u32 = 2;
            loop
                invariant
                    2 <= number <= MAX_OUTPUT_NUMBER,
                    preferences.collision == CollisionPolicy::Rename,
                    directory@ == dir,
                    path_file_stem(input@) == Some(stem@),
                    output_directory(input@, preferences.directory) == Some(dir),
                    check.answers(path_join(dir, output_file_name(stem@, preferences.suffix@)), true),
                    forall|k: nat|
                        2 <= k < number ==> check.answers(
                            #[trigger] numbered_path(dir, stem@, preferences.suffix@, k),
                            true,
                        ),
                decreases MAX_OUTPUT_NUMBER - number,
            {
                let candidate_name = numbered_name(
                    stem.as_str(),
                    preferences.suffix.as_str(),
                    number,
                );
                let candidate = join(directory.as_str(), candidate_name.as_str());
                let ghost n = number as nat;
                assert(candidate@ == numbered_path(dir, stem@, preferences.suffix@, n));
                let candidate_taken = check.is_taken(candidate.as_str());
                match rename_step(number, candidate_taken) {
                    RenameStep::Take => {
                        return Ok(OutputResolution::Path(candidate));
                    },
                    RenameStep::GiveUp => {
                        assert forall|k: nat| 2 <= k <= MAX_OUTPUT_NUMBER implies check.answers(
                            #[trigger] numbered_path(dir, stem@, preferences.suffix@, k),
                            true,
                        ) by {
                            if k < number {
                            }
                        }
                        return Err(OutputError::NoFreeName);
                    },
                    RenameStep::TryNext => {
                        number = number + 1;
                    },
                }
            }
        },
    }
}

/// Chooses the path of the converted file for `input`, asking the file system
/// which paths exist (see `resolve_output_path_with`; what the disk answers is
/// not known here, so which of the allowed outcomes comes is not stated).
pub fn resolve_output_path(input: &str, preferences: &OutputPreferences) -> (r: Result<
    OutputResolution,
    OutputError,
>)
    ensures
        path_file_stem(input@) is None ==> r == Err::<OutputResolution, OutputError>(
            OutputError::NoFileName,
        ),
        path_file_stem(input@) is Some && output_directory(input@, preferences.directory) is None
            ==> r == Err::<OutputResolution, OutputError>(OutputError::NoParentDirectory),
        path_file_stem(input@) is Some && output_directory(input@, preferences.directory) is Some
            ==> resolved_by(
            r,
            output_directory(input@, preferences.directory)->0,
            path_file_stem(input@)->0,
            preferences.suffix@,
            preferences.collision,
            &DiskFiles,
        ),
{
    resolve_output_path_with(input, preferences, &DiskFiles)
}

/// With a fixed list of taken paths, a chosen path is never one of them unless
/// the policy is `Overwrite`.
pub proof fn lemma_known_files_never_reused(
    r: Result<OutputResolution, OutputError>,
    dir: Seq<char>,
    stem: Seq<char>,
    suffix: Seq<char>,
    policy: CollisionPolicy,
    files: KnownFiles,
)
    requires
        resolved_by(r, dir, stem, suffix, policy, &files),
        policy != CollisionPolicy::Overwrite,
    ensures
        r matches Ok(OutputResolution::Path(p)) ==> !files.lists(p@),
{
}

/// With a fixed list of taken paths, the resolution is determined: two
/// resolutions allowed for the same inputs are the same.
pub proof fn lemma_known_files_determined(
    r1: Result<OutputResolution, OutputError>,
    r2: Result<OutputResolution, OutputError>,
    dir: Seq<char>,
    stem: Seq<char>,
    suffix: Seq<char>,
    policy: CollisionPolicy,
    files: KnownFiles,
)
    requires
        resolved_by(r1, dir, stem, suffix, policy, &files),
        resolved_by(r2, dir, stem, suffix, policy, &files),
    ensures
        match (r1, r2) {
            (Ok(OutputResolution::Path(p1)), Ok(OutputResolution::Path(p2))) => p1@ == p2@,
            (Ok(OutputResolution::Path(_)), _) => false,
            (_, Ok(OutputResolution::Path(_))) => false,
            _ => r1 == r2,
        },
{
    let plain = path_join(dir, output_file_name(stem, suffix));
    if policy == CollisionPolicy::Rename && files.lists(plain) {
        if r1 is Ok && r2 is Ok {
            let n1 = choose|n: nat|
                {
                    &&& 2 <= n <= MAX_OUTPUT_NUMBER
                    &&& r1 matches Ok(OutputResolution::Path(p)) && p@
                        == #[trigger] numbered_path(dir, stem, suffix, n)
                    &&& files.answers(numbered_path(dir, stem, suffix, n), false)
                    &&& forall|k: nat|
                        2 <= k < n ==> files.answers(
                            #[trigger] numbered_path(dir, stem, suffix, k),
                            true,
                        )
                };
            let n2 = choose|n: nat|
                {
                    &&& 2 <= n <= MAX_OUTPUT_NUMBER
                    &&& r2 matches Ok(OutputResolution::Path(p)) && p@
                        == #[trigger] numbered_path(dir, stem, suffix, n)
                    &&& files.answers(numbered_path(dir, stem, suffix, n), false)
                    &&& forall|k: nat|
                        2 <= k < n ==> files.answers(
                            #[trigger] numbered_path(dir, stem, suffix, k),
                            true,
                        )
                };
            if n1 < n2 {
                assert(files.answers(numbered_path(dir, stem, suffix, n1), true));
            } else if n2 < n1 {
                assert(files.answers(numbered_path(dir, stem, suffix, n2), true));
            }
        } else if r1 is Ok && r2 is Err {
            let n1 = choose|n: nat|
                {
                    &&& 2 <= n <= MAX_OUTPUT_NUMBER
                    &&& r1 matches Ok(OutputResolution::Path(p)) && p@
                        == #[trigger] numbered_path(dir, stem, suffix, n)
                    &&& files.answers(numbered_path(dir, stem, suffix, n), false)
                };
            assert(files.answers(numbered_path(dir, stem, suffix, n1), true));
        } else if r2 is Ok && r1 is Err {
            let n2 = choose|n: nat|
                {
                    &&& 2 <= n <= MAX_OUTPUT_NUMBER
                    &&& r2 matches Ok(OutputResolution::Path(p)) && p@
                        == #[trigger] numbered_path(dir, stem, suffix, n)
                    &&& files.answers(numbered_path(dir, stem, suffix, n), false)
                };
            assert(files.answers(numbered_path(dir, stem, suffix, n2), true));
        }
    }
}

/// The output name is the stem, then the suffix, then `.mov`; numbered names
/// put `_` and the number's digits between the suffix and `.mov`, so they
/// differ from the plain name and from each other.
pub proof fn lemma_output_names(stem: Seq<char>, suffix: Seq<char>, m: nat, n: nat)
    ensures
        output_file_name(stem, suffix).subrange(0, stem.len() as int) == stem,
        output_file_name(stem, suffix).subrange(
            stem.len() as int,
            (stem.len() + suffix.len()) as int,
        ) == suffix,
        output_file_name(stem, suffix).subrange(
            (stem.len() + suffix.len()) as int,
            output_file_name(stem, suffix).len() as int,
        ) == ".mov"@,
        numbered_file_name(stem, suffix, m) != output_file_name(stem, suffix),
        numbered_file_name(stem, suffix, m) == numbered_file_name(stem, suffix, n) ==> m == n,
        numbered_file_name(stem, suffix, n).subrange(
            numbered_file_name(stem, suffix, n).len() - 4,
            numbered_file_name(stem, suffix, n).len() as int,
        ) == ".mov"@,
{
    reveal_strlit(".mov");
    reveal_strlit("_");
    let plain = output_file_name(stem, suffix);
    let k: int = (stem.len() + suffix.len()) as int;
    assert(plain.subrange(0, stem.len() as int) =~= stem);
    assert(plain.subrange(stem.len() as int, k) =~= suffix);
    assert(plain.subrange(k, plain.len() as int) =~= ".mov"@);
    let nm = numbered_file_name(stem, suffix, m);
    assert(nm[k] == '_');
    assert(plain[k] == '.');
    let nn = numbered_file_name(stem, suffix, n);
    assert(nn.subrange(nn.len() - 4, nn.len() as int) =~= ".mov"@);
    if nm == nn {
        assert(decimal(m).len() == decimal(n).len());
        assert(nm.subrange(k + 1, k + 1 + decimal(m).len()) =~= decimal(m));
        assert(nn.subrange(k + 1, k + 1 + decimal(n).len()) =~= decimal(n));
        lemma_decimal_injective(m, n);
    }
}

/// A free plain name is always used; a taken one is written over only under
/// `Overwrite`, skips the job only under `Skip`, and starts the numbered
/// search only under `Rename`.
pub proof fn lemma_collision_action(policy: CollisionPolicy, exists: bool)
    ensures
        !exists ==> collision_action_spec(policy, exists) == CollisionAction::UseName,
        exists ==> (collision_action_spec(policy, exists) == CollisionAction::UseName <==> policy
            == CollisionPolicy::Overwrite),
        collision_action_spec(policy, exists) == CollisionAction::SkipJob <==> exists && policy
            == CollisionPolicy::Skip,
        collision_action_spec(policy, exists) == CollisionAction::FindNumbered <==> exists
            && policy == CollisionPolicy::Rename,
{
}

/// A free candidate is taken; a taken one moves the search on, and the search
/// gives up only on a taken candidate with the last number.
pub proof fn lemma_rename_step(number: u32, exists: bool)
    ensures
        rename_step_spec(number, exists) == RenameStep::Take <==> !exists,
        rename_step_spec(number, exists) == RenameStep::GiveUp <==> exists && number
            == MAX_OUTPUT_NUMBER,
        rename_step_spec(number, exists) == RenameStep::TryNext <==> exists && number
            != MAX_OUTPUT_NUMBER,
{
}

/// A custom directory is used as it is; a subdirectory lies in the source's
/// directory, and exists exactly when that one does.
pub proof fn lemma_output_directory(input: Seq<char>, name: String, path: String)
    ensures
        output_directory(input, OutputDirectory::Custom(path)) == Some(path@),
        output_directory(input, OutputDirectory::SameAsSource) == path_parent(input),
        output_directory(input, OutputDirectory::Subdirectory(name)) is Some <==> path_parent(
            input,
        ) is Some,
        path_parent(input) matches Some(dir) ==> output_directory(
            input,
            OutputDirectory::Subdirectory(name),
        ) == Some(path_join(dir, name@)),
{
}

} // verus!
