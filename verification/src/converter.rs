//! The PCM conversion: where it writes and how `ffmpeg` is called.
use vstd::prelude::*;
use crate::output::OutputError;
use crate::paths::{file_stem, with_file_name, path_file_stem, path_with_file_name};
use crate::text::{owned, append_str, string_views};

verus! {

/// The file that the PCM conversion of `input` writes: `input` with its file
/// name replaced by its stem and `_codecbridge.mov`; none where `input` has no
/// file name.
pub open spec fn pcm_output_of(input: Seq<char>) -> Option<Seq<char>> {
    match path_file_stem(input) {
        Some(stem) => Some(path_with_file_name(input, stem + "_codecbridge.mov"@)),
        None => None,
    }
}

/// The path that the PCM conversion of `input` writes.
pub fn pcm_output_path(input: &str) -> (r: Result<String, OutputError>)
    ensures
        pcm_output_of(input@) is None ==> r == Err::<String, OutputError>(OutputError::NoFileName),
        pcm_output_of(input@) matches Some(path) ==> r matches Ok(p) && p@ == path,
{
    let stem = match file_stem(input) {
        Some(stem) => stem,
        None => return Err(OutputError::NoFileName),
    };
    let mut name = owned(stem.as_str());
    append_str(&mut name, "_codecbridge.mov");
    Ok(with_file_name(input, name.as_str()))
}

/// The `ffmpeg` arguments of the PCM conversion from `input` to `output`, which
/// copies the video and re-encodes the audio as 24-bit PCM (led by `-y` where
/// an existing output is to be overwritten).
pub open spec fn pcm_args_spec(input: Seq<char>, output: Seq<char>, overwrite: bool) -> Seq<
    Seq<char>,
> {
    let args = seq![
        "-i"@,
        input,
        "-map"@,
        "0:v?"@,
        "-map"@,
        "0:a?"@,
        "-c:v"@,
        "copy"@,
        "-c:a"@,
        "pcm_s24le"@,
        output,
    ];
    if overwrite {
        seq!["-y"@] + args
    } else {
        args
    }
}

/// The `ffmpeg` arguments of the PCM conversion.
pub fn pcm_conversion_args(input: &str, output: &str, overwrite: bool) -> (r: Vec<String>)
    ensures
        string_views(r@) == pcm_args_spec(input@, output@, overwrite),
{
    let mut r: Vec<String> = Vec::new();
    if overwrite {
        r.push(owned("-y"));
    }
    r.push(owned("-i"));
    r.push(owned(input));
    r.push(owned("-map"));
    r.push(owned("0:v?"));
    r.push(owned("-map"));
    r.push(owned("0:a?"));
    r.push(owned("-c:v"));
    r.push(owned("copy"));
    r.push(owned("-c:a"));
    r.push(owned("pcm_s24le"));
    r.push(owned(output));
    assert(string_views(r@) =~= pcm_args_spec(input@, output@, overwrite));
    r
}

/// Whether `args` holds `flag` directly followed by `value`.
pub open spec fn has_option(args: Seq<Seq<char>>, flag: Seq<char>, value: Seq<char>) -> bool {
    exists|k: int| 0 <= k && k + 1 < args.len() && #[trigger] args[k] == flag && args[k + 1] == value
}

/// Whatever the overwrite flag: the input follows `-i`, both the video and the
/// audio streams are mapped, video is copied, audio is encoded as 24-bit PCM,
/// and the output comes last. Overwriting adds exactly a leading `-y`.
pub proof fn lemma_pcm_args(input: Seq<char>, output: Seq<char>, overwrite: bool)
    ensures
        has_option(pcm_args_spec(input, output, overwrite), "-i"@, input),
        has_option(pcm_args_spec(input, output, overwrite), "-map"@, "0:v?"@),
        has_option(pcm_args_spec(input, output, overwrite), "-map"@, "0:a?"@),
        has_option(pcm_args_spec(input, output, overwrite), "-c:v"@, "copy"@),
        has_option(pcm_args_spec(input, output, overwrite), "-c:a"@, "pcm_s24le"@),
        pcm_args_spec(input, output, overwrite).last() == output,
        pcm_args_spec(input, output, true) == seq!["-y"@] + pcm_args_spec(input, output, false),
        pcm_args_spec(input, output, false).len() == 11,
{
    let a = pcm_args_spec(input, output, overwrite);
    let o: int = if overwrite {
        1
    } else {
        0
    };
    assert(a[o] == "-i"@ && a[o + 1] == input);
    assert(a[o + 2] == "-map"@ && a[o + 3] == "0:v?"@);
    assert(a[o + 4] == "-map"@ && a[o + 5] == "0:a?"@);
    assert(a[o + 6] == "-c:v"@ && a[o + 7] == "copy"@);
    assert(a[o + 8] == "-c:a"@ && a[o + 9] == "pcm_s24le"@);
}

/// The PCM copy of a file lies beside it, named by the file's stem followed
/// by `_codecbridge.mov`; there is none only for a path without a file stem.
pub proof fn lemma_pcm_output(input: Seq<char>)
    ensures
        pcm_output_of(input) is Some <==> path_file_stem(input) is Some,
        path_file_stem(input) matches Some(stem) ==> pcm_output_of(input) == Some(
            path_with_file_name(input, stem + "_codecbridge.mov"@),
        ),
{
}

} // verus!
