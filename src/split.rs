//! Choosing a splitting backend for an audio file and handling what it
//! hands back.

use vstd::prelude::*;
use crate::sanitize::{sanitize_filename, sanitized};
use crate::text::prefixed;
use crate::workdir::joined;

verus! {

/// What `str::to_lowercase` returns for a string.
pub uninterp spec fn lowercase_of(s: Seq<char>) -> Seq<char>;

/// Relies on `str::to_lowercase`: the lowercase form of a string, which
/// depends on its characters alone.
pub assume_specification[ str::to_lowercase ](s: &str) -> (r: String)
    ensures
        r@ == lowercase_of(s@),
;

/// `part` occurs in `s` as a run of neighbouring characters.
pub open spec fn is_infix(part: Seq<char>, s: Seq<char>) -> bool {
    exists|i: int| 0 <= i && i + part.len() <= s.len() && #[trigger] s.subrange(i, i + part.len()) == part
}

pub open spec fn has_dot(s: Seq<char>) -> bool {
    exists|i: int| 0 <= i < s.len() && s[i] == '.'
}

/// Relies on `std::path::Path::extension`: the part of the file name after
/// its last `.`, if it has one. That part is a slice of the path, and a path
/// without any `.` has none.
#[verifier::external_body]
fn path_extension(path: &str) -> (r: Option<String>)
    ensures
        r matches Some(e) ==> is_infix(e@, path@),
        !has_dot(path@) ==> r is None,
{
    std::path::Path::new(path).extension().map(|e| e.to_string_lossy().into_owned())
}

/// The splitting backend that handles an audio file.
#[derive(Clone, Copy, Debug, PartialEq, Eq, Structural)]
pub enum AudioKind {
    Mp3,
    /// Also the fallback for any extension other than `mp3`, and for none.
    Wav,
}

pub open spec fn mp3_extension() -> Seq<char> {
    seq!['m', 'p', '3']
}

/// `s` without one leading `.`.
pub open spec fn without_leading_dot(s: Seq<char>) -> Seq<char> {
    if s.len() > 0 && s[0] == '.' {
        s.skip(1)
    } else {
        s
    }
}

/// The backend for an already lowercased extension.
pub open spec fn kind_for_lowered(e: Seq<char>) -> AudioKind {
    if without_leading_dot(e) == mp3_extension() {
        AudioKind::Mp3
    } else {
        AudioKind::Wav
    }
}

/// The backend for an extension that is already lowercase; a leading `.`
/// is ignored.
pub fn kind_for_lowered_extension(ext: &str) -> (r: AudioKind)
    ensures
        r == kind_for_lowered(ext@),
{
    let mut v: Vec<char> = Vec::new();
    for c in it: ext.chars()
        invariant
            it.seq() == ext@,
            v@ == ext@.take(it.index() as int),
    {
        v.push(c);
        assert(v@ =~= ext@.take(it.index() + 1));
    }
    assert(v@ =~= ext@);
    let start: usize = if v.len() > 0 && v[0] == '.' { 1 } else { 0 };
    let ghost rest = without_leading_dot(ext@);
    assert(rest =~= v@.skip(start as int));
    if v.len() - start == 3 && v[start] == 'm' && v[start + 1] == 'p' && v[start + 2] == '3' {
        assert(rest =~= mp3_extension());
        AudioKind::Mp3
    } else {
        assert(rest != mp3_extension()) by {
            if rest == mp3_extension() {
                assert(rest[0] == 'm' && rest[1] == 'p' && rest[2] == '3');
            }
        }
        AudioKind::Wav
    }
}

/// The backend for a file extension, compared without regard to case.
pub fn kind_for_extension(ext: &str) -> (r: AudioKind)
    ensures
        r == kind_for_lowered(lowercase_of(ext@)),
{
    let lowered = ext.to_lowercase();
    kind_for_lowered_extension(lowered.as_str())
}

/// The backend for the file at `file_path`, chosen by its extension: `mp3`
/// in any case selects the MP3 backend, anything else the WAV backend.
pub fn detect_audio_kind(file_path: &str) -> (r: AudioKind)
    ensures
        !has_dot(file_path@) ==> r == AudioKind::Wav,
        r == AudioKind::Mp3 ==> exists|e: Seq<char>|
            is_infix(e, file_path@) && #[trigger] kind_for_lowered(lowercase_of(e)) == AudioKind::Mp3,
{
    match path_extension(file_path) {
        Some(e) => kind_for_extension(e.as_str()),
        None => AudioKind::Wav,
    }
}

/// Everything a splitting backend is given for one source file.
pub struct SplitPlan {
    pub kind: AudioKind,
    pub input_path: String,
    pub chunk_minutes: u64,
    pub output_dir: String,
    /// The sanitized session label, the prefix of every chunk's name.
    pub prefix: String,
}

/// Plans the split of `file_path` into chunks of `split_duration_minutes`
/// minutes, written to `output_dir` under the sanitized `session_name`.
pub fn plan_split(
    file_path: &str,
    split_duration_minutes: u64,
    session_name: &str,
    output_dir: String,
) -> (p: SplitPlan)
    ensures
        p.prefix@ == sanitized(session_name@),
        p.input_path@ == file_path@,
        p.chunk_minutes == split_duration_minutes,
        p.output_dir == output_dir,
        !has_dot(file_path@) ==> p.kind == AudioKind::Wav,
        p.kind == AudioKind::Mp3 ==> exists|e: Seq<char>|
            is_infix(e, file_path@) && #[trigger] kind_for_lowered(lowercase_of(e)) == AudioKind::Mp3,
{
    let prefix = sanitize_filename(session_name);
    let kind = detect_audio_kind(file_path);
    SplitPlan {
        kind,
        input_path: file_path.to_string(),
        chunk_minutes: split_duration_minutes,
        output_dir,
        prefix,
    }
}

/// `r` is what a split answers when the backend returned `outcome`.
pub open spec fn finished_split(outcome: Result<Vec<String>, String>, r: Result<Vec<String>, String>) -> bool {
    &&& outcome is Ok <==> r is Ok
    &&& r matches Ok(paths) ==> paths@ == outcome->Ok_0@
    &&& r matches Err(e) ==> e@ == "Error splitting audio file: "@ + outcome->Err_0@
}

/// The result of a split, given what the backend returned: its chunk paths
/// in the order it gave them, or its error under a message of the split.
pub fn finish_split(outcome: Result<Vec<String>, String>) -> (r: Result<Vec<String>, String>)
    ensures
        finished_split(outcome, r),
{
    match outcome {
        Ok(paths) => Ok(paths),
        Err(e) => Err(prefixed("Error splitting audio file: ", e.as_str())),
    }
}

/// Every path starts with `prefix` placed inside `dir`.
pub open spec fn all_named_in(paths: Seq<String>, dir: Seq<char>, prefix: Seq<char>) -> bool {
    forall|i: int| 0 <= i < paths.len() ==> (#[trigger] paths[i])@.take(
        joined(dir, prefix).len() as int,
    ) == joined(dir, prefix)
}

/// A split hands back exactly the chunks the backend reported, as many and
/// in the same order; when the backend wrote each of them in the chunk
/// directory under a name that starts with the sanitized session label,
/// every path returned lies there under that label.
pub proof fn lemma_split_keeps_chunks(
    plan: SplitPlan,
    outcome: Result<Vec<String>, String>,
    r: Result<Vec<String>, String>,
)
    requires
        finished_split(outcome, r),
        outcome matches Ok(v) ==> all_named_in(v@, plan.output_dir@, plan.prefix@),
    ensures
        r matches Ok(v) ==> v@.len() == outcome->Ok_0@.len() && (forall|i: int|
            0 <= i < v@.len() ==> v@[i] == outcome->Ok_0@[i]) && all_named_in(
            v@,
            plan.output_dir@,
            plan.prefix@,
        ),
{
}

} // verus!
