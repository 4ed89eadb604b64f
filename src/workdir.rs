//! Where chunks, transcripts and the key file live, and how the chunk
//! directory is cleared.

use vstd::prelude::*;
use crate::sanitize::is_path_separator;
use crate::text::prefixed;

verus! {

/// Name of the scratch directory for chunks, under the download directory.
pub const CHUNK_DIRECTORY: &'static str = "audio_chunks";

/// Name of the transcript directory, under the documents directory.
pub const TRANSCRIPTION_DIRECTORY: &'static str = "transcriptions_albertine";

/// Name of the encrypted API key file, under the download directory.
pub const KEY_FILE: &'static str = "albertine.key";

/// `name` placed inside the directory `base`.
pub open spec fn joined(base: Seq<char>, name: Seq<char>) -> Seq<char> {
    if base.len() == 0 {
        name
    } else if is_path_separator(base.last()) {
        base + name
    } else {
        base + seq!['/'] + name
    }
}

/// The path of `name` inside the directory `base`.
pub fn join_path(base: &str, name: &str) -> (r: String)
    ensures
        r@ == joined(base@, name@),
{
    let mut r = String::new();
    let mut last: Option<char> = None;
    for c in it: base.chars()
        invariant
            it.seq() == base@,
            r@ == base@.take(it.index() as int),
            it.index() == 0 ==> last is None,
            it.index() > 0 ==> last == Some(base@[it.index() - 1]),
    {
        r.push(c);
        last = Some(c);
        assert(r@ =~= base@.take(it.index() + 1));
    }
    assert(base@.take(base@.len() as int) =~= base@);
    match last {
        None => {
            r.append(name);
        },
        Some(c) => {
            if !(c == '/' || c == '\\') {
                r.push('/');
            }
            r.append(name);
        },
    }
    assert(r@ =~= joined(base@, name@));
    r
}

/// `name` inside `parent`, or the error `missing` when there is no parent.
pub fn child_of(parent: &Option<String>, name: &str, missing: &str) -> (r: Result<String, String>)
    ensures
        parent is Some <==> r is Ok,
        r matches Ok(p) ==> p@ == joined(parent->0@, name@),
        r matches Err(e) ==> e@ == missing@,
{
    match parent {
        Some(dir) => Ok(join_path(dir.as_str(), name)),
        None => Err(missing.to_string()),
    }
}

/// The chunk directory, `audio_chunks` inside the user's download
/// directory `download_dir`; an error when there is none.
pub fn get_chunk_directory(download_dir: &Option<String>) -> (r: Result<String, String>)
    ensures
        download_dir is Some <==> r is Ok,
        r matches Ok(p) ==> p@ == joined(download_dir->0@, CHUNK_DIRECTORY@),
        r matches Err(e) ==> e@ == "Dowload directory not found"@,
{
    child_of(download_dir, CHUNK_DIRECTORY, "Dowload directory not found")
}

/// The encrypted API key file, `albertine.key` inside the user's download
/// directory `download_dir`; an error when there is none.
pub fn get_keypath(download_dir: &Option<String>) -> (r: Result<String, String>)
    ensures
        download_dir is Some <==> r is Ok,
        r matches Ok(p) ==> p@ == joined(download_dir->0@, KEY_FILE@),
        r matches Err(e) ==> e@ == "Dowload directory not found"@,
{
    child_of(download_dir, KEY_FILE, "Dowload directory not found")
}

/// The transcript directory, `transcriptions_albertine` inside the user's
/// documents directory `document_dir`; an error when there is none.
pub fn transcription_directory_in(document_dir: &Option<String>) -> (r: Result<String, String>)
    ensures
        document_dir is Some <==> r is Ok,
        r matches Ok(p) ==> p@ == joined(document_dir->0@, TRANSCRIPTION_DIRECTORY@),
        r matches Err(e) ==> e@ == "Documents directory not found"@,
{
    child_of(document_dir, TRANSCRIPTION_DIRECTORY, "Documents directory not found")
}

/// What clearing the chunk directory has to do.
pub enum ClearAction {
    /// The directory does not exist: nothing is removed and nothing created.
    Nothing,
    /// Remove the directory at this path with everything in it.
    RemoveAll(String),
}

/// Decides how to clear the chunk directory `chunk_dir`, given whether it
/// exists.
pub fn clear_action(chunk_dir: String, exists: bool) -> (a: ClearAction)
    ensures
        !exists <==> a is Nothing,
        a matches ClearAction::RemoveAll(p) ==> p@ == chunk_dir@,
{
    if exists {
        ClearAction::RemoveAll(chunk_dir)
    } else {
        ClearAction::Nothing
    }
}

/// The result of clearing, given what removing the directory gave.
pub fn clear_result(removal: Result<(), String>) -> (r: Result<(), String>)
    ensures
        removal is Ok <==> r is Ok,
        r matches Err(e) ==> e@ == "Error clearing chunks: "@ + removal->Err_0@,
{
    match removal {
        Ok(()) => Ok(()),
        Err(e) => Err(prefixed("Error clearing chunks: ", e.as_str())),
    }
}

} // verus!
