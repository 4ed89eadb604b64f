//! The life of one chunk's transcription, from submission to a transcript
//! file or a failure that names the chunk.

use vstd::prelude::*;
use crate::split::is_infix;
use crate::text::prefixed;
use crate::workdir::{join_path, joined};

verus! {

/// Relies on `std::path::Path::file_name`: the last component of a path,
/// if there is one. It is a slice of the path; an empty path and `..` have
/// none.
#[verifier::external_body]
fn file_name_of(path: &str) -> (r: Option<String>)
    ensures
        r matches Some(n) ==> is_infix(n@, path@),
        path@.len() == 0 ==> r is None,
        path@ == seq!['.', '.'] ==> r is None,
{
    std::path::Path::new(path).file_name().map(|n| n.to_string_lossy().into_owned())
}

/// The default language of a transcription.
pub const DEFAULT_LANGUAGE: &'static str = "fr";

pub open spec fn ends_with(s: Seq<char>, suffix: Seq<char>) -> bool {
    suffix.len() <= s.len() && s.skip(s.len() - suffix.len()) == suffix
}

pub open spec fn json_ext() -> Seq<char> {
    seq!['.', 'j', 's', 'o', 'n']
}

pub open spec fn wav_ext() -> Seq<char> {
    seq!['.', 'w', 'a', 'v']
}

pub open spec fn mp3_ext() -> Seq<char> {
    seq!['.', 'm', 'p', '3']
}

/// A file name without its trailing intermediate extensions: `.json`,
/// `.wav` and `.mp3` are removed from the end for as long as one is there.
pub open spec fn transcript_base(name: Seq<char>) -> Seq<char>
    decreases name.len(),
{
    if ends_with(name, json_ext()) {
        transcript_base(name.take(name.len() - 5))
    } else if ends_with(name, wav_ext()) {
        transcript_base(name.take(name.len() - 4))
    } else if ends_with(name, mp3_ext()) {
        transcript_base(name.take(name.len() - 4))
    } else {
        name
    }
}

/// Whether the first `end` characters of `v` end with `suffix`.
fn ends_with_at(v: &Vec<char>, end: usize, suffix: &Vec<char>) -> (r: bool)
    requires
        end <= v.len(),
    ensures
        r == ends_with(v@.take(end as int), suffix@),
{
    if suffix.len() > end {
        return false;
    }
    let start = end - suffix.len();
    let ghost t = v@.take(end as int);
    for k in 0..suffix.len()
        invariant
            start + suffix.len() == end,
            end <= v.len(),
            t == v@.take(end as int),
            forall|j: int| 0 <= j < k ==> v@[start + j] == suffix@[j],
    {
        if v[start + k] != suffix[k] {
            assert(t.skip(start as int)[k as int] != suffix@[k as int]);
            return false;
        }
    }
    assert(t.skip(start as int) =~= suffix@);
    true
}

/// The transcript of the raw artifact named `file_name`, inside
/// `transcription_dir`: its base name followed by `.txt`.
pub fn transcript_path_for(transcription_dir: &str, file_name: &str) -> (r: String)
    ensures
        r@ == joined(transcription_dir@, transcript_base(file_name@) + ".txt"@),
{
    let mut v: Vec<char> = Vec::new();
    for c in it: file_name.chars()
        invariant
            it.seq() == file_name@,
            v@ == file_name@.take(it.index() as int),
    {
        v.push(c);
        assert(v@ =~= file_name@.take(it.index() + 1));
    }
    assert(v@ =~= file_name@);
    assert(v@.take(v.len() as int) =~= v@);
    let json = vec!['.', 'j', 's', 'o', 'n'];
    let wav = vec!['.', 'w', 'a', 'v'];
    let mp3 = vec!['.', 'm', 'p', '3'];
    assert(json@ =~= json_ext() && wav@ =~= wav_ext() && mp3@ =~= mp3_ext());
    let mut end: usize = v.len();
    loop
        invariant
            end <= v.len(),
            json@ == json_ext(),
            wav@ == wav_ext(),
            mp3@ == mp3_ext(),
            transcript_base(v@.take(end as int)) == transcript_base(file_name@),
        ensures
            transcript_base(file_name@) == v@.take(end as int),
        decreases end,
    {
        let ghost t = v@.take(end as int);
        if ends_with_at(&v, end, &json) {
            end = end - 5;
        } else if ends_with_at(&v, end, &wav) {
            end = end - 4;
        } else if ends_with_at(&v, end, &mp3) {
            end = end - 4;
        } else {
            break;
        }
        assert(t.take(end as int) =~= v@.take(end as int));
    }
    let mut base = String::new();
    for k in 0..end
        invariant
            end <= v.len(),
            base@ == v@.take(k as int),
    {
        base.push(v[k]);
        assert(base@ =~= v@.take(k + 1));
    }
    base.append(".txt");
    join_path(transcription_dir, base.as_str())
}

/// The transcript path for the raw artifact at `artifact_path`, named after
/// its file name; an error when that path has no file name.
pub fn transcript_path(transcription_dir: &str, artifact_path: &str) -> (r: Result<String, String>)
    ensures
        r matches Ok(p) ==> exists|n: Seq<char>|
            is_infix(n, artifact_path@) && p@ == joined(
                transcription_dir@,
                #[trigger] transcript_base(n) + ".txt"@,
            ),
        artifact_path@.len() == 0 ==> r is Err,
        artifact_path@ == seq!['.', '.'] ==> r is Err,
        r matches Err(e) ==> e@ == "No file name in: "@ + artifact_path@,
{
    match file_name_of(artifact_path) {
        Some(name) => Ok(transcript_path_for(transcription_dir, name.as_str())),
        None => Err(prefixed("No file name in: ", artifact_path)),
    }
}

/// One chunk to transcribe, with everything its calls are given.
pub struct TranscriptionJob {
    pub chunk_path: String,
    /// Where the transcription service writes its raw result.
    pub artifact_path: String,
    pub language: String,
    pub label: Option<String>,
    /// Pause before the call to the service, in milliseconds; 0 for none.
    pub delay_ms: u64,
}

/// Prepares the transcription of the chunk at `path`: the raw result goes
/// to `path` followed by `.json`, and the language is `fr` unless given.
pub fn plan_transcription(
    path: String,
    language: Option<String>,
    label: Option<String>,
    delay_ms: u64,
) -> (j: TranscriptionJob)
    ensures
        j.chunk_path == path,
        j.artifact_path@ == path@ + ".json"@,
        j.language@ == (match language {
            Some(l) => l@,
            None => DEFAULT_LANGUAGE@,
        }),
        j.label == label,
        j.delay_ms == delay_ms,
{
    let artifact_path = prefixed(path.as_str(), ".json");
    let language = match language {
        Some(l) => l,
        None => DEFAULT_LANGUAGE.to_string(),
    };
    TranscriptionJob { chunk_path: path, artifact_path, language, label, delay_ms }
}

/// The step of a chunk's pipeline that failed.
#[derive(Clone, Copy, Debug, PartialEq, Eq, Structural)]
pub enum FailedStage {
    Transcription,
    Formatting,
}

/// A failure of one chunk, naming that chunk.
pub struct TranscriptionError {
    pub chunk_path: String,
    pub stage: FailedStage,
    pub detail: String,
}

pub open spec fn error_message(e: TranscriptionError) -> Seq<char> {
    match e.stage {
        FailedStage::Transcription => "Error during transcription: "@ + e.detail@ + " for "@
            + e.chunk_path@,
        FailedStage::Formatting => "Error during formatting: "@ + e.detail@ + " for "@
            + e.chunk_path@,
    }
}

impl TranscriptionError {
    /// The failure as a message for the user.
    pub fn message(&self) -> (r: String)
        ensures
            r@ == error_message(*self),
    {
        let mut r = match self.stage {
            FailedStage::Transcription => prefixed(
                "Error during transcription: ",
                self.detail.as_str(),
            ),
            FailedStage::Formatting => prefixed("Error during formatting: ", self.detail.as_str()),
        };
        r.append(" for ");
        r.append(self.chunk_path.as_str());
        r
    }
}

/// Where a chunk stands.
pub enum ChunkState {
    Pending,
    /// Waiting out the pause before the call.
    Delayed,
    /// The transcription service is working on it.
    InFlight,
    /// The raw result is being turned into a transcript.
    Formatting,
    /// Done: the transcript's path.
    Formatted(String),
    Failed(TranscriptionError),
}

/// What happened to a chunk since its last step.
pub enum ChunkEvent {
    Submitted,
    DelayElapsed,
    /// The service finished, or failed with this message.
    Transcribed(Result<(), String>),
    /// The transcript was written at this path, or formatting failed.
    FormatDone(Result<String, String>),
}

/// What the runner does next for a chunk.
pub enum ChunkAction {
    /// Pause this many milliseconds, then report `DelayElapsed`.
    Wait(u64),
    /// Transcribe `source` into `artifact`, in `language`.
    Transcribe { source: String, artifact: String, language: String },
    /// Turn the raw result at `artifact` into a transcript.
    Format { artifact: String, label: Option<String> },
    /// Nothing more: the chunk is done, or the event did not apply.
    Stop,
}

pub open spec fn is_final(s: ChunkState) -> bool {
    s is Formatted || s is Failed
}

pub open spec fn transcribe_action(j: TranscriptionJob) -> ChunkAction {
    ChunkAction::Transcribe {
        source: j.chunk_path,
        artifact: j.artifact_path,
        language: j.language,
    }
}

/// The next state of a chunk, and what to do, on an event: the pause comes
/// first when there is one, then the call, then formatting; a failed call
/// or a failed formatting ends in a failure that names the chunk.
pub fn step(job: &TranscriptionJob, state: ChunkState, event: ChunkEvent) -> (r: (
    ChunkState,
    ChunkAction,
))
    ensures
        (state is Pending && event is Submitted && job.delay_ms > 0) ==> (r.0 is Delayed
            && r.1 == ChunkAction::Wait(job.delay_ms)),
        (state is Pending && event is Submitted && job.delay_ms == 0) ==> (r.0 is InFlight
            && r.1 == transcribe_action(*job)),
        (state is Delayed && event is DelayElapsed) ==> (r.0 is InFlight && r.1
            == transcribe_action(*job)),
        (state is InFlight && event matches ChunkEvent::Transcribed(Ok(()))) ==> (r.0 is Formatting
            && r.1 == (ChunkAction::Format { artifact: job.artifact_path, label: job.label })),
        state is InFlight ==> (event matches ChunkEvent::Transcribed(Err(e)) ==> r.0 == (
        ChunkState::Failed(
            TranscriptionError {
                chunk_path: job.chunk_path,
                stage: FailedStage::Transcription,
                detail: e,
            },
        )) && r.1 is Stop),
        state is Formatting ==> (event matches ChunkEvent::FormatDone(Ok(p)) ==> r.0
            == ChunkState::Formatted(p) && r.1 is Stop),
        state is Formatting ==> (event matches ChunkEvent::FormatDone(Err(e)) ==> r.0 == (
        ChunkState::Failed(
            TranscriptionError {
                chunk_path: job.chunk_path,
                stage: FailedStage::Formatting,
                detail: e,
            },
        )) && r.1 is Stop),
        !(state is Pending && event is Submitted) && !(state is Delayed && event is DelayElapsed)
            && !(state is InFlight && event is Transcribed) && !(state is Formatting
            && event is FormatDone) ==> r.0 == state && r.1 is Stop,
{
    match (state, event) {
        (ChunkState::Pending, ChunkEvent::Submitted) => {
            if job.delay_ms > 0 {
                (ChunkState::Delayed, ChunkAction::Wait(job.delay_ms))
            } else {
                (ChunkState::InFlight, transcribe(job))
            }
        },
        (ChunkState::Delayed, ChunkEvent::DelayElapsed) => (ChunkState::InFlight, transcribe(job)),
        (ChunkState::InFlight, ChunkEvent::Transcribed(Ok(()))) => (
            ChunkState::Formatting,
            ChunkAction::Format { artifact: job.artifact_path.clone(), label: job.label.clone() },
        ),
        (ChunkState::InFlight, ChunkEvent::Transcribed(Err(e))) => (
            ChunkState::Failed(
                TranscriptionError {
                    chunk_path: job.chunk_path.clone(),
                    stage: FailedStage::Transcription,
                    detail: e,
                },
            ),
            ChunkAction::Stop,
        ),
        (ChunkState::Formatting, ChunkEvent::FormatDone(Ok(p))) => (
            ChunkState::Formatted(p),
            ChunkAction::Stop,
        ),
        (ChunkState::Formatting, ChunkEvent::FormatDone(Err(e))) => (
            ChunkState::Failed(
                TranscriptionError {
                    chunk_path: job.chunk_path.clone(),
                    stage: FailedStage::Formatting,
                    detail: e,
                },
            ),
            ChunkAction::Stop,
        ),
        (s, _) => (s, ChunkAction::Stop),
    }
}

fn transcribe(job: &TranscriptionJob) -> (a: ChunkAction)
    ensures
        a == transcribe_action(*job),
{
    ChunkAction::Transcribe {
        source: job.chunk_path.clone(),
        artifact: job.artifact_path.clone(),
        language: job.language.clone(),
    }
}

/// The outcome of a chunk that has reached its end: the transcript's path,
/// or the failure's message; `None` while it is under way.
pub fn outcome(state: &ChunkState) -> (r: Option<Result<String, String>>)
    ensures
        r is Some <==> is_final(*state),
        state matches ChunkState::Formatted(p) ==> r == Some(Ok::<String, String>(*p)),
        state matches ChunkState::Failed(e) ==> (r matches Some(Err(m)) && m@ == error_message(
            *e,
        )),
{
    match state {
        ChunkState::Formatted(p) => Some(Ok(p.clone())),
        ChunkState::Failed(e) => Some(Err(e.message())),
        _ => None,
    }
}

} // verus!
