//! Chunking, naming and transcript assembly for a long-recording
//! transcription pipeline.

pub mod assemble;
pub mod sanitize;
pub mod session;
pub mod split;
pub mod text;
pub mod transcribe;
pub mod workdir;

pub use assemble::assemble_transcript;
pub use sanitize::{sanitize_filename, sanitize_filename_with};
pub use session::{terminate_result, termination_message_for};
pub use split::{
    detect_audio_kind, finish_split, kind_for_extension, kind_for_lowered_extension, plan_split,
    AudioKind, SplitPlan,
};
pub use transcribe::{
    outcome, plan_transcription, step, transcript_path, transcript_path_for, ChunkAction,
    ChunkEvent, ChunkState, FailedStage, TranscriptionError, TranscriptionJob,
};
pub use workdir::{
    clear_action, clear_result, get_chunk_directory, get_keypath, join_path,
    transcription_directory_in, ClearAction,
};
