//! Ending a session: what the user is told once the chunks are cleared.

use vstd::prelude::*;
use crate::text::prefixed;

verus! {

pub open spec fn termination_message(cancelled: bool, transcription_dir: Seq<char>) -> Seq<char> {
    if cancelled {
        "Fichiers temporaires supprimés.<br><br>Vous trouverez les éventuels fichiers texte de transcription déjà créés avant l'annulation dans le répertoire : <b>"@
            + transcription_dir + "</b>"@
    } else {
        "Fichiers temporaires supprimés.<br><br>Vous trouverez les fichiers texte de transcription dans le répertoire : <b>"@
            + transcription_dir + "</b>"@
    }
}

/// The message shown once the chunks are cleared, pointing to where the
/// transcripts are; after a cancellation it speaks of those already made.
pub fn termination_message_for(cancelled: bool, transcription_dir: &str) -> (r: String)
    ensures
        r@ == termination_message(cancelled, transcription_dir@),
{
    let mut r = if cancelled {
        prefixed(
            "Fichiers temporaires supprimés.<br><br>Vous trouverez les éventuels fichiers texte de transcription déjà créés avant l'annulation dans le répertoire : <b>",
            transcription_dir,
        )
    } else {
        prefixed(
            "Fichiers temporaires supprimés.<br><br>Vous trouverez les fichiers texte de transcription dans le répertoire : <b>",
            transcription_dir,
        )
    };
    r.append("</b>");
    r
}

/// The answer to ending a session, given how clearing the chunks went.
pub fn terminate_result(cleared: Result<(), String>, cancelled: bool, transcription_dir: &str) -> (r:
    Result<String, String>)
    ensures
        cleared is Ok <==> r is Ok,
        r matches Ok(m) ==> m@ == termination_message(cancelled, transcription_dir@),
        r matches Err(e) ==> e@ == "Error clearing chunks: "@ + cleared->Err_0@,
{
    match cleared {
        Ok(()) => Ok(termination_message_for(cancelled, transcription_dir)),
        Err(e) => Err(prefixed("Error clearing chunks: ", e.as_str())),
    }
}

} // verus!
