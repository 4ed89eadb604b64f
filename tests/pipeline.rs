use albertine::{
    assemble_transcript, clear_action, clear_result, detect_audio_kind, finish_split,
    get_chunk_directory, get_keypath, join_path, kind_for_extension,
    kind_for_lowered_extension, outcome, plan_split, plan_transcription, step,
    terminate_result, transcript_path, transcript_path_for, transcription_directory_in,
    AudioKind, ChunkAction, ChunkEvent, ChunkState, ClearAction, FailedStage,
};

#[test]
fn extension_mixed_case_selects_mp3() {
    assert_eq!(detect_audio_kind("/music/Talk.MP3"), AudioKind::Mp3);
    assert_eq!(detect_audio_kind("talk.Mp3"), AudioKind::Mp3);
    assert_eq!(kind_for_extension("MP3"), AudioKind::Mp3);
    assert_eq!(kind_for_extension(".mP3"), AudioKind::Mp3);
}

#[test]
fn no_or_other_extension_selects_wav() {
    assert_eq!(detect_audio_kind("/music/talk"), AudioKind::Wav);
    assert_eq!(detect_audio_kind("talk.wav"), AudioKind::Wav);
    assert_eq!(detect_audio_kind("talk.flac"), AudioKind::Wav);
    assert_eq!(detect_audio_kind("talk.mp3.bak"), AudioKind::Wav);
    assert_eq!(kind_for_extension(""), AudioKind::Wav);
}

#[test]
fn lowered_extension_is_case_sensitive() {
    assert_eq!(kind_for_lowered_extension("mp3"), AudioKind::Mp3);
    assert_eq!(kind_for_lowered_extension(".mp3"), AudioKind::Mp3);
    assert_eq!(kind_for_lowered_extension("MP3"), AudioKind::Wav);
    assert_eq!(kind_for_lowered_extension("mp4"), AudioKind::Wav);
    assert_eq!(kind_for_lowered_extension("..mp3"), AudioKind::Wav);
}

#[test]
fn split_plan_uses_sanitized_prefix() {
    let p = plan_split("/in/rec.MP3", 10, "réunion: lundi/matin", "/dl/audio_chunks".to_string());
    assert_eq!(p.kind, AudioKind::Mp3);
    assert_eq!(p.prefix, "réunion.lundi_matin");
    assert_eq!(p.input_path, "/in/rec.MP3");
    assert_eq!(p.chunk_minutes, 10);
    assert_eq!(p.output_dir, "/dl/audio_chunks");
}

#[test]
fn split_keeps_backend_order() {
    let paths = vec![
        "/dl/audio_chunks/s_000.wav".to_string(),
        "/dl/audio_chunks/s_001.wav".to_string(),
        "/dl/audio_chunks/s_002.wav".to_string(),
    ];
    let r = finish_split(Ok(paths.clone())).unwrap();
    assert_eq!(r.len(), 3);
    assert_eq!(r, paths);
}

#[test]
fn split_error_is_wrapped() {
    let r = finish_split(Err("corrupt header".to_string()));
    assert_eq!(r, Err("Error splitting audio file: corrupt header".to_string()));
}

#[test]
fn directories_join_names() {
    assert_eq!(join_path("/home/u/Downloads", "audio_chunks"), "/home/u/Downloads/audio_chunks");
    assert_eq!(join_path("/home/u/Downloads/", "audio_chunks"), "/home/u/Downloads/audio_chunks");
    assert_eq!(join_path("C:\\Users\\u\\", "x"), "C:\\Users\\u\\x");
    assert_eq!(join_path("", "x"), "x");
    assert_eq!(
        get_chunk_directory(&Some("/d".to_string())),
        Ok("/d/audio_chunks".to_string())
    );
    assert_eq!(
        get_chunk_directory(&None),
        Err("Dowload directory not found".to_string())
    );
    assert_eq!(get_keypath(&Some("/d".to_string())), Ok("/d/albertine.key".to_string()));
    assert_eq!(get_keypath(&None), Err("Dowload directory not found".to_string()));
    assert_eq!(
        transcription_directory_in(&Some("/docs".to_string())),
        Ok("/docs/transcriptions_albertine".to_string())
    );
    assert_eq!(
        transcription_directory_in(&None),
        Err("Documents directory not found".to_string())
    );
}

#[test]
fn clearing_missing_directory_does_nothing() {
    assert!(matches!(clear_action("/d/audio_chunks".to_string(), false), ClearAction::Nothing));
    match clear_action("/d/audio_chunks".to_string(), true) {
        ClearAction::RemoveAll(p) => assert_eq!(p, "/d/audio_chunks"),
        ClearAction::Nothing => panic!("an existing directory must be removed"),
    }
    assert_eq!(clear_result(Ok(())), Ok(()));
    assert_eq!(
        clear_result(Err("busy".to_string())),
        Err("Error clearing chunks: busy".to_string())
    );
}

#[test]
fn termination_messages() {
    let ok = terminate_result(Ok(()), false, "/docs/t").unwrap();
    assert_eq!(
        ok,
        "Fichiers temporaires supprimés.<br><br>Vous trouverez les fichiers texte de transcription dans le répertoire : <b>/docs/t</b>"
    );
    let cancelled = terminate_result(Ok(()), true, "/docs/t").unwrap();
    assert!(cancelled.contains("avant l'annulation"));
    assert!(cancelled.ends_with("<b>/docs/t</b>"));
    assert_eq!(
        terminate_result(Err("x".to_string()), true, "/docs/t"),
        Err("Error clearing chunks: x".to_string())
    );
}

#[test]
fn transcript_names_drop_intermediate_extensions() {
    assert_eq!(transcript_path_for("/docs/t", "s_001.wav.json"), "/docs/t/s_001.txt");
    assert_eq!(transcript_path_for("/docs/t", "s_001.mp3.json"), "/docs/t/s_001.txt");
    assert_eq!(transcript_path_for("/docs/t", "a.json.b"), "/docs/t/a.json.b.txt");
    assert_eq!(
        transcript_path_for("/docs/t", "my.json.talk_001.wav.json"),
        "/docs/t/my.json.talk_001.txt"
    );
    assert_eq!(transcript_path_for("/docs/t", "x.wav.mp3.json"), "/docs/t/x.txt");
    assert_eq!(transcript_path_for("/docs/t", ".json"), "/docs/t/.txt");
    assert_eq!(transcript_path_for("/docs/t", "notes"), "/docs/t/notes.txt");
    assert_eq!(
        transcript_path("/docs/t", "/dl/audio_chunks/s_002.mp3.json"),
        Ok("/docs/t/s_002.txt".to_string())
    );
    assert!(transcript_path("/docs/t", "/").is_err());
    assert_eq!(transcript_path("/docs/t", ".."), Err("No file name in: ..".to_string()));
    assert!(transcript_path("/docs/t", "").is_err());
}

#[test]
fn transcription_plan_defaults_to_french() {
    let j = plan_transcription("/c/s_000.wav".to_string(), None, None, 0);
    assert_eq!(j.artifact_path, "/c/s_000.wav.json");
    assert_eq!(j.language, "fr");
    let j = plan_transcription("/c/s.wav".to_string(), Some("en".to_string()), Some("L".to_string()), 5);
    assert_eq!(j.language, "en");
    assert_eq!(j.label, Some("L".to_string()));
    assert_eq!(j.delay_ms, 5);
}

#[test]
fn chunk_runs_through_delay_call_and_format() {
    let j = plan_transcription("/c/s_000.wav".to_string(), None, None, 1500);
    let (s, a) = step(&j, ChunkState::Pending, ChunkEvent::Submitted);
    assert!(matches!(s, ChunkState::Delayed));
    assert!(matches!(a, ChunkAction::Wait(1500)));
    let (s, a) = step(&j, s, ChunkEvent::DelayElapsed);
    assert!(matches!(s, ChunkState::InFlight));
    match a {
        ChunkAction::Transcribe { source, artifact, language } => {
            assert_eq!(source, "/c/s_000.wav");
            assert_eq!(artifact, "/c/s_000.wav.json");
            assert_eq!(language, "fr");
        }
        _ => panic!("expected a transcription call"),
    }
    let (s, a) = step(&j, s, ChunkEvent::Transcribed(Ok(())));
    assert!(matches!(s, ChunkState::Formatting));
    assert!(matches!(a, ChunkAction::Format { .. }));
    let (s, a) = step(&j, s, ChunkEvent::FormatDone(Ok("/docs/t/s_000.txt".to_string())));
    assert!(matches!(a, ChunkAction::Stop));
    assert_eq!(outcome(&s), Some(Ok("/docs/t/s_000.txt".to_string())));
}

#[test]
fn chunk_without_delay_calls_at_once() {
    let j = plan_transcription("/c/s.wav".to_string(), None, None, 0);
    let (s, a) = step(&j, ChunkState::Pending, ChunkEvent::Submitted);
    assert!(matches!(s, ChunkState::InFlight));
    assert!(matches!(a, ChunkAction::Transcribe { .. }));
    assert_eq!(outcome(&s), None);
}

#[test]
fn failed_call_names_the_chunk() {
    let done = plan_transcription("/c/s_000.wav".to_string(), None, None, 0);
    let failing = plan_transcription("/c/s_001.wav".to_string(), None, None, 0);
    let (sibling, _) = step(&done, ChunkState::Formatting, ChunkEvent::FormatDone(Ok("/t/s_000.txt".to_string())));
    let (s, a) = step(&failing, ChunkState::InFlight, ChunkEvent::Transcribed(Err("timeout".to_string())));
    assert!(matches!(a, ChunkAction::Stop));
    match &s {
        ChunkState::Failed(e) => {
            assert_eq!(e.chunk_path, "/c/s_001.wav");
            assert_eq!(e.stage, FailedStage::Transcription);
        }
        _ => panic!("expected a failure"),
    }
    assert_eq!(
        outcome(&s),
        Some(Err("Error during transcription: timeout for /c/s_001.wav".to_string()))
    );
    assert_eq!(outcome(&sibling), Some(Ok("/t/s_000.txt".to_string())));
}

#[test]
fn failed_formatting_names_the_chunk() {
    let j = plan_transcription("/c/s.wav".to_string(), None, None, 0);
    let (s, _) = step(&j, ChunkState::Formatting, ChunkEvent::FormatDone(Err("bad json".to_string())));
    assert_eq!(
        outcome(&s),
        Some(Err("Error during formatting: bad json for /c/s.wav".to_string()))
    );
}

#[test]
fn unexpected_event_changes_nothing() {
    let j = plan_transcription("/c/s.wav".to_string(), None, None, 0);
    let (s, a) = step(&j, ChunkState::Pending, ChunkEvent::DelayElapsed);
    assert!(matches!(s, ChunkState::Pending));
    assert!(matches!(a, ChunkAction::Stop));
}

#[test]
fn assembly_concatenates_in_order() {
    let a = b"first\n".to_vec();
    let b = vec![0u8, 255, 10];
    let c = "troisième".as_bytes().to_vec();
    let out = assemble_transcript(&vec![a.clone(), b.clone(), c.clone()]);
    let mut expected = a.clone();
    expected.extend_from_slice(&b);
    expected.extend_from_slice(&c);
    assert_eq!(out, expected);
    let again = assemble_transcript(&vec![a.clone(), b.clone(), c.clone()]);
    assert_eq!(again, expected);
    let reordered = assemble_transcript(&vec![c.clone(), a.clone()]);
    assert_eq!(reordered, [c.clone(), a.clone()].concat());
    assert!(assemble_transcript(&vec![]).is_empty());
}
