use flow_dictation::automation::{event_for_hotkey, HotKeyState};
use flow_dictation::dictation::{DictationWorker, WorkerAction, WorkerEvent};
use flow_dictation::error::AiError;
use flow_dictation::text::{is_blank_text, is_whitespace_char};
use flow_dictation::AppEvent;

#[test]
fn hotkey_matching_id_toggles() {
    assert!(matches!(event_for_hotkey(7, HotKeyState::Pressed, 7), Some(AppEvent::ToggleListening)));
    assert!(event_for_hotkey(7, HotKeyState::Pressed, 8).is_none());
    assert!(event_for_hotkey(0, HotKeyState::Pressed, u32::MAX).is_none());
}

#[test]
fn hotkey_release_raises_nothing() {
    assert!(event_for_hotkey(7, HotKeyState::Released, 7).is_none());
    assert!(event_for_hotkey(7, HotKeyState::Released, 8).is_none());
}

#[test]
fn one_press_and_release_toggles_once() {
    let mut w = DictationWorker::new();
    let mut actions = Vec::new();
    for state in [HotKeyState::Pressed, HotKeyState::Released] {
        if let Some(ev) = event_for_hotkey(42, state, 42) {
            actions.push(w.step(WorkerEvent::App(ev)));
        }
    }
    assert_eq!(actions.len(), 1);
    assert!(matches!(actions[0], WorkerAction::StartRecording));
    assert!(w.is_listening());
    let mut actions = Vec::new();
    for state in [HotKeyState::Pressed, HotKeyState::Released] {
        if let Some(ev) = event_for_hotkey(42, state, 42) {
            actions.push(w.step(WorkerEvent::App(ev)));
        }
    }
    assert_eq!(actions.len(), 1);
    assert!(matches!(actions[0], WorkerAction::StopAndTranscribe));
    assert!(!w.is_listening());
}

#[test]
fn whitespace_characters() {
    for c in ['\t', '\n', '\u{b}', '\u{c}', '\r', ' ', '\u{85}', '\u{a0}', '\u{1680}', '\u{2000}',
        '\u{200a}', '\u{2028}', '\u{2029}', '\u{202f}', '\u{205f}', '\u{3000}'] {
        assert!(is_whitespace_char(c), "{:?}", c);
        assert_eq!(is_whitespace_char(c), c.is_whitespace());
    }
    for c in ['a', '0', '\u{200b}', '\u{8}', '\u{e}', '\u{feff}', '\u{200c}'] {
        assert!(!is_whitespace_char(c), "{:?}", c);
        assert_eq!(is_whitespace_char(c), c.is_whitespace());
    }
}

#[test]
fn blank_text_matches_trim() {
    for s in ["", " ", "\t\n", "\u{3000} \u{a0}", "a", " a ", "...", "\u{200b}"] {
        assert_eq!(is_blank_text(s), s.trim().is_empty(), "{:?}", s);
    }
    assert!(is_blank_text("   "));
    assert!(!is_blank_text("  hello  "));
}

#[test]
fn worker_toggle_alternates() {
    let mut w = DictationWorker::new();
    assert!(!w.is_listening());
    assert!(matches!(w.step(WorkerEvent::App(AppEvent::ToggleListening)), WorkerAction::StartRecording));
    assert!(w.is_listening());
    assert!(matches!(w.step(WorkerEvent::App(AppEvent::ToggleListening)), WorkerAction::StopAndTranscribe));
    assert!(!w.is_listening());
}

#[test]
fn worker_ignores_transcription_done() {
    let mut w = DictationWorker::new();
    w.step(WorkerEvent::App(AppEvent::ToggleListening));
    let a = w.step(WorkerEvent::App(AppEvent::TranscriptionDone("x".to_string())));
    assert!(matches!(a, WorkerAction::Idle));
    assert!(w.is_listening());
}

#[test]
fn worker_blank_transcript_is_silence() {
    let mut w = DictationWorker::new();
    assert!(matches!(w.step(WorkerEvent::Transcribed(Ok("  \n".to_string()))), WorkerAction::ReportSilence));
    assert!(matches!(w.step(WorkerEvent::Transcribed(Ok(String::new()))), WorkerAction::ReportSilence));
}

#[test]
fn worker_full_dictation_round() {
    let mut w = DictationWorker::new();
    assert!(matches!(w.step(WorkerEvent::App(AppEvent::ToggleListening)), WorkerAction::StartRecording));
    assert!(matches!(w.step(WorkerEvent::App(AppEvent::ToggleListening)), WorkerAction::StopAndTranscribe));
    match w.step(WorkerEvent::Transcribed(Ok(" um hello world ".to_string()))) {
        WorkerAction::Polish(t) => assert_eq!(t, " um hello world "),
        _ => panic!("expected a polish request"),
    }
    match w.step(WorkerEvent::Polished(Ok("Hello world.".to_string()))) {
        WorkerAction::TypeText(t) => assert_eq!(t, "Hello world."),
        _ => panic!("expected typing"),
    }
    assert!(!w.is_listening());
}

#[test]
fn worker_reports_errors() {
    let mut w = DictationWorker::new();
    match w.step(WorkerEvent::Transcribed(Err(AiError::Transcription("bad audio".to_string())))) {
        WorkerAction::ReportTranscriptionError(e) => assert_eq!(e.message(), "Transcription error: bad audio"),
        _ => panic!("expected an error report"),
    }
    match w.step(WorkerEvent::Polished(Err(AiError::NoChoices))) {
        WorkerAction::ReportPolishError(e) => assert_eq!(e.message(), "No choices returned from Groq"),
        _ => panic!("expected an error report"),
    }
}

#[test]
fn ai_error_messages() {
    assert_eq!(AiError::ModelLoad("missing".to_string()).message(), "Failed to load Parakeet/Nemotron model: missing");
    assert_eq!(AiError::Transcription("e".to_string()).message(), "Transcription error: e");
    assert_eq!(AiError::Http("connection refused".to_string()).message(), "connection refused");
    assert_eq!(AiError::Api("{\"error\":1}".to_string()).message(), "Groq API Error: {\"error\":1}");
    assert_eq!(AiError::NoChoices.message(), "No choices returned from Groq");
}
