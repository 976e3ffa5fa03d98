//! The dictation worker's decisions. The worker toggles listening on the
//! hotkey; when listening stops it has the recording transcribed, has a
//! non-blank transcript polished, and types the polished text.
//!
//! [`DictationWorker::step`] maps the worker's state and an event to the next
//! state and the action to perform; the caller performs the action (record,
//! transcribe, polish, type, report) and feeds its outcome back as an event.
use vstd::prelude::*;
use crate::AppEvent;
use crate::automation::{hotkey_event_spec, HotKeyState};
use crate::error::AiError;
use crate::text::{is_blank, is_blank_text, is_white_space};

verus! {

/// What the worker is told.
pub enum WorkerEvent {
    /// An application event from the hotkey channel.
    App(AppEvent),
    /// The outcome of transcribing the last recording.
    Transcribed(Result<String, AiError>),
    /// The outcome of polishing a transcript.
    Polished(Result<String, AiError>),
}

/// What the worker must do next.
pub enum WorkerAction {
    /// Nothing.
    Idle,
    /// Empty the sample buffer, open a fresh sample channel and start the
    /// recorder.
    StartRecording,
    /// Stop the recorder, close the sample channel, and transcribe the
    /// buffered samples.
    StopAndTranscribe,
    /// Send this transcript to be polished.
    Polish(String),
    /// Type this text into the focused window.
    TypeText(String),
    /// Report that the recording held no speech.
    ReportSilence,
    /// Report that transcription failed with this error.
    ReportTranscriptionError(AiError),
    /// Report that polishing failed with this error.
    ReportPolishError(AiError),
}

/// The worker's state and action after `event`, from `listening`.
pub open spec fn worker_transition(listening: bool, event: WorkerEvent) -> (bool, WorkerAction) {
    match event {
        WorkerEvent::App(AppEvent::ToggleListening) => if listening {
            (false, WorkerAction::StopAndTranscribe)
        } else {
            (true, WorkerAction::StartRecording)
        },
        WorkerEvent::App(AppEvent::TranscriptionDone(_)) => (listening, WorkerAction::Idle),
        WorkerEvent::Transcribed(Ok(text)) => if is_blank(text@) {
            (listening, WorkerAction::ReportSilence)
        } else {
            (listening, WorkerAction::Polish(text))
        },
        WorkerEvent::Transcribed(Err(e)) => (listening, WorkerAction::ReportTranscriptionError(e)),
        WorkerEvent::Polished(Ok(text)) => (listening, WorkerAction::TypeText(text)),
        WorkerEvent::Polished(Err(e)) => (listening, WorkerAction::ReportPolishError(e)),
    }
}

/// The dictation worker.
pub struct DictationWorker {
    listening: bool,
}

impl DictationWorker {
    /// Whether the worker is listening.
    pub closed spec fn listening_spec(&self) -> bool {
        self.listening
    }

    /// A worker that is not listening.
    pub fn new() -> (w: Self)
        ensures
            !w.listening_spec(),
    {
        DictationWorker { listening: false }
    }

    /// Whether the worker is listening; the overlay shows this.
    pub fn is_listening(&self) -> (b: bool)
        ensures
            b == self.listening_spec(),
    {
        self.listening
    }

    /// Takes one event and says what to do next.
    pub fn step(&mut self, event: WorkerEvent) -> (action: WorkerAction)
        ensures
            (final(self).listening_spec(), action) == worker_transition(
                old(self).listening_spec(),
                event,
            ),
    {
        match event {
            WorkerEvent::App(AppEvent::ToggleListening) => {
                self.listening = !self.listening;
                if self.listening {
                    WorkerAction::StartRecording
                } else {
                    WorkerAction::StopAndTranscribe
                }
            },
            WorkerEvent::App(AppEvent::TranscriptionDone(_)) => WorkerAction::Idle,
            WorkerEvent::Transcribed(Ok(text)) => {
                if is_blank_text(text.as_str()) {
                    WorkerAction::ReportSilence
                } else {
                    WorkerAction::Polish(text)
                }
            },
            WorkerEvent::Transcribed(Err(e)) => WorkerAction::ReportTranscriptionError(e),
            WorkerEvent::Polished(Ok(text)) => WorkerAction::TypeText(text),
            WorkerEvent::Polished(Err(e)) => WorkerAction::ReportPolishError(e),
        }
    }
}

/// The hotkey alternates: from idle it starts recording, from listening it
/// stops and transcribes, and two presses leave the worker as it was.
pub proof fn toggle_alternates(listening: bool)
    ensures
        worker_transition(false, WorkerEvent::App(AppEvent::ToggleListening)) == (
            true,
            WorkerAction::StartRecording,
        ),
        worker_transition(true, WorkerEvent::App(AppEvent::ToggleListening)) == (
            false,
            WorkerAction::StopAndTranscribe,
        ),
        worker_transition(
            worker_transition(listening, WorkerEvent::App(AppEvent::ToggleListening)).0,
            WorkerEvent::App(AppEvent::ToggleListening),
        ).0 == listening,
{
}

/// Only the hotkey changes whether the worker listens.
pub proof fn only_toggle_changes_listening(listening: bool, event: WorkerEvent)
    requires
        !(event matches WorkerEvent::App(AppEvent::ToggleListening)),
    ensures
        worker_transition(listening, event).0 == listening,
{
}

/// A blank transcript is reported as silence: it is neither polished nor
/// typed. Any other transcript is sent, unchanged, to be polished.
pub proof fn blank_transcript_is_not_polished(listening: bool, text: String)
    ensures
        is_blank(text@) ==> worker_transition(listening, WorkerEvent::Transcribed(Ok(text))).1
            == WorkerAction::ReportSilence,
        !is_blank(text@) ==> worker_transition(listening, WorkerEvent::Transcribed(Ok(text))).1
            == WorkerAction::Polish(text),
{
}

/// A dictation from an idle worker: the first press starts recording, the
/// second stops and transcribes; a transcript with speech in it is polished
/// and the polished text is typed as it came back; the worker ends idle.
/// Every failure along the way is reported as it came, with the stage it
/// failed at.
pub proof fn dictation_round(transcript: String, polished: String, failure: AiError)
    requires
        !is_blank(transcript@),
    ensures
        ({
            let toggle = WorkerEvent::App(AppEvent::ToggleListening);
            let (s1, a1) = worker_transition(false, toggle);
            let (s2, a2) = worker_transition(s1, toggle);
            let (s3, a3) = worker_transition(s2, WorkerEvent::Transcribed(Ok(transcript)));
            let (s4, a4) = worker_transition(s3, WorkerEvent::Polished(Ok(polished)));
            &&& a1 == WorkerAction::StartRecording
            &&& a2 == WorkerAction::StopAndTranscribe
            &&& a3 == WorkerAction::Polish(transcript)
            &&& a4 == WorkerAction::TypeText(polished)
            &&& !s4
        }),
        worker_transition(false, WorkerEvent::Transcribed(Err(failure))).1
            == WorkerAction::ReportTranscriptionError(failure),
        worker_transition(false, WorkerEvent::Polished(Err(failure))).1
            == WorkerAction::ReportPolishError(failure),
{
}

/// Whether the worker listens after a global hotkey event reaches it, from
/// `listening`: the event's application event, if it raises one, is stepped.
pub open spec fn listening_after_hotkey(
    listening: bool,
    event_id: u32,
    state: HotKeyState,
    toggle_id: u32,
) -> bool {
    match hotkey_event_spec(event_id, state, toggle_id) {
        Some(ev) => worker_transition(listening, WorkerEvent::App(ev)).0,
        None => listening,
    }
}

/// One press of the toggle hotkey, reported as `Pressed` then `Released`,
/// flips listening exactly once: from idle it starts recording, from
/// listening it stops; the release changes nothing. A second press restores
/// the state, and presses of other hotkeys change nothing.
pub proof fn one_press_toggles_once(listening: bool, event_id: u32, toggle_id: u32)
    ensures
        ({
            let after_press = listening_after_hotkey(listening, event_id, HotKeyState::Pressed, toggle_id);
            let after_release = listening_after_hotkey(after_press, event_id, HotKeyState::Released, toggle_id);
            &&& after_release == after_press
            &&& event_id == toggle_id ==> after_release == !listening
            &&& event_id != toggle_id ==> after_release == listening
        }),
        event_id == toggle_id && !listening ==> worker_transition(
            listening,
            WorkerEvent::App(AppEvent::ToggleListening),
        ).1 == WorkerAction::StartRecording,
        event_id == toggle_id && listening ==> worker_transition(
            listening,
            WorkerEvent::App(AppEvent::ToggleListening),
        ).1 == WorkerAction::StopAndTranscribe,
{
}

/// What each event does to the worker, in terms of the event alone: only the
/// hotkey flips listening (starting the recording when it turns listening
/// on, stopping and transcribing when it turns it off); a finished
/// transcription notice is ignored; a transcript that is empty or all
/// whitespace is reported as silence and any other is polished unchanged; a
/// polished text is typed unchanged; every failure is reported unchanged,
/// as a transcription or a polishing failure by where it came from.
pub proof fn worker_by_event(listening: bool, text: String, failure: AiError)
    ensures
        worker_transition(listening, WorkerEvent::App(AppEvent::ToggleListening)).0 == !listening,
        worker_transition(listening, WorkerEvent::App(AppEvent::TranscriptionDone(text))) == (
            listening,
            WorkerAction::Idle,
        ),
        (forall|i: int| 0 <= i < text@.len() ==> #[trigger] is_white_space(text@[i])) ==> worker_transition(
            listening,
            WorkerEvent::Transcribed(Ok(text)),
        ) == (listening, WorkerAction::ReportSilence),
        (exists|i: int| 0 <= i < text@.len() && !#[trigger] is_white_space(text@[i])) ==> worker_transition(
            listening,
            WorkerEvent::Transcribed(Ok(text)),
        ) == (listening, WorkerAction::Polish(text)),
        worker_transition(listening, WorkerEvent::Polished(Ok(text))) == (
            listening,
            WorkerAction::TypeText(text),
        ),
        worker_transition(listening, WorkerEvent::Transcribed(Err(failure))) == (
            listening,
            WorkerAction::ReportTranscriptionError(failure),
        ),
        worker_transition(listening, WorkerEvent::Polished(Err(failure))) == (
            listening,
            WorkerAction::ReportPolishError(failure),
        ),
{
}

} // verus!
