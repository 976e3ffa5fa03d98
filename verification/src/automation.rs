//! Application events and the global hotkey that raises them.
use vstd::prelude::*;

verus! {

/// Events that drive the dictation worker.
pub enum AppEvent {
    /// Start listening, or stop and process what was heard.
    ToggleListening,
    /// A transcript is ready; the worker takes no action on it.
    TranscriptionDone(String),
}

/// Whether a global hotkey event reports the key going down or coming up.
/// Every press of a hotkey is reported twice: `Pressed`, then `Released`.
pub enum HotKeyState {
    Pressed,
    Released,
}

/// The event that a global hotkey event raises: `ToggleListening` when the
/// toggle hotkey goes down, nothing for its release or for other hotkeys.
pub open spec fn hotkey_event_spec(event_id: u32, state: HotKeyState, toggle_id: u32) -> Option<
    AppEvent,
> {
    if event_id == toggle_id && state is Pressed {
        Some(AppEvent::ToggleListening)
    } else {
        None
    }
}

/// Maps a global hotkey event, by the id of its hotkey and its state, to the
/// application event it raises.
pub fn event_for_hotkey(event_id: u32, state: HotKeyState, toggle_id: u32) -> (ev: Option<AppEvent>)
    ensures
        ev == hotkey_event_spec(event_id, state, toggle_id),
{
    match state {
        HotKeyState::Pressed => if event_id == toggle_id {
            Some(AppEvent::ToggleListening)
        } else {
            None
        },
        HotKeyState::Released => None,
    }
}

/// The number of `ToggleListening` events that a hotkey event raises.
pub open spec fn toggles_raised(event_id: u32, state: HotKeyState, toggle_id: u32) -> int {
    if hotkey_event_spec(event_id, state, toggle_id) matches Some(AppEvent::ToggleListening) {
        1
    } else {
        0
    }
}

/// One press of the toggle hotkey, reported as `Pressed` then `Released`,
/// raises exactly one `ToggleListening`, on the key going down; a press of
/// any other hotkey raises none.
pub proof fn one_press_one_toggle(event_id: u32, toggle_id: u32)
    ensures
        event_id == toggle_id ==> hotkey_event_spec(event_id, HotKeyState::Pressed, toggle_id)
            == Some(AppEvent::ToggleListening),
        hotkey_event_spec(event_id, HotKeyState::Released, toggle_id) == None::<AppEvent>,
        toggles_raised(event_id, HotKeyState::Pressed, toggle_id) + toggles_raised(
            event_id,
            HotKeyState::Released,
            toggle_id,
        ) == (if event_id == toggle_id { 1int } else { 0int }),
{
}

} // verus!
