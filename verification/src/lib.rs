//! Decision logic of a voice dictation assistant: the tray icon, the
//! dictation worker's state machine, the chat-completion exchange that
//! polishes a transcript, the overlay's menu state, and the hotkey dispatch.

pub mod automation;
pub mod icon;
pub mod text;
pub mod error;
pub mod groq;
pub mod dictation;
pub mod overlay;
pub mod audio;

pub use automation::AppEvent;
