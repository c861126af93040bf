//! A verified model of a global-hotkey capture-and-inject pipeline for a
//! desktop shell that embeds a web chat page.
//!
//! On a user-configured key combination the pipeline copies the text selected
//! in the foreground application, reads it from the system clipboard, reveals
//! the shell's main window, moves input focus to a fixed control inside the
//! embedded page, pastes the captured text there, and finally clears the
//! clipboard so the captured text does not linger.
//!
//! The library holds the decision logic of that pipeline: accelerator-string
//! parsing, wide (UTF-16) clipboard text decoding, the activation state
//! machine, and models of the clipboard, window and document against which
//! the orchestration is proved. The operating-system calls themselves
//! (synthetic key events, the real clipboard, the real window) live outside
//! the library; a driver performs each action the state machine asks for and
//! hands the outcome back as the next event.

pub mod accel;
pub mod activation;
pub mod clipboard;
pub mod focus;
pub mod pipeline;
pub mod registration;
pub mod wide;
pub mod window;
