//! The engine of a Japanese input method for Windows: what the text service, the
//! conversion server, the candidate window and the launcher decide.
//!
//! Outside work (the host's text, the converter, windows, files, processes) is
//! asked for as an effect, and its outcome comes back as a reply. What follows from
//! which reply is stated by spec functions, and the properties that hold whatever
//! the replies are stand beside them as proof functions.

pub mod action_laws;
pub mod action_run;
pub mod actions;
pub mod activation;
pub mod candidate_window;
pub mod candidates;
pub mod compartments;
pub mod composition;
pub mod diagnostic_laws;
pub mod diagnostics;
pub mod edit_laws;
pub mod edit_session;
pub mod effects;
pub mod host_text;
pub mod ime_state;
pub mod input_mode;
pub mod kana;
pub mod key_handling;
pub mod key_laws;
pub mod key_registration;
pub mod keys;
pub mod launcher;
pub mod log_rotation;
pub mod mode_sync;
pub mod path_laws;
pub mod paths;
pub mod registrations;
pub mod requests;
pub mod runtime_log;
pub mod server;
pub mod session;
pub mod settling;
pub mod surrounding_text;
pub mod text;
pub mod text_service;
pub mod ui_state;
pub mod web_messages;
