//! The terminal interface: its state and the decisions it takes.

pub mod detail;
pub mod editor;
pub mod event_laws;
pub mod events;
pub mod history;
pub mod history_laws;
pub mod input;
pub mod key_laws;
pub mod keys;
pub mod laws;
pub mod main_keys;
pub mod modals;
pub mod mode_laws;
pub mod networks;
pub mod report_laws;
pub mod run_laws;
pub mod runs;
pub mod state;
pub mod status;
pub mod view;
pub mod view_laws;

pub use state::UiState;
