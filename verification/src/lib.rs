//! Decision core of a headless, virtual-time web shell.

pub mod active;
pub mod answer_laws;
pub mod authority;
pub mod closing;
pub mod closing_laws;
pub mod control;
pub mod control_step;
pub mod document_laws;
pub mod engine;
pub mod error;
pub mod failure;
pub mod failure_laws;
pub mod frame;
pub mod inbox;
pub mod js_value;
pub mod json;
pub mod lane_laws;
pub mod laws;
pub mod members;
pub mod navigation_step;
pub mod network;
pub mod opening;
pub mod opening_laws;
pub mod operation;
pub mod operation_laws;
pub mod owner;
pub mod params;
pub mod poll_laws;
pub mod preference_names;
pub mod profile;
pub mod publication_laws;
pub mod replacement_laws;
pub mod request;
pub mod session;
pub mod session_laws;
pub mod settle;
pub mod settlement_laws;
pub mod shell;
pub mod shell_laws;
pub mod shell_poll;
pub mod step_laws;
pub mod text;
pub mod writer;
