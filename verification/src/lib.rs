//! A process-local invocation bridge: a request/response router that lets a
//! front-end layer call named backend operations with structured arguments
//! and receive a structured result or a structured error, together with a
//! startup sequencer that installs capability plugins before the bridge
//! accepts requests.

pub mod bridge;
pub mod command;
pub mod laws;
pub mod plugin;
pub mod value;
