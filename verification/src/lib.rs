//! The decisions of a kdb+ plugin that publishes to and subscribes from NATS.
//!
//! Each function that q calls is a step: from the state of the plugin and the
//! arguments to the next state and to what has to be done outside. The outcome
//! of outside work comes back as an argument of the step that follows.

pub mod abort;
pub mod acks;
pub mod call_laws;
pub mod connection;
pub mod console;
pub mod consumer;
pub mod handler;
pub mod jetstream;
pub mod laws;
pub mod numerals;
mod outside;
pub mod plugin;
pub mod policy;
pub mod publish;
pub mod refusal;
pub mod subscribe;
pub mod text;
pub mod value;
pub mod view_laws;
