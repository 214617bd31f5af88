//! Client-side core of a project/task/worker management application.
//!
//! The crate models the application as a message-driven state machine: a
//! `Model` holds the authentication state, the current `Scene`, the single
//! in-flight request slot and the transient slot of the two-step assign-task
//! workflow.  `update` consumes one `Msg` at a time and returns the effects
//! (follow-on messages, a network request to issue, a path to write) that a
//! thin platform layer carries out.  The router and the scene-to-path
//! projection are pure functions, and the round-trip between them is proved.

pub mod auth;
pub mod decimal;
pub mod domain;
pub mod engine;
pub mod gateway;
pub mod laws;
pub mod msg;
pub mod response;
pub mod text;
pub mod views;

pub use engine::Model;
pub use msg::Msg;
