//! Form state machine for protecting a secret with a passphrase and
//! producing a printable encrypted document.
//!
//! [`App`] holds the form state, [`Message`] the events that drive it and
//! [`Effect`] the asynchronous work that a transition asks its driver to run.
//! [`App::update`] is the single point of state mutation; the generation flow
//! in [`generate`] validates a snapshot of the form and calls the document
//! generator.
pub mod app;
pub mod generate;
pub mod laws;
pub mod model;

pub use app::{App, AppView};
pub use model::{Assets, Effect, EffectView, GenerateRequest, Message, MessageView, PageSize, RequestView};
