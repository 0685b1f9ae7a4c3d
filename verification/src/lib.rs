//! Core of a retrieval-augmented chat service.
//!
//! The library holds the parts of the service that decide and compute: the
//! error taxonomy and its HTTP projection, the chat session model with its
//! turn-scoped memory, the prompt selection rule, the ranking and joining of
//! retrieved snippets, the agent configuration, and the reasoning state
//! machine that alternates between thinking and acting under an explicit
//! iteration cap.  Transport, storage and the model provider are collaborators
//! that the surrounding application drives; they hand this library plain
//! values and take plain values back.

pub mod agent;
pub mod errors;
pub mod executor;
pub mod model;
pub mod retrieval;
pub mod service;
