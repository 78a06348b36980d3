//! Verified core of a score-relay service: a relay queue with FIFO
//! delivery, a presentation renderer for submitted scores, a normalizer
//! for the heterogeneous responses of an upstream registration endpoint,
//! and the decision logic of the registration command.

pub mod config;
pub mod models;
pub mod normalize;
pub mod orchestrate;
pub mod queue;
pub mod render;
pub mod text;
