//! A verified engine for one-dimensional elementary cellular automata.
//!
//! The engine derives an 8-entry transition table from a Wolfram rule number
//! (0 to 255), steps a fixed-length row of binary cells with wraparound
//! boundaries, and keeps an append-only history of the generations produced,
//! ready for a front end to render.

pub mod engine;
pub mod history;
mod random;
pub mod rules;
pub mod seed;
pub mod transition;
