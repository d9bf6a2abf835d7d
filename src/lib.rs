//! Settlement logic of a single-game dice wagering platform.
//!
//! Every instruction handler works on a context that holds the accounts it
//! touches as plain values. A handler either applies all of its effects and
//! returns `Ok`, or returns an error and leaves the context exactly as it was.
pub mod admin;
pub mod betting;
pub mod dice;
pub mod laws;
pub mod state;
pub mod treasury;
