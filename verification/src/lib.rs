//! The machine agent's rules: what it keeps between runs, how it comes to trust a
//! server, how it registers, and what it does while it runs.
//!
//! Nothing here touches a file, a socket or a clock. Every decision is a function from
//! plain values to plain values with a proved contract; the program around the library
//! performs the effects and hands the outcomes back.

pub mod agent;
pub mod authed;
pub mod collector;
pub mod config;
pub mod error;
pub mod key;
pub mod laws;
pub mod registration;
pub mod results;
pub mod session;
pub mod state;
pub mod transitions;
pub mod views;
