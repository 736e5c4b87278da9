//! A best-effort runner for a fixed sequence of object-storage operations.
//!
//! The crate holds the decisions of such a run and leaves every effect to
//! its caller: it turns the settings found in the process configuration
//! into a [`config::ClientConfig`], hands out the five requests of a run in
//! their fixed order, words the line that reports each result, and says
//! what to do with every chunk of a body that arrives piece by piece.

pub mod body;
pub mod config;
pub mod outcome;
pub mod request;
pub mod runner;
