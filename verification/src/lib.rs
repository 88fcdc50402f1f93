//! A sans-I/O client for posting one text message to a Matrix room.
//!
//! The library builds the four requests of a run (login, join, send, logout),
//! interprets the replies, and decides what happens next. Performing the
//! requests is left to the caller.

pub mod config;
pub mod error;
pub mod json;
pub mod parse;
pub mod session;
pub mod status;
pub mod transcript;
pub mod utils;
pub mod wire;

pub use config::{load_config, Candidate, Config};
pub use error::Failure;
pub use session::{Action, Session, Stage, Step};
pub use wire::{Reply, Request};
