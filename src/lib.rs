//! A ranked list of demons whose positions stay contiguous, the rules that records submitted
//! against it must pass, and the integer part of the score a record earns.

pub mod config;
pub mod demon;
pub mod difficulty;
pub mod error;
pub mod player;
pub mod record;
pub mod score;
pub mod submission;
pub mod text;
