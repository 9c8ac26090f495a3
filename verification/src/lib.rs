//! Decision logic of `bw`, a launcher that runs a command through `bundle exec`
//! when a `Gemfile` governs the working directory and directly otherwise.
//!
//! The crate holds no I/O. A caller lists directories, spawns processes and
//! reads the clock; every decision in between is taken here, on plain values.
pub mod dispatch;
pub mod errors;
pub mod lookup;
pub mod resolve;
pub mod text;
