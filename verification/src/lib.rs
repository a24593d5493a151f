//! A command-line front end for `cargo`: it reads a handful of positional
//! arguments and an optional configuration, merges the requested flag changes
//! onto that configuration, and lays out the one command that the requested
//! action stands for. Running the command and moving bytes between processes
//! is left to the caller; everything here is a function from plain values to
//! plain values.

pub mod error;
pub mod text;
pub mod transforming_params;
pub mod params;
pub mod merge_laws;
pub mod action_option;
pub mod cfg_option;
pub mod args;
pub mod actions;
pub mod dispatch;
pub mod relay;
pub mod parse_cfg;
