//! Alias manager for a remote shell client.
//!
//! Named connection profiles are kept in a [`model::Config`]. [`config`]
//! finds the configuration on the machine and looks profiles up, adds,
//! replaces and removes them; [`record`] maps them to the shape of the
//! configuration file; [`cli`] builds a profile from command-line arguments;
//! [`command`] turns a profile into the command line of the client and into
//! the process to start; [`update`] compares the running version with the
//! latest release.
//!
//! Of the machine the library asks only what [`platform`] lists: the home
//! directory, the executables on the search path and whether a path exists.
//! Files, environment variables and processes are the caller's business.

pub mod cli;
pub mod command;
pub mod config;
pub mod error;
pub mod model;
pub mod platform;
pub mod record;
pub mod text;
pub mod update;
