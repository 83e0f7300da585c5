//! Resolution of the command line into one command and the program's context.
pub mod cli;
pub mod config;
pub mod context;
pub mod lock;
pub mod paths;

pub use cli::{from_args, Command, Opt};
