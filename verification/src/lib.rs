pub mod error;
pub mod text;
pub mod cli;
pub mod context;
pub mod host;
pub mod git;
pub mod exclude;
pub mod path;
pub mod prompt;
pub mod commands;
