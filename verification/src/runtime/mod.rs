pub mod cli;
pub mod commands;
pub mod spec;
pub mod state;
