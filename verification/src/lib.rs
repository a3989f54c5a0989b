//! State, rules and text of a terminal dashboard and command-line front end
//! for a disposable Kali Linux Docker container.

pub mod text;
pub mod data;
pub mod app;
pub mod cli;
pub mod laws;
