//! A line-oriented command interpreter: a line of text is split into words,
//! classified as a plain, piped or redirected command, and carried out step
//! by step. The library decides what has to be done; its caller opens the
//! files and starts the processes.

pub mod command;
pub mod execution;
pub mod heredoc;
pub mod laws;
pub mod shell;
pub mod words;
