//! Chatterpipe: the decisions behind a one-shot chat-completion client.
//!
//! The library turns command-line words, a text file's contents, a stored
//! default prompt and a credential into either a ready-to-send request or a
//! precise reason for not sending one, and turns a decoded reply into the
//! text to print. Reading files, the environment and the network is left to
//! the program around it.

pub mod chat;
pub mod cli;
pub mod config;
pub mod dispatch;
pub mod model;
pub mod prompt;
pub mod reply;
pub mod report;
pub mod text;
pub mod tokens;
