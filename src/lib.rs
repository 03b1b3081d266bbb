//! A command-line assistant's core: the exchange with a remote chat-completion
//! service in which the model may ask for a local shell command to run, the
//! confirmation and outcome of that command, and the credentials and images that
//! a request carries.

pub mod errors;
pub mod text;
pub mod json;
pub mod image;
pub mod auth;
pub mod config;
pub mod conversation;
pub mod tool;
pub mod commands;
