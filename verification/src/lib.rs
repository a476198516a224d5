//! The decisions of a Telegram bot that drives a deemix download server.
//!
//! The library does no I/O. An exchange with a server is a function that builds
//! the request and one that reads the reply; handling an update is a chain of
//! steps, each of which says what to do in the chat and what to wait for.

pub mod text;
pub mod json;
pub mod table;
pub mod pattern;
pub mod http;
pub mod users;
pub mod config;
pub mod flow;
pub mod keyboards;
pub mod deemix;
pub mod ws;
pub mod spotify;
pub mod titles;
pub mod youtube;
pub mod apple;
pub mod supervisor;
pub mod search;
pub mod streaming;
pub mod links;
pub mod voice;
pub mod menu;
pub mod bot;
pub mod guarantees;
pub mod outcomes;
