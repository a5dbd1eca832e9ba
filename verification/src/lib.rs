//! Core logic of a self-service role bot for a chat platform.
//!
//! The library covers everything the bot decides on its own: splitting a
//! message into tokens while honoring quotes, recognizing when the bot is
//! addressed, parsing the `add` / `remove` command, resolving the requested
//! role against the allow-list of public roles, and producing the reply for
//! every outcome. The platform client (gateway connection, lookups inside a
//! guild, the actual role mutation, and sending replies) lives outside the
//! library and feeds plain values in and out of it.

pub mod command;
pub mod handler;
pub mod laws;
pub mod manager;
pub mod mention;
pub mod registry;
pub mod reply;
pub mod text;
pub mod tokenizer;
