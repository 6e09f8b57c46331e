//! A small greeting library: localized greetings and farewells, optionally
//! shouted, and the table of languages they can be written in.
pub mod language;
pub mod message;
pub mod command;
