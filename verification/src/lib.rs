//! Rendering of a terminal info card: colour swatches, a list of system
//! facts and a word-wrapped welcome message, laid out as a configuration asks.

pub mod command;
pub mod config;
pub mod date;
pub mod decimal;
pub mod details;
pub mod esc_seq;
pub mod failure;
pub mod general;
pub mod layout;
pub mod layout_laws;
pub mod shell;
pub mod text;
pub mod wrap;
pub mod wrap_laws;
