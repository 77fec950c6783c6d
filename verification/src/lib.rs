//! Description and help-layout rendering for single command-line items.
//!
//! The crate models one documented element of a command-line interface — a
//! flag, a value-taking argument, a positional parameter, a subcommand, or a
//! decoration such as a section heading — and renders it in two textual
//! forms: a terse fragment for a one-line usage synopsis, and an aligned,
//! possibly multi-line row for the detailed help listing.

pub mod item;
pub mod laws;
pub mod render;
pub mod text;
