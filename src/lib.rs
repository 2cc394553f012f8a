//! A simulator of a two-mode, four-level privileged execution model: commands
//! typed at a prompt are looked up in a registry, gated on the current security
//! mode, and a few privileged commands step the exception level down.

pub mod context;
pub mod dispatch;
pub mod hint;
pub mod laws;
pub mod registry;
pub mod rules;
pub mod token;
