//! Core model of a string-transformation workbench: a closed set of
//! transformation modules, each with its own configuration and visibility
//! flag, kept in a registry keyed by module kind; a "Caster" module that
//! assembles an ordered pipeline of configuration snapshots; and the
//! protocol that chooses and confirms the output file path.

pub mod classes;
pub mod laws;
pub mod mods;
pub mod paths;
