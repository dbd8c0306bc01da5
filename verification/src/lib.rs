//! A process-wide configuration registry: a key/value table seeded with
//! defaults, merged from an external configuration file, validated against a
//! character-class rule for a fixed set of well-known keys, and read through
//! typed point lookups. A reader/writer lock guards the shared table.

pub mod errors;
pub mod laws;
mod loader;
pub mod registry;
pub mod shared;
pub mod validation;
