//! The configuration of `biome.json`: the partial configuration that a file
//! holds, how configurations are merged through `extends`, how deprecated
//! fields are migrated, and the decisions taken while a configuration is
//! looked up, loaded and created.

pub mod configuration;
pub mod diagnostics;
pub mod jsonc;
pub mod laws;
pub mod lines;
pub mod merge;
pub mod string_set;
