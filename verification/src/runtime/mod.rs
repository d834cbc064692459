//! The script runtime: the registry of loaded script classes and the
//! queries that the engine's script objects answer from it.
pub mod registry;
pub mod metadata;
pub mod script;
pub mod instance;
pub mod language;
