//! The interface that scripts implement and use: property groups, export
//! hints, signals, editor-assigned properties and script casts.
pub mod property_group;
pub mod on_editor;
pub mod cast;
pub mod export;
pub mod signals;
