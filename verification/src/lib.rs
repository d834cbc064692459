use vstd::prelude::*;

pub mod apply;
pub mod class_name;
pub mod derive;
pub mod editor_ui_hacks;
pub mod engine_types;
pub mod interface;
pub mod runtime;
pub mod scripts;
pub mod static_script_registry;
pub mod text;

verus! {

} // verus!
