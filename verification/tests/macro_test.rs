use godot_rust_script::runtime::registry::{load_rust_scripts, ScriptRegistry};
use godot_rust_script::static_script_registry::RustScriptMetaData;

#[test]
fn verify_macros() {
    let _ = || {
        let mut registry: ScriptRegistry<()> = ScriptRegistry::new();
        load_rust_scripts(&mut registry, || Vec::<RustScriptMetaData<()>>::new());
    };

    let _ = || {
        let registry: ScriptRegistry<()> = ScriptRegistry::new();
        drop(registry);
    };
}
