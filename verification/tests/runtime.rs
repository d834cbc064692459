use godot_rust_script::class_name::{class_name_from_file_name, path_to_class_name};
use godot_rust_script::derive::impl_attribute::CallError;
use godot_rust_script::interface::cast::AttachedScript;
use godot_rust_script::engine_types::{ClassId, PropertyHint, PropertyUsageFlags, VariantType};
use godot_rust_script::runtime::instance::{
    find_property, get_method_argument_count, get_property_type, PropertyStore, RustScriptPlaceholder,
};
use godot_rust_script::runtime::language::{
    export_skips_file, expected_shutdown_ref_count, get_global_class_name, global_class_for,
    handles_global_class_type, language_extension, language_name, loader_handles_type,
    loader_resource_type, save_plan, validate_path, validate_path_message, SavePlan,
};
use godot_rust_script::runtime::metadata::{prop_doc_type, variant_type_to_str, Documented};
use godot_rust_script::runtime::registry::ScriptRegistry;
use godot_rust_script::runtime::script::{
    contains_signal, exported_property_names, get_documentation, get_instance_base_type, is_tool_script,
    get_members, get_method_info, has_method, has_script_signal, init_action, instance_has, owner_update,
    properties_to_carry_over, script_method_list, script_property_list, script_signal_list, InitAction,
    OwnerUpdate,
};
use godot_rust_script::static_script_registry::{
    RustScriptMetaData, RustScriptMethodDesc, RustScriptPropDesc, RustScriptSignalDesc,
};

fn prop(name: &str, ty: VariantType, class_name: &str, usage: PropertyUsageFlags, description: &'static str) -> RustScriptPropDesc {
    RustScriptPropDesc {
        name: name.to_owned(),
        ty,
        class_name: ClassId::from_name(class_name),
        usage,
        hint: PropertyHint::none(),
        hint_string: String::new(),
        description,
    }
}

fn method(id: u32, name: &'static str, arguments: Vec<RustScriptPropDesc>) -> RustScriptMethodDesc {
    RustScriptMethodDesc::builder(name, arguments, prop("", VariantType::Bool, "", PropertyUsageFlags::none(), ""))
        .with_description("does things")
        .build(id, "Player")
}

fn player_registry() -> ScriptRegistry<()> {
    let properties = vec![
        prop("speed", VariantType::Float, "", PropertyUsageFlags::exported(), "how fast"),
        prop("target", VariantType::Object, "Node3D", PropertyUsageFlags::exported(), ""),
        prop("counter", VariantType::Int, "", PropertyUsageFlags::script_variable(), ""),
    ];
    let methods = vec![
        method(0, "jump", Vec::new()),
        method(1, "move_to", vec![prop("x", VariantType::Int, "", PropertyUsageFlags::none(), "")]),
    ];
    let signals = vec![RustScriptSignalDesc {
        name: "landed",
        arguments: vec![prop("height", VariantType::Float, "", PropertyUsageFlags::none(), "")],
        description: "after a jump",
    }];
    let meta = RustScriptMetaData::new("Player", "CharacterBody3D".to_owned(), properties, methods, signals, (), "the player");
    ScriptRegistry::from_scripts(vec![meta])
}

#[test]
fn module_file_name_identifies_the_script_class() {
    assert_eq!(class_name_from_file_name("player_controller.rs"), Some("PlayerController".to_owned()));
    assert_eq!(class_name_from_file_name("example_script.rs"), Some("ExampleScript".to_owned()));
    assert_eq!(class_name_from_file_name("single.rs"), Some("Single".to_owned()));
    assert_eq!(class_name_from_file_name("Already_Upper.rs"), Some("AlreadyUpper".to_owned()));
    assert_eq!(class_name_from_file_name("a_b_c.tar.rs"), Some("ABC.tar".to_owned()));
}

#[test]
fn class_name_ignores_the_extension() {
    assert_eq!(class_name_from_file_name("my_script.rs"), class_name_from_file_name("my_script.gd"));
}

#[test]
fn unicode_initial_is_upper_cased() {
    assert_eq!(class_name_from_file_name("übertragungs_script.rs"), Some("ÜbertragungsScript".to_owned()));
}

#[test]
fn file_name_without_class_name() {
    assert_eq!(class_name_from_file_name("no_extension"), None);
    assert_eq!(class_name_from_file_name("double__underscore.rs"), None);
    assert_eq!(class_name_from_file_name("_leading.rs"), None);
    assert_eq!(class_name_from_file_name(".rs"), None);
}

#[test]
fn path_names_the_class_of_its_file() {
    assert_eq!(path_to_class_name("res://scripts/my_script.rs"), Some("MyScript".to_owned()));
    assert_eq!(path_to_class_name("scripts/nested/test_script.rs"), Some("TestScript".to_owned()));
    assert_eq!(path_to_class_name("scripts/no_dot"), None);
}

#[test]
fn language_identity() {
    assert_eq!(language_name(), "RustScript");
    assert_eq!(language_extension(), "rs");
    assert!(handles_global_class_type("RustScript"));
    assert!(!handles_global_class_type("GDScript"));
    assert!(loader_handles_type("Script"));
    assert!(loader_handles_type("RustScript"));
    assert!(!loader_handles_type("Resource"));
}

#[test]
fn global_classes_come_from_the_registry() {
    let registry = player_registry();
    assert_eq!(
        global_class_for(&registry, "Player"),
        Some(("Player".to_owned(), "CharacterBody3D".to_owned()))
    );
    assert_eq!(global_class_for(&registry, "Enemy"), None);
    assert_eq!(
        get_global_class_name(&registry, "res://scripts/player.rs"),
        Some(("Player".to_owned(), "CharacterBody3D".to_owned()))
    );
    assert_eq!(get_global_class_name(&registry, "res://scripts/enemy.rs"), None);
}

#[test]
fn path_validation_messages() {
    assert_eq!(
        validate_path_message(None, "a.rs", true, true),
        "Unable to validate script location! RustScript source location is known in the current execution context."
    );
    assert_eq!(
        validate_path_message(Some("/project/src"), "/other/a.rs", true, true),
        "rust file is not part of the scripts crate!"
    );
    assert_eq!(
        validate_path_message(Some("/project/src"), "/project/src/a.rs", false, true),
        "RustScripts can not be created via the Godot editor!"
    );
    assert_eq!(
        validate_path_message(Some("/project/src"), "/project/src/a.rs", true, false),
        "Rust script has not been complied into shared library yet!"
    );
    assert_eq!(validate_path_message(Some("/project/src"), "/project/src/a.rs", true, true), "");
}

#[test]
fn path_validation_looks_up_the_class() {
    let registry = player_registry();
    assert_eq!(validate_path(&registry, Some("/project/src"), "/project/src/player.rs", true), "");
    assert_eq!(
        validate_path(&registry, Some("/project/src"), "/project/src/enemy.rs", true),
        "Rust script has not been complied into shared library yet!"
    );
}

#[test]
fn loader_reports_rust_scripts() {
    assert_eq!(loader_resource_type("res://player.rs", ""), "RustScript");
    assert_eq!(loader_resource_type("res://player.rs", "not valid"), "");
    assert_eq!(loader_resource_type("res://player.gd", ""), "");
}

#[test]
fn saver_plans() {
    assert!(save_plan(false, 4, true) == (false, SavePlan::Fail));
    assert!(save_plan(true, 4, false) == (true, SavePlan::Done));
    assert!(save_plan(true, 0, true) == (false, SavePlan::Write));
    assert!(save_plan(true, 6, true) == (true, SavePlan::Write));
}

#[test]
fn export_leaves_out_rust_sources() {
    assert!(export_skips_file("res://scripts/player.rs"));
    assert!(!export_skips_file("res://scenes/main.tscn"));
}

#[test]
fn shutdown_reference_count() {
    assert!(expected_shutdown_ref_count(3));
    assert!(!expected_shutdown_ref_count(2));
    assert!(!expected_shutdown_ref_count(4));
}

#[test]
fn script_queries_answer_from_the_registry() {
    let registry = player_registry();
    assert_eq!(get_instance_base_type(&registry, "Player"), "CharacterBody3D");
    assert_eq!(get_instance_base_type(&registry, "Unknown"), "RefCounted");
    assert!(!is_tool_script(&registry, "Player"));
    assert!(!is_tool_script(&registry, "Unknown"));
    let tool = RustScriptMetaData::new("Gizmo", "Node".to_owned(), Vec::new(), Vec::new(), Vec::new(), (), "")
        .with_is_tool(true);
    assert!(is_tool_script(&ScriptRegistry::from_scripts(vec![tool]), "Gizmo"));
    assert!(has_script_signal(&registry, "Player", "landed"));
    assert!(!has_script_signal(&registry, "Player", "jumped"));
    assert!(!has_script_signal(&registry, "Unknown", "landed"));
    assert!(has_method(&registry, "Player", "jump"));
    assert!(!has_method(&registry, "Player", "fly"));
    assert_eq!(get_method_info(&registry, "Player", "move_to").unwrap().id, 1);
    assert!(get_method_info(&registry, "Player", "fly").is_none());
    assert_eq!(script_property_list(&registry, "Player").len(), 3);
    assert!(script_property_list(&registry, "Unknown").is_empty());
    assert_eq!(script_method_list(&registry, "Player")[1].name, "move_to");
    assert_eq!(script_signal_list(&registry, "Player").unwrap()[0].name, "landed");
    assert!(script_signal_list(&registry, "Unknown").is_none());
    assert_eq!(get_members(&registry, "Player"), vec!["speed".to_owned(), "target".to_owned(), "counter".to_owned()]);
    assert!(get_members(&registry, "Unknown").is_empty());
}

#[test]
fn signal_lookup() {
    let signals = vec![RustScriptSignalDesc { name: "hit", arguments: Vec::new(), description: "" }];
    assert!(contains_signal(&signals, "hit"));
    assert!(!contains_signal(&signals, "miss"));
}

#[test]
fn only_editor_properties_are_carried_over() {
    let props = vec![
        prop("speed", VariantType::Float, "", PropertyUsageFlags::exported(), ""),
        prop("counter", VariantType::Int, "", PropertyUsageFlags::script_variable(), ""),
        prop("shown", VariantType::Int, "", PropertyUsageFlags::editor(), ""),
    ];
    assert_eq!(exported_property_names(&props), vec!["speed".to_owned(), "shown".to_owned()]);
}

#[test]
fn documentation_of_a_registered_class() {
    let registry = player_registry();
    let doc = get_documentation(&registry, "Player", "res://player.rs".to_owned());
    assert_eq!(doc.name, "Player");
    assert_eq!(doc.inherits, "CharacterBody3D");
    assert_eq!(doc.description, "the player");
    assert_eq!(doc.brief_description, "");
    assert!(doc.is_script_doc);
    assert!(!doc.is_deprecated);
    assert_eq!(doc.script_path, "res://player.rs");
    assert_eq!(doc.methods.len(), 2);
    assert_eq!(doc.methods[1].name, "move_to");
    assert_eq!(doc.methods[1].return_type, "Bool");
    assert_eq!(doc.methods[1].arguments[0].name, "x");
    assert_eq!(doc.methods[1].arguments[0].doc_type, "Int");
    assert_eq!(doc.methods[1].description, Some("does things"));
    assert_eq!(doc.signals[0].name, "landed");
    assert_eq!(doc.signals[0].return_type, "void");
    assert_eq!(doc.signals[0].arguments[0].doc_type, "Float");
    assert_eq!(doc.properties[0].name, "speed");
    assert_eq!(doc.properties[0].doc_type, "Float");
    assert_eq!(doc.properties[0].description, Some("how fast"));
    assert_eq!(doc.properties[1].doc_type, "Node3D");
}

#[test]
fn documentation_of_an_unknown_class() {
    let registry = player_registry();
    let doc = get_documentation(&registry, "Ghost", "res://ghost.rs".to_owned());
    assert_eq!(doc.inherits, "RefCounted");
    assert_eq!(doc.description, "");
    assert!(doc.methods.is_empty());
    assert!(doc.signals.is_empty());
    assert!(doc.properties.is_empty());
}

#[test]
fn documentation_type_names() {
    assert_eq!(variant_type_to_str(VariantType::Nil), "void");
    assert_eq!(variant_type_to_str(VariantType::Aabb), "Aabb");
    assert_eq!(variant_type_to_str(VariantType::PackedFloat32Array), "PackedFloat32Array");
    assert_eq!(variant_type_to_str(VariantType::PackedVector4Array), "UNKNOWN");
    assert_eq!(prop_doc_type(VariantType::Object, &ClassId::from_name("Sprite2D")), "Sprite2D");
    assert_eq!(prop_doc_type(VariantType::Vector3, &ClassId::from_name("Sprite2D")), "Vector3");
    let documented = Documented::from_property(prop("hp", VariantType::Int, "", PropertyUsageFlags::none(), "health"));
    assert_eq!(documented.description(), "health");
    assert_eq!(documented.to_argument_doc().description, Some("health"));
}

#[test]
fn placeholder_reads_back_values_of_script_properties() {
    let props = vec![prop("speed", VariantType::Float, "", PropertyUsageFlags::exported(), "")];
    let methods = vec![method(0, "jump", Vec::new())];
    let mut placeholder: RustScriptPlaceholder<i64> = RustScriptPlaceholder::new(props, methods);

    assert!(placeholder.get_property("speed").is_none());
    assert!(placeholder.set_property("speed".to_owned(), 5));
    assert_eq!(placeholder.get_property("speed"), Some(&5));
    assert!(placeholder.set_property("speed".to_owned(), 8));
    assert_eq!(placeholder.get_property("speed"), Some(&8));
    assert!(!placeholder.set_property("unknown".to_owned(), 1));
    assert!(placeholder.get_property("unknown").is_none());
    assert!(placeholder.has_method("jump"));
    assert!(!placeholder.has_method("fly"));
    assert_eq!(placeholder.get_property_type("speed"), VariantType::Float);
    assert_eq!(placeholder.get_property_type("unknown"), VariantType::Nil);
    assert!(placeholder.is_placeholder());
}

#[test]
fn property_store_keeps_one_value_per_name() {
    let mut store: PropertyStore<u32> = PropertyStore::new();
    store.insert("a".to_owned(), 1);
    store.insert("b".to_owned(), 2);
    store.insert("a".to_owned(), 3);
    assert_eq!(store.get("a"), Some(&3));
    assert_eq!(store.get("b"), Some(&2));
    assert_eq!(store.get("c"), None);
    assert_eq!(store.entries().len(), 2);
}

#[test]
fn property_and_method_lookup() {
    let props = vec![
        prop("speed", VariantType::Float, "", PropertyUsageFlags::exported(), ""),
        prop("name", VariantType::String, "", PropertyUsageFlags::exported(), ""),
    ];
    assert_eq!(find_property(&props, "name"), Some(1));
    assert_eq!(find_property(&props, "missing"), None);
    assert_eq!(get_property_type(&props, "name"), VariantType::String);
    let methods = vec![method(0, "move_to", vec![prop("x", VariantType::Int, "", PropertyUsageFlags::none(), "")])];
    assert_eq!(get_method_argument_count(&methods, "move_to"), Some(1));
    assert_eq!(get_method_argument_count(&methods, "fly"), None);
}

#[test]
fn reload_carries_over_editor_properties_when_keeping_state() {
    let props = vec![
        prop("speed", VariantType::Float, "", PropertyUsageFlags::exported(), ""),
        prop("counter", VariantType::Int, "", PropertyUsageFlags::script_variable(), ""),
    ];
    assert_eq!(properties_to_carry_over(&props, true), vec!["speed".to_owned()]);
    assert!(properties_to_carry_over(&props, false).is_empty());
}

#[test]
fn attached_scripts() {
    let rust = AttachedScript::RustScript { class_name: "Player".to_owned() };
    assert!(instance_has(&rust));
    assert!(!instance_has(&AttachedScript::Other));
    assert!(!instance_has(&AttachedScript::Empty));
    assert!(init_action(&rust, true) == InitAction::CallInit);
    assert!(init_action(&rust, false) == InitAction::Nothing);
    assert!(init_action(&AttachedScript::Empty, true) == InitAction::CallInit);
    assert!(init_action(&AttachedScript::Other, true) == InitAction::WarnNotRustScript);
}

#[test]
fn script_owner_updates() {
    assert!(owner_update(true, 0) == OwnerUpdate::Keep);
    assert!(owner_update(false, 2) == OwnerUpdate::Replace);
    assert!(owner_update(true, 2) == OwnerUpdate::ReplaceWithWarning);
}

#[test]
fn placeholder_runs_no_code() {
    let mut placeholder: RustScriptPlaceholder<u8> = RustScriptPlaceholder::new(
        vec![prop("a", VariantType::Int, "", PropertyUsageFlags::exported(), "")],
        Vec::new(),
    );
    assert!(matches!(placeholder.call("anything"), Err(CallError::InvalidMethod)));
    assert!(placeholder.set_property("a".to_owned(), 9));
    assert_eq!(placeholder.property_state(), &vec![("a".to_owned(), 9u8)]);
}

#[test]
fn documented_values_clone_with_their_description() {
    let documented = Documented::new(vec![1, 2], "numbers");
    let copy = documented.clone();
    assert_eq!(copy.inner, vec![1, 2]);
    assert_eq!(copy.description(), "numbers");
    assert_eq!(*copy.inner(), vec![1, 2]);
}
