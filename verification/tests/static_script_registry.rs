use godot_rust_script::engine_types::{ClassId, MethodFlags, PropertyHint, PropertyUsageFlags, VariantType};
use godot_rust_script::runtime::registry::{load_rust_scripts, ScriptRegistry};
use godot_rust_script::static_script_registry::{
    assemble_metadata, RegistryItem, RustScriptEntry, RustScriptEntryMethods, RustScriptMetaData,
    RustScriptMethodDesc, RustScriptPropDesc, RustScriptSignalDesc,
};

fn bool_return() -> RustScriptPropDesc {
    RustScriptPropDesc {
        name: "".into(),
        ty: VariantType::Bool,
        class_name: ClassId::from_name("Node"),
        usage: PropertyUsageFlags::none(),
        hint: PropertyHint::none(),
        hint_string: String::from(""),
        description: "",
    }
}

fn int_prop(name: &str) -> RustScriptPropDesc {
    RustScriptPropDesc {
        name: name.to_owned(),
        ty: VariantType::Int,
        class_name: ClassId::none(),
        usage: PropertyUsageFlags::exported(),
        hint: PropertyHint::none(),
        hint_string: String::new(),
        description: "a number",
    }
}

fn meta(name: &'static str, base: &str, data: u32) -> RustScriptMetaData<u32> {
    RustScriptMetaData::new(name, base.to_owned(), Vec::new(), Vec::new(), Vec::new(), data, "")
}

#[test]
fn new_class_name() {
    let script_name = ClassId::from_name("TestScript");

    assert_eq!(script_name.to_str(), "TestScript");
}

#[test]
fn new_unicode_class_name() {
    let script_name = ClassId::from_name("ÜbertragungsScript");

    assert_eq!(script_name.to_str(), "ÜbertragungsScript");
}

#[test]
fn cached_class_id() {
    let script_name_a = ClassId::from_name("CachedTestScript");
    let script_name_b = ClassId::from_name("CachedTestScript");

    assert_eq!(script_name_a, script_name_b);
    assert_ne!(script_name_a, ClassId::from_name("OtherTestScript"));
}

#[test]
fn build_method_list() {
    let mut builder = RustScriptEntryMethods::builder("TestClass", 4);

    builder.add_method(RustScriptMethodDesc::builder("add_member", Vec::new(), bool_return()));

    let entry = builder.build();

    assert_eq!(entry.methods[0].class_name, "TestClass");
    assert_eq!(entry.methods[0].name, "add_member");
    assert_eq!(entry.methods[0].return_type.ty, VariantType::Bool);
}

#[test]
fn method_ids_follow_the_order_of_registration() {
    let mut builder = RustScriptEntryMethods::builder("TestClass", 2);
    builder.add_method(RustScriptMethodDesc::builder("first", Vec::new(), bool_return()));
    builder.add_method(
        RustScriptMethodDesc::builder("second", vec![int_prop("value")], bool_return())
            .with_flags(MethodFlags::static_())
            .with_description("the second method"),
    );
    let entry = builder.build();

    assert_eq!(entry.methods.len(), 2);
    assert!(entry.methods.iter().all(|m| m.class_name == "TestClass"));
    assert_eq!(entry.methods[0].id, 0);
    assert_eq!(entry.methods[1].id, 1);
    assert_eq!(entry.methods[0].flags, MethodFlags::normal());
    assert_eq!(entry.methods[1].flags, MethodFlags::static_());
    assert_eq!(entry.methods[1].description, "the second method");
    assert_eq!(entry.methods[1].arguments[0].name, "value");
}

#[test]
fn method_list_from_builders() {
    let entry = RustScriptEntryMethods::from_builders(
        "TestClass",
        vec![
            RustScriptMethodDesc::builder("first", Vec::new(), bool_return()),
            RustScriptMethodDesc::builder("second", vec![int_prop("value")], bool_return())
                .with_flags(MethodFlags::static_()),
            RustScriptMethodDesc::builder("third", Vec::new(), bool_return()).with_description("last"),
        ],
    );

    assert_eq!(entry.class_name, "TestClass");
    assert_eq!(entry.methods.len(), 3);
    let names: Vec<&str> = entry.methods.iter().map(|m| m.name).collect();
    assert_eq!(names, vec!["first", "second", "third"]);
    let ids: Vec<u32> = entry.methods.iter().map(|m| m.id).collect();
    assert_eq!(ids, vec![0, 1, 2]);
    assert!(entry.methods.iter().all(|m| m.class_name == "TestClass"));
    assert_eq!(entry.methods[1].flags, MethodFlags::static_());
    assert_eq!(entry.methods[1].arguments[0].name, "value");
    assert_eq!(entry.methods[2].description, "last");

    assert!(RustScriptEntryMethods::from_builders("Empty", Vec::new()).methods.is_empty());
}

#[test]
fn metadata_takes_the_last_method_list_of_its_class() {
    let mut entry = RustScriptEntry::builder("Player", "Node3D".to_owned(), "moves around", 7u32);
    entry.add_property(int_prop("speed"));
    entry.add_signal(RustScriptSignalDesc { name: "jumped", arguments: Vec::new(), description: "" });
    let entry = entry.with_is_tool(true).build();

    let mut first = RustScriptEntryMethods::builder("Player", 1);
    first.add_method(RustScriptMethodDesc::builder("old_method", Vec::new(), bool_return()));
    let mut second = RustScriptEntryMethods::builder("Player", 1);
    second.add_method(RustScriptMethodDesc::builder("new_method", Vec::new(), bool_return()));
    let mut other = RustScriptEntryMethods::builder("Enemy", 1);
    other.add_method(RustScriptMethodDesc::builder("attack", Vec::new(), bool_return()));

    let items = vec![
        RegistryItem::Methods(first.build()),
        RegistryItem::Entry(entry),
        RegistryItem::Methods(second.build()),
        RegistryItem::Methods(other.build()),
    ];
    let metas = assemble_metadata(items);

    assert_eq!(metas.len(), 1);
    let m = &metas[0];
    assert_eq!(m.class_name().to_str(), "Player");
    assert_eq!(m.base_type_name(), "Node3D");
    assert_eq!(m.methods().len(), 1);
    assert_eq!(m.methods()[0].name, "new_method");
    assert_eq!(m.properties()[0].name, "speed");
    assert_eq!(m.signals()[0].name, "jumped");
    assert_eq!(*m.create_data(), 7);
    assert_eq!(m.description(), "moves around");
    assert!(m.is_tool);
}

#[test]
fn class_without_method_list_has_no_methods() {
    let entry = RustScriptEntry::builder("Quiet", "Node".to_owned(), "", ()).build();
    let metas = assemble_metadata(vec![RegistryItem::Entry(entry)]);

    assert_eq!(metas.len(), 1);
    assert!(metas[0].methods().is_empty());
    assert!(!metas[0].is_tool);
}

#[test]
fn registry_finds_loaded_scripts_by_class_name() {
    let mut registry: ScriptRegistry<u32> = ScriptRegistry::new();
    assert!(registry.get("Alpha").is_none());

    load_rust_scripts(&mut registry, || vec![meta("Alpha", "Node", 1), meta("Beta", "Node2D", 2)]);

    assert_eq!(*registry.get("Alpha").unwrap().create_data(), 1);
    assert_eq!(registry.get("Beta").unwrap().base_type_name(), "Node2D");
    assert!(registry.get("Gamma").is_none());
}

#[test]
fn registry_keeps_the_last_script_of_a_name() {
    let registry = ScriptRegistry::from_scripts(vec![meta("Alpha", "Node", 1), meta("Alpha", "Node", 2)]);

    assert_eq!(*registry.get("Alpha").unwrap().create_data(), 2);
}

#[test]
fn loading_replaces_earlier_scripts() {
    let mut registry = ScriptRegistry::from_scripts(vec![meta("Old", "Node", 1)]);

    load_rust_scripts(&mut registry, || vec![meta("New", "Node", 3)]);

    assert!(registry.get("Old").is_none());
    assert_eq!(*registry.get("New").unwrap().create_data(), 3);
}

fn registrations() -> Vec<RegistryItem<u32>> {
    let alpha = RustScriptEntry::builder("Alpha", "Node".to_owned(), "first", 1u32).build();
    let beta = RustScriptEntry::builder("Beta", "Node2D".to_owned(), "second", 2u32).build();
    let mut methods = RustScriptEntryMethods::builder("Beta", 1);
    methods.add_method(RustScriptMethodDesc::builder("run", Vec::new(), bool_return()));

    vec![
        RegistryItem::Entry(alpha),
        RegistryItem::Methods(methods.build()),
        RegistryItem::Entry(beta),
    ]
}

#[test]
fn registered_classes_are_found_after_loading() {
    let mut registry: ScriptRegistry<u32> = ScriptRegistry::new();
    load_rust_scripts(&mut registry, || assemble_metadata(registrations()));

    let found = registry.get("Beta").unwrap();
    assert_eq!(found.description(), "second");
    assert_eq!(found.base_type_name(), "Node2D");
    assert_eq!(found.methods()[0].name, "run");
    assert_eq!(*registry.get("Alpha").unwrap().create_data(), 1);
    assert!(registry.get("Alpha").unwrap().methods().is_empty());
}
