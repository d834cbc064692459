use godot_rust_script::derive::attribute_ops::{
    to_export_meta, ExpEasingOpts, ExportCustomOps, ExportGroup, ExportSubgroup, FieldExportOps,
    HintArg, HintStringArg,
};
use godot_rust_script::derive::enums::{
    derived_enum_export_hint, derived_enum_value, derived_enum_variant, enum_error_name, enum_property_hint_string,
};
use godot_rust_script::derive::fields::{
    default_field_init, export_header, field_description, field_get_route, field_plan, field_registration,
    field_set_answer, field_set_route, plain_field_metadata, script_class_plan, signal_attribute_plan,
    signal_names_fit, FieldAccess, FieldAttrs, FieldInit, MetadataPlan, RegistrationStep, ScriptField, SignalAttr,
};
use godot_rust_script::derive::impl_attribute::{
    required_args, check_call_args, dispatch_call, extract_ident_from_type, interface_trait_name,
    is_context_type, method_flags, method_registrations, public_interface, rust_to_variant_type, CallError,
    ImplMethod, RustType, ScriptMethodSig, TypeKind,
};
use godot_rust_script::derive::property_group::{
    derived_group_name, group_entry_plan, group_field_errors, route_get, route_set, GroupEntryPlan, GroupField,
    PropertyRoute,
};
use godot_rust_script::engine_types::{MethodFlags, PropertyHint, PropertyUsageFlags, VariantType};

fn no_ops() -> FieldExportOps {
    FieldExportOps {
        color_no_alpha: false,
        dir: false,
        exp_easing: None,
        file: None,
        enum_options: None,
        flags: None,
        global_dir: false,
        global_file: false,
        multiline: false,
        node_path: None,
        placeholder: None,
        range: None,
        storage: None,
        custom: None,
        custom_type: None,
        flatten: false,
    }
}

fn strings(items: &[&str]) -> Vec<String> {
    items.iter().map(|s| s.to_string()).collect()
}

fn path(name: &str) -> RustType {
    RustType { kind: TypeKind::Path(name.to_owned()), text: name.to_owned() }
}

#[test]
fn export_without_options_uses_the_default_metadata() {
    let meta = to_export_meta(&no_ops()).ok().unwrap();
    assert_eq!(meta.field, "");
    assert_eq!(meta.usage, PropertyUsageFlags::exported());
    assert!(matches!(meta.hint, HintArg::Absent));
    assert!(matches!(meta.hint_string, HintStringArg::Absent));
}

#[test]
fn export_with_one_option() {
    let mut ops = no_ops();
    ops.enum_options = Some(strings(&["A", "B", "C"]));
    let meta = to_export_meta(&ops).ok().unwrap();
    assert_eq!(meta.field, "enum_options");
    assert!(matches!(meta.hint, HintArg::Given(h) if h == PropertyHint::enum_()));
    assert!(matches!(&meta.hint_string, HintStringArg::Given(s) if s == "A,B,C"));

    let mut ops = no_ops();
    ops.exp_easing = Some(vec![ExpEasingOpts::Attenuation, ExpEasingOpts::PositiveOnly]);
    let meta = to_export_meta(&ops).ok().unwrap();
    assert!(matches!(meta.hint, HintArg::Given(h) if h == PropertyHint::exp_easing()));
    assert!(matches!(&meta.hint_string, HintStringArg::Given(s) if s == "atenuation,positive_only"));

    let mut ops = no_ops();
    ops.color_no_alpha = true;
    let meta = to_export_meta(&ops).ok().unwrap();
    assert_eq!(meta.field, "color_no_alpha");
    assert!(matches!(meta.hint, HintArg::Given(h) if h == PropertyHint::color_no_alpha()));
    assert!(matches!(&meta.hint_string, HintStringArg::Given(s) if s.is_empty()));

    let mut ops = no_ops();
    ops.range = Some("0,10,1".to_owned());
    let meta = to_export_meta(&ops).ok().unwrap();
    assert!(matches!(meta.hint, HintArg::Given(h) if h == PropertyHint::range()));
    assert!(matches!(&meta.hint_string, HintStringArg::Given(s) if s == "0,10,1"));

    let mut ops = no_ops();
    ops.storage = Some(true);
    let meta = to_export_meta(&ops).ok().unwrap();
    assert_eq!(meta.field, "storage");
    assert_eq!(meta.usage, PropertyUsageFlags::script_variable().union(PropertyUsageFlags::storage()));
    assert_eq!(meta.usage.bits, 4098);

    let mut ops = no_ops();
    ops.custom = Some(ExportCustomOps { hint: "my::HINT".to_owned(), hint_string: "x".to_owned() });
    let meta = to_export_meta(&ops).ok().unwrap();
    assert!(matches!(&meta.hint, HintArg::CustomPath(p) if p == "my::HINT"));

    let mut ops = no_ops();
    ops.custom_type = Some("Texture2D".to_owned());
    let meta = to_export_meta(&ops).ok().unwrap();
    assert_eq!(meta.field, "ty");
    assert!(matches!(meta.hint, HintArg::Absent));
}

#[test]
fn export_storage_false_is_rejected() {
    let mut ops = no_ops();
    ops.storage = Some(false);
    assert_eq!(to_export_meta(&ops).err().unwrap(), "storage can not be set to false");
}

#[test]
fn export_with_two_options_names_both() {
    let mut ops = no_ops();
    ops.dir = true;
    ops.multiline = true;
    assert_eq!(to_export_meta(&ops).err().unwrap(), "multiline is not compatible with dir");

    let mut ops = no_ops();
    ops.storage = Some(false);
    ops.custom = Some(ExportCustomOps { hint: "H".to_owned(), hint_string: String::new() });
    assert_eq!(to_export_meta(&ops).err().unwrap(), "storage can not be set to false");

    let mut ops = no_ops();
    ops.range = Some("0,1".to_owned());
    ops.storage = Some(false);
    assert_eq!(to_export_meta(&ops).err().unwrap(), "storage is not compatible with range");
}

#[test]
fn field_plans() {
    let plan = field_plan(&FieldAttrs { is_public: true, has_export: true, is_signal: false });
    assert!(matches!(plan.metadata, MetadataPlan::Property));
    assert!(matches!(plan.signal, MetadataPlan::Nothing));
    assert!(plan.get_dispatch && plan.set_dispatch);

    let plan = field_plan(&FieldAttrs { is_public: false, has_export: true, is_signal: false });
    assert!(matches!(plan.metadata, MetadataPlan::Error("Only public fields can be exported!")));
    assert!(!plan.get_dispatch);

    let plan = field_plan(&FieldAttrs { is_public: true, has_export: true, is_signal: true });
    assert!(matches!(plan.metadata, MetadataPlan::Error("Signals can not be exported!")));
    assert!(matches!(plan.signal, MetadataPlan::Property));
    assert!(plan.get_dispatch && !plan.set_dispatch);

    let plan = field_plan(&FieldAttrs { is_public: false, has_export: false, is_signal: true });
    assert!(matches!(plan.signal, MetadataPlan::Error("Signals must be public!")));
    assert!(matches!(plan.metadata, MetadataPlan::Nothing));
}

#[test]
fn field_initialization() {
    assert!(default_field_init("base", false) == FieldInit::Base);
    assert!(default_field_init("hit", true) == FieldInit::Signal);
    assert!(default_field_init("speed", false) == FieldInit::Default);
}

#[test]
fn field_registration_steps() {
    let group = ExportGroup { name: "Movement".to_owned() };
    let subgroup = ExportSubgroup { name: "Air".to_owned() };
    let steps = field_registration("speed", &path("f64"), None, Some(&group), Some(&subgroup)).ok().unwrap();
    assert_eq!(steps.len(), 3);
    assert!(matches!(&steps[0], RegistrationStep::GroupHeader(h)
        if h.name == "Movement" && h.usage == PropertyUsageFlags::group() && h.ty == VariantType::Nil
            && h.hint == PropertyHint::none() && h.hint_string.is_empty() && h.description.is_empty()));
    assert!(matches!(&steps[1], RegistrationStep::SubgroupHeader(h)
        if h.name == "Air" && h.usage == PropertyUsageFlags::subgroup() && h.ty == VariantType::Nil));
    assert!(matches!(&steps[2], RegistrationStep::Plain(n, m)
        if n == "speed" && m.usage == PropertyUsageFlags::script_variable()
            && matches!(m.hint, HintArg::Bare(h) if h == PropertyHint::none())
            && matches!(&m.hint_string, HintStringArg::Bare(s) if s.is_empty())));

    let mut ops = no_ops();
    ops.multiline = true;
    let steps = field_registration("text", &path("GString"), Some(&ops), None, None).ok().unwrap();
    assert_eq!(steps.len(), 1);
    assert!(matches!(&steps[0], RegistrationStep::Exported(n, m) if n == "text" && m.field == "multiline"));

    let mut ops = no_ops();
    ops.flatten = true;
    let steps = field_registration("stats", &path("Stats"), Some(&ops), Some(&group), None).ok().unwrap();
    assert_eq!(steps.len(), 1);
    assert!(matches!(&steps[0], RegistrationStep::PropertyGroup(p) if p == "stats_"));

    let mut ops = no_ops();
    ops.storage = Some(false);
    assert_eq!(field_registration("x", &path("i64"), Some(&ops), None, None).err().unwrap(), "storage can not be set to false");

    // The field's type is checked before anything else, flattened or not.
    let mut ops = no_ops();
    ops.flatten = true;
    let slice = RustType { kind: TypeKind::Slice, text: "[u8]".to_owned() };
    assert_eq!(
        field_registration("data", &slice, Some(&ops), None, None).err().unwrap(),
        "\"[u8]\" is not a supported type"
    );
    let pair = RustType { kind: TypeKind::Tuple(2), text: "(i64, i64)".to_owned() };
    assert_eq!(
        field_registration("pair", &pair, None, Some(&group), None).err().unwrap(),
        "\"(i64, i64)\" is not a supported type"
    );
}

#[test]
fn enum_hint_strings() {
    assert_eq!(enum_property_hint_string(&strings(&["One", "Two", "Three"])), "One:0,Two:1,Three:2");
    assert_eq!(enum_property_hint_string(&Vec::new()), "");
    assert_eq!(enum_error_name("Direction"), "DirectionError");
}

#[test]
fn impl_target_names() {
    assert_eq!(extract_ident_from_type(&path("Player")).ok().unwrap(), "Player");
    assert_eq!(
        extract_ident_from_type(&RustType { kind: TypeKind::Reference, text: "&Player".to_owned() }).err().unwrap(),
        "References are not supported!"
    );
    assert_eq!(
        extract_ident_from_type(&RustType { kind: TypeKind::Tuple(2), text: "(A, B)".to_owned() }).err().unwrap(),
        "Tuples are not supported!"
    );
    assert_eq!(
        extract_ident_from_type(&RustType { kind: TypeKind::Paren, text: "(A)".to_owned() }).err().unwrap(),
        "Unsupported type!"
    );
}

#[test]
fn engine_compatible_types() {
    assert!(rust_to_variant_type(&path("i64")).is_ok());
    assert!(rust_to_variant_type(&RustType { kind: TypeKind::Tuple(0), text: "()".to_owned() }).is_ok());
    assert_eq!(
        rust_to_variant_type(&RustType { kind: TypeKind::Slice, text: "[u8]".to_owned() }).err().unwrap(),
        "\"[u8]\" is not a supported type"
    );
    assert_eq!(
        rust_to_variant_type(&RustType { kind: TypeKind::Verbatim, text: "?".to_owned() }).err().unwrap(),
        "not sure how to handle verbatim types yet!"
    );
}

#[test]
fn call_dispatch() {
    let methods = vec![
        ScriptMethodSig { name: "hidden".to_owned(), is_public: false, has_receiver: true, params: Vec::new() },
        ScriptMethodSig {
            name: "move_to".to_owned(),
            is_public: true,
            has_receiver: true,
            params: vec![path("i64"), path("Context"), path("f64")],
        },
        ScriptMethodSig { name: "move_to".to_owned(), is_public: true, has_receiver: true, params: Vec::new() },
        ScriptMethodSig {
            name: "jump".to_owned(),
            is_public: true,
            has_receiver: true,
            params: vec![path("f64"), path("Context")],
        },
    ];
    // Each argument is read at its parameter's position, the call context's
    // included: `f64` is the third parameter and needs three arguments.
    assert_eq!(required_args(&methods[1].params), 3);
    assert_eq!(required_args(&methods[3].params), 1);
    assert_eq!(required_args(&Vec::new()), 0);
    assert!(is_context_type(&path("Context")));
    assert!(!is_context_type(&path("Node")));
    assert!(dispatch_call(&methods, "move_to", 3) == Ok(1));
    assert!(dispatch_call(&methods, "move_to", 4) == Err(CallError::TooManyArguments));
    assert!(dispatch_call(&methods, "move_to", 2) == Err(CallError::TooFewArguments));
    assert!(dispatch_call(&methods, "move_to", 0) == Err(CallError::TooFewArguments));
    assert!(dispatch_call(&methods, "jump", 1) == Ok(3));
    assert!(dispatch_call(&methods, "jump", 2) == Ok(3));
    assert!(dispatch_call(&methods, "jump", 3) == Err(CallError::TooManyArguments));
    assert!(dispatch_call(&methods, "jump", 0) == Err(CallError::TooFewArguments));
    assert!(dispatch_call(&methods, "hidden", 0) == Err(CallError::InvalidMethod));
    assert!(dispatch_call(&methods, "missing", 0) == Err(CallError::InvalidMethod));
    assert!(check_call_args(1, 1, 1) == Ok(()));
    assert!(check_call_args(2, 1, 1) == Err(CallError::TooManyArguments));
    assert!(check_call_args(0, 2, 1) == Err(CallError::TooFewArguments));
    assert_eq!(method_flags(true), MethodFlags::normal());
    assert_eq!(method_flags(false), MethodFlags::static_());
    assert_eq!(interface_trait_name("Player"), "IPlayer");
}

#[test]
fn property_group_routing() {
    let fields = vec![
        GroupField { name: "speed".to_owned(), flattened: false },
        GroupField { name: "stats".to_owned(), flattened: true },
    ];
    assert!(matches!(route_get(&fields, "speed"), PropertyRoute::Field(0)));
    assert!(matches!(route_set(&fields, "speed"), PropertyRoute::Field(0)));
    assert!(matches!(route_get(&fields, "stats_health"), PropertyRoute::Nested(1, ref rest) if rest == "health"));
    assert!(matches!(route_set(&fields, "stats_health"), PropertyRoute::Nested(1, ref rest) if rest == "health"));
    assert!(matches!(route_get(&fields, "stats_stats_x"), PropertyRoute::Nested(1, ref rest) if rest == "x"));
    assert!(matches!(route_set(&fields, "stats_stats_x"), PropertyRoute::Nested(1, ref rest) if rest == "stats_x"));
    assert!(matches!(route_get(&fields, "stats"), PropertyRoute::Unknown));
    assert!(matches!(route_set(&fields, "other"), PropertyRoute::Unknown));
    assert_eq!(derived_group_name(), "Property Group");
}

#[test]
fn property_group_field_errors() {
    assert_eq!(
        group_field_errors(true, Some(""), false, true),
        vec!["Adding the #[export] attribute without additional parameters is useless inside ScriptExportGroups"]
    );
    assert_eq!(group_field_errors(true, Some(""), true, false), vec!["Flattening is not supported here"]);
    assert!(group_field_errors(true, Some("range"), false, false).is_empty());
    assert!(group_field_errors(false, Some(""), true, false).is_empty());
    assert!(group_field_errors(true, None, true, false).is_empty());
}

#[test]
fn group_entries() {
    let mut flatten = no_ops();
    flatten.flatten = true;
    assert!(matches!(group_entry_plan("stats", &path("Stats"), true, &flatten, true),
        Ok(GroupEntryPlan::Subgroup { ref name, description: "" }) if name == "stats"));
    assert_eq!(
        group_entry_plan("stats", &path("Stats"), true, &flatten, false).err().unwrap(),
        vec!["Flattening is not supported here".to_owned()]
    );

    let mut ranged = no_ops();
    ranged.range = Some("0,10".to_owned());
    assert!(matches!(group_entry_plan("level", &path("u32"), true, &ranged, true),
        Ok(GroupEntryPlan::Property { ref name, ref meta }) if name == "level" && meta.field == "range"));

    let slice = RustType { kind: TypeKind::Slice, text: "[u8]".to_owned() };
    let mut refused = no_ops();
    refused.dir = true;
    refused.multiline = true;
    assert_eq!(
        group_entry_plan("x", &slice, true, &refused, true).err().unwrap(),
        vec!["\"[u8]\" is not a supported type".to_owned(), "multiline is not compatible with dir".to_owned()]
    );
    assert_eq!(
        group_entry_plan("x", &slice, true, &no_ops(), true).err().unwrap(),
        vec![
            "\"[u8]\" is not a supported type".to_owned(),
            "Adding the #[export] attribute without additional parameters is useless inside ScriptExportGroups".to_owned(),
        ]
    );
    assert!(matches!(group_entry_plan("plain", &path("u8"), false, &no_ops(), true),
        Ok(GroupEntryPlan::Property { ref meta, .. }) if meta.field.is_empty()));
}

#[test]
fn signal_attributes() {
    assert!(matches!(signal_attribute_plan(SignalAttr::Path), Ok(None)));
    assert_eq!(
        signal_attribute_plan(SignalAttr::List(strings(&["Expected", "Actual"]))).ok().unwrap(),
        Some(strings(&["Expected", "Actual"]))
    );
    assert_eq!(
        signal_attribute_plan(SignalAttr::NameValue).err().unwrap(),
        "Signal attribute does not support assigning a value!"
    );
    assert!(signal_names_fit(&strings(&["a", "b"]), 2));
    assert!(!signal_names_fit(&strings(&["a"]), 2));
}

#[test]
fn script_class() {
    let plan = script_class_plan("Player", None, false, &Vec::new());
    assert_eq!(plan.class_name, "Player");
    assert_eq!(plan.base_class, "RefCounted");
    assert!(!plan.is_tool);
    assert_eq!(plan.description, "");
    let plan = script_class_plan("Mob", Some("Node3D".to_owned()), true, &strings(&[" A mob.", " It walks."]));
    assert_eq!(plan.base_class, "Node3D");
    assert!(plan.is_tool);
    assert_eq!(plan.description, " A mob.\n It walks.");
}

#[test]
fn plain_fields_and_headers() {
    let meta = plain_field_metadata();
    assert_eq!(meta.field, "");
    assert_eq!(meta.usage.bits, 4096);
    let header = export_header("Looks", PropertyUsageFlags::group());
    assert_eq!(header.name, "Looks");
    assert_eq!(header.ty, VariantType::Nil);
    assert_eq!(header.usage.bits, 64);
}

#[test]
fn impl_method_registrations() {
    let unit = RustType { kind: TypeKind::Tuple(0), text: "()".to_owned() };
    let methods = vec![
        ImplMethod {
            sig: ScriptMethodSig { name: "hidden".to_owned(), is_public: false, has_receiver: true, params: Vec::new() },
            return_type: RustType { kind: TypeKind::Slice, text: "[u8]".to_owned() },
            doc_lines: Vec::new(),
        },
        ImplMethod {
            sig: ScriptMethodSig {
                name: "attack".to_owned(),
                is_public: true,
                has_receiver: true,
                params: vec![path("i64"), path("Context")],
            },
            return_type: path("bool"),
            doc_lines: strings(&[" Hits.", " Hard."]),
        },
        ImplMethod {
            sig: ScriptMethodSig { name: "spawn".to_owned(), is_public: true, has_receiver: false, params: Vec::new() },
            return_type: unit,
            doc_lines: Vec::new(),
        },
    ];
    let regs = method_registrations(methods).ok().unwrap();
    assert_eq!(regs.len(), 2);
    assert_eq!(regs[0].name, "attack");
    assert_eq!(regs[0].arguments.len(), 1);
    assert_eq!(regs[0].arguments[0].text, "i64");
    assert_eq!(regs[0].flags, MethodFlags::normal());
    assert_eq!(regs[0].description, " Hits.\n Hard.");
    assert_eq!(regs[1].flags, MethodFlags::static_());
    assert_eq!(regs[1].description, "");

    let failing = vec![ImplMethod {
        sig: ScriptMethodSig { name: "bad".to_owned(), is_public: true, has_receiver: true, params: Vec::new() },
        return_type: RustType { kind: TypeKind::Slice, text: "[u8]".to_owned() },
        doc_lines: Vec::new(),
    }];
    assert_eq!(method_registrations(failing).err().unwrap(), "\"[u8]\" is not a supported type");
}

#[test]
fn public_interface_of_a_script() {
    let methods = vec![
        ScriptMethodSig { name: "secret".to_owned(), is_public: false, has_receiver: true, params: Vec::new() },
        ScriptMethodSig {
            name: "attack".to_owned(),
            is_public: true,
            has_receiver: true,
            params: vec![path("Context"), path("i64"), path("Gd")],
        },
        ScriptMethodSig { name: "create".to_owned(), is_public: true, has_receiver: false, params: vec![path("f32")] },
    ];
    let interface = public_interface(methods);
    assert_eq!(interface.len(), 2);
    assert_eq!(interface[0].name, "attack");
    assert!(interface[0].has_receiver);
    let texts: Vec<&str> = interface[0].params.iter().map(|p| p.text.as_str()).collect();
    assert_eq!(texts, vec!["i64", "Gd"]);
    assert_eq!(interface[1].name, "create");
    assert!(!interface[1].has_receiver);
    assert_eq!(interface[1].params.len(), 1);
}

#[test]
fn field_descriptions_join_doc_lines() {
    assert_eq!(field_description(&Vec::new()), None);
    assert_eq!(field_description(&strings(&[" first"])), Some(" first".to_owned()));
    assert_eq!(field_description(&strings(&[" first", " second"])), Some(" first\n second".to_owned()));
}

#[test]
fn interface_calls_supply_the_expected_arguments() {
    let sig = |params: Vec<RustType>| ScriptMethodSig { name: "attack".to_owned(), is_public: true, has_receiver: true, params };
    let methods = vec![sig(vec![path("i64"), path("Gd"), path("Context")])];
    let given = public_interface(vec![sig(vec![path("i64"), path("Gd"), path("Context")])])[0].params.len();
    assert_eq!(given, required_args(&methods[0].params));
    assert!(dispatch_call(&methods, "attack", given) == Ok(0));

    // With the call context first, the interface passes one argument too few.
    let methods = vec![sig(vec![path("Context"), path("i64")])];
    let given = public_interface(vec![sig(vec![path("Context"), path("i64")])])[0].params.len();
    assert_eq!(given, 1);
    assert!(dispatch_call(&methods, "attack", given) == Err(CallError::TooFewArguments));
}

fn script_field(name: &str, is_public: bool, is_signal: bool, flattened: bool) -> ScriptField {
    ScriptField {
        name: name.to_owned(),
        attrs: FieldAttrs { is_public, has_export: flattened, is_signal },
        flattened,
        getter: None,
        setter: None,
    }
}

#[test]
fn script_field_routes() {
    let mut speed = script_field("speed", true, false, false);
    speed.getter = Some("current_speed".to_owned());
    let mut health = script_field("health", true, false, false);
    health.setter = Some("set_health".to_owned());
    let fields = vec![
        script_field("secret", false, false, false),
        speed,
        health,
        script_field("died", true, true, false),
        script_field("stats", true, false, true),
        script_field("base", true, false, false),
    ];

    assert!(matches!(field_get_route(&fields, "secret"), FieldAccess::Nothing));
    assert!(matches!(field_set_route(&fields, "secret"), FieldAccess::Nothing));
    assert!(matches!(field_get_route(&fields, "speed"), FieldAccess::Accessor(1, g) if g == "current_speed"));
    assert!(matches!(field_set_route(&fields, "speed"), FieldAccess::Value(1)));
    assert!(matches!(field_get_route(&fields, "health"), FieldAccess::Value(2)));
    assert!(matches!(field_set_route(&fields, "health"), FieldAccess::Accessor(2, s) if s == "set_health"));
    // A public signal can be read but not written.
    assert!(matches!(field_get_route(&fields, "died"), FieldAccess::Value(3)));
    assert!(matches!(field_set_route(&fields, "died"), FieldAccess::Nothing));
    // A flattened field's group is asked with the rest of the name: reading
    // drops every leading prefix, writing drops one.
    assert!(matches!(field_get_route(&fields, "stats_stats_hp"), FieldAccess::Group(4, n) if n == "hp"));
    assert!(matches!(field_set_route(&fields, "stats_stats_hp"), FieldAccess::Group(4, n) if n == "stats_hp"));
    assert!(matches!(field_get_route(&fields, "stats"), FieldAccess::Nothing));
    assert!(matches!(field_get_route(&fields, "base"), FieldAccess::Value(5)));
    assert!(matches!(field_get_route(&fields, "missing"), FieldAccess::Nothing));

    assert!(field_set_answer(&FieldAccess::Value(1), true, false));
    assert!(!field_set_answer(&FieldAccess::Value(1), false, true));
    assert!(field_set_answer(&FieldAccess::Accessor(2, "set_health".to_owned()), true, false));
    assert!(!field_set_answer(&FieldAccess::Group(4, "hp".to_owned()), true, false));
    assert!(field_set_answer(&FieldAccess::Group(4, "hp".to_owned()), false, true));
    assert!(!field_set_answer(&FieldAccess::Nothing, true, true));
}

#[test]
fn derived_enum_numbering() {
    // Three variants: positions 0, 1 and 2 are their values, and read back.
    for i in 0..3usize {
        let v = derived_enum_value(i);
        assert_eq!(v as usize, i);
        assert!(matches!(derived_enum_variant(3, v), Ok(j) if j == i));
    }
    let err = derived_enum_variant(3, 3).err().unwrap();
    assert_eq!(err.value, 3);
    assert_eq!(err.message(), "Enum value 3 is out of range.");
    assert_eq!(derived_enum_variant(3, 255).err().unwrap().value, 255);
    assert!(derived_enum_variant(0, 0).is_err());
    assert!(matches!(derived_enum_variant(256, 255), Ok(255)));
    // Past 256 variants the positions wrap around.
    assert_eq!(derived_enum_value(256), 0);

    let names = strings(&["North", "South"]);
    assert_eq!(derived_enum_export_hint(true, &names), Some("North:0,South:1".to_owned()));
    assert_eq!(derived_enum_export_hint(false, &names), None);
}
