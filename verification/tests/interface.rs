use godot_rust_script::apply::Apply;
use godot_rust_script::editor_ui_hacks::{should_show_toast, EditorToasterSeverity};
use godot_rust_script::engine_types::{ClassId, PropertyHint, PropertyUsageFlags, VariantType};
use godot_rust_script::interface::cast::{validate_script, AttachedScript, EnumValueOutOfRange, GodotScriptCastError, GodotScriptEnum};
use godot_rust_script::interface::export::{
    array_export_hint, array_export_hint_string, default_export_hint, default_export_hint_string,
    object_export_hint, object_export_hint_string,
};
use godot_rust_script::interface::on_editor::OnEditor;
use godot_rust_script::interface::property_group::{
    group_enable_property, group_enable_state_key, is_group_enable_property, optional_group_get,
    optional_group_properties, optional_group_set, optional_group_write, PropertyGroupBuilder, PropertySubgroupBuilder, SwitchedGet,
    SwitchedSet,
};
use godot_rust_script::interface::signals::{
    object_argument_name, signal_argument_descs, single_argument_name, tuple_argument_names,
};
use godot_rust_script::scripts::ScriptEnum;
use godot_rust_script::static_script_registry::RustScriptPropDesc;

fn prop(name: &str, ty: VariantType) -> RustScriptPropDesc {
    RustScriptPropDesc {
        name: name.to_owned(),
        ty,
        class_name: ClassId::none(),
        usage: PropertyUsageFlags::exported(),
        hint: PropertyHint::none(),
        hint_string: String::new(),
        description: "",
    }
}

#[test]
fn group_lists_header_then_prefixed_properties() {
    let sub = PropertySubgroupBuilder::new("Details", 1).add_property(prop("depth", VariantType::Int));
    let group = PropertyGroupBuilder::new("Movement", 3)
        .add_property(prop("speed", VariantType::Float))
        .add_subgroup("extra", "more settings", sub)
        .add_property(prop("jump", VariantType::Bool));
    let entries = group.build("move_", "how it moves");

    let names: Vec<&str> = entries.iter().map(|e| e.name.as_str()).collect();
    assert_eq!(names, vec!["Movement", "move_speed", "Details", "move_extra_depth", "move_jump"]);
    assert_eq!(entries[0].usage, PropertyUsageFlags::group());
    assert_eq!(entries[0].hint_string, "move_");
    assert_eq!(entries[0].ty, VariantType::Nil);
    assert_eq!(entries[0].description, "how it moves");
    assert_eq!(entries[2].usage, PropertyUsageFlags::subgroup());
    assert_eq!(entries[2].hint_string, "move_extra_");
    assert_eq!(entries[2].description, "more settings");
    assert_eq!(entries[3].ty, VariantType::Int);
}

#[test]
fn subgroup_alone() {
    let entries = PropertySubgroupBuilder::new("Colors", 2)
        .add_property(prop("fg", VariantType::Color))
        .add_property(prop("bg", VariantType::Color))
        .build("colors_", "");
    assert_eq!(entries.len(), 3);
    assert_eq!(entries[0].name, "Colors");
    assert_eq!(entries[1].name, "colors_fg");
    assert_eq!(entries[2].name, "colors_bg");
}

#[test]
fn optional_group_gets_a_switch() {
    let group = optional_group_properties(PropertyGroupBuilder::new("Shield", 1).add_property(prop("strength", VariantType::Int)));
    let entries = group.build("shield_", "");
    assert_eq!(entries.len(), 3);
    assert_eq!(entries[2].name, "shield_enable");
    assert_eq!(entries[2].ty, VariantType::Bool);
    assert_eq!(entries[2].hint, PropertyHint::group_enable());
    let switch = group_enable_property();
    assert_eq!(switch.usage, PropertyUsageFlags::exported());
    assert!(is_group_enable_property("enable"));
    assert!(!is_group_enable_property("shield_enable"));
    assert_eq!(group_enable_state_key("shield"), "shield_enable");
}

#[test]
fn export_hints() {
    assert_eq!(default_export_hint(None), PropertyHint::none());
    assert_eq!(default_export_hint(Some(PropertyHint::range())), PropertyHint::range());
    assert_eq!(default_export_hint_string(None), "");
    assert_eq!(default_export_hint_string(Some("1,2".to_owned())), "1,2");
    assert_eq!(object_export_hint(None, true, false), PropertyHint::node_type());
    assert_eq!(object_export_hint(None, false, true), PropertyHint::resource_type());
    assert_eq!(object_export_hint(None, false, false), PropertyHint::none());
    assert_eq!(object_export_hint(Some(PropertyHint::file()), true, false), PropertyHint::file());
    assert_eq!(object_export_hint_string(None, "Node3D"), "Node3D");
    assert_eq!(object_export_hint_string(Some("Custom".to_owned()), "Node3D"), "Custom");
    assert_eq!(array_export_hint(None), PropertyHint::array_type());
}

#[test]
fn array_hint_string_uses_engine_numbers() {
    assert_eq!(array_export_hint_string(VariantType::Object, PropertyHint::node_type(), "Node3D"), "24/34:Node3D");
    assert_eq!(array_export_hint_string(VariantType::Int, PropertyHint::none(), ""), "2/0:");
    assert_eq!(array_export_hint_string(VariantType::Max, PropertyHint::group_enable(), "x"), "39/42:x");
}

#[test]
fn signal_argument_names() {
    let given = vec!["first", "second"];
    assert_eq!(tuple_argument_names(Some(&given), 2), vec!["first".to_owned(), "second".to_owned()]);
    assert_eq!(
        tuple_argument_names(None, 3),
        vec!["A1".to_owned(), "A2".to_owned(), "A3".to_owned()]
    );
    let one = vec!["value"];
    assert_eq!(single_argument_name(Some(&one)), "value");
    assert_eq!(single_argument_name(None), "0");
    let empty: Vec<&'static str> = Vec::new();
    assert_eq!(object_argument_name(Some(&empty)), "0");
    assert_eq!(object_argument_name(Some(&one)), "value");
    assert_eq!(object_argument_name(None), "0");
}

#[test]
fn signal_argument_descriptions() {
    let names = vec!["target".to_owned(), "amount".to_owned()];
    let types = vec![(VariantType::Object, ClassId::from_name("Node")), (VariantType::Int, ClassId::none())];
    let descs = signal_argument_descs(&names, &types);
    assert_eq!(descs.len(), 2);
    assert_eq!(descs[0].name, "target");
    assert_eq!(descs[0].class_name.to_str(), "Node");
    assert_eq!(descs[1].ty, VariantType::Int);
    assert_eq!(descs[1].usage, PropertyUsageFlags::none());
    assert_eq!(descs[1].hint, PropertyHint::none());
}

#[test]
fn cast_checks_the_attached_script() {
    assert!(validate_script(
        AttachedScript::RustScript { class_name: "Player".to_owned() },
        "Player"
    )
    .is_none());
    assert_eq!(
        validate_script(AttachedScript::Empty, "Player").unwrap().message(),
        "Object has no script attached!"
    );
    assert_eq!(
        validate_script(AttachedScript::Other, "Player").unwrap().message(),
        "Script attached to object is not a RustScript!"
    );
    let mismatch = validate_script(
        AttachedScript::RustScript { class_name: "Enemy".to_owned() },
        "Player",
    )
    .unwrap();
    assert!(matches!(mismatch, GodotScriptCastError::ClassMismatch("Player", _)));
    assert_eq!(
        mismatch.message(),
        "Script attached to object does not match expected script class `Player` but found `Enemy`!"
    );
}

#[test]
fn script_enum_round_trip() {
    for variant in [ScriptEnum::One, ScriptEnum::Two, ScriptEnum::Three] {
        let value = variant.to_godot();
        assert_eq!(ScriptEnum::try_from_godot(value).ok(), Some(variant));
    }
    assert_eq!(ScriptEnum::Three.to_godot(), 2);
    let err = ScriptEnum::try_from_godot(3).err().unwrap();
    assert_eq!(err.value, 3);
    assert_eq!(err.message(), "Enum value 3 is out of range.");
    assert_eq!(EnumValueOutOfRange { value: 255 }.message(), "Enum value 255 is out of range.");
    assert_eq!(ScriptEnum::default(), ScriptEnum::One);
}

#[test]
fn script_enum_export_hint() {
    assert_eq!(ScriptEnum::hint(None), PropertyHint::enum_());
    assert_eq!(ScriptEnum::hint(Some(PropertyHint::flags())), PropertyHint::flags());
    assert_eq!(ScriptEnum::hint_string(None), "One:0,Two:1,Three:2");
    assert_eq!(ScriptEnum::hint_string(Some("A,B".to_owned())), "A,B");
}

#[test]
fn on_editor_holds_what_the_editor_sets() {
    let mut value: OnEditor<i32> = OnEditor::new();
    assert!(!value.is_initialized());
    assert_eq!(value.var_get(), None);
    value.var_set(Some(4));
    assert!(value.is_initialized());
    assert_eq!(value.var_get(), Some(&4));
    assert_eq!(*value.get(), 4);
    *value.get_mut() += 1;
    assert_eq!(*value.get(), 5);
    value.var_set(None);
    assert!(!value.is_initialized());
    let fresh: OnEditor<String> = OnEditor::default();
    assert!(fresh.var_get().is_none());
}

#[test]
fn apply_runs_the_closure() {
    let v = vec![1, 2].apply(|mut v| {
        v.push(3);
        v
    });
    assert_eq!(v, vec![1, 2, 3]);
}

#[test]
fn toast_severity_code() {
    assert_eq!(u8::from(EditorToasterSeverity::Warning), 1);
    assert!(should_show_toast(true));
    assert!(!should_show_toast(false));
}

#[test]
fn optional_group_switch() {
    assert!(optional_group_get("enable", true) == SwitchedGet::Switch(true));
    assert!(optional_group_get("enable", false) == SwitchedGet::Switch(false));
    assert!(optional_group_get("strength", true) == SwitchedGet::Inner);
    assert!(optional_group_get("strength", false) == SwitchedGet::Nothing);
    assert!(optional_group_set("enable", true, false) == SwitchedSet::Enable);
    assert!(optional_group_set("enable", false, true) == SwitchedSet::Disable);
    assert!(optional_group_set("strength", true, true) == SwitchedSet::Inner);
    assert!(optional_group_set("strength", true, false) == SwitchedSet::Refuse);
}

#[test]
fn optional_group_writes() {
    // Switching on resets an existing group to the fresh one.
    let mut group: Option<u32> = Some(7);
    assert_eq!(optional_group_write(&mut group, "enable", true, Some(0)), Some(true));
    assert_eq!(group, Some(0));
    assert!(optional_group_get("enable", group.is_some()) == SwitchedGet::Switch(true));

    // Switching off drops it, and then its properties read as nothing.
    assert_eq!(optional_group_write(&mut group, "enable", false, None), Some(true));
    assert_eq!(group, None);
    assert!(optional_group_get("enable", group.is_some()) == SwitchedGet::Switch(false));
    assert!(optional_group_get("strength", group.is_some()) == SwitchedGet::Nothing);

    // A write to a disabled group is refused.
    assert_eq!(optional_group_write(&mut group, "strength", false, None), Some(false));
    assert_eq!(group, None);

    // A write to an enabled group is left to the inner group.
    let mut group: Option<u32> = Some(3);
    assert_eq!(optional_group_write(&mut group, "strength", false, None), None);
    assert_eq!(group, Some(3));
}
