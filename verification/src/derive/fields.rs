//! How the fields of a script struct take part in the script: which are
//! registered as properties or signals, which the engine may read and
//! write, and how a new instance initializes them.
use vstd::prelude::*;

use crate::derive::attribute_ops::{
    export_meta_spec, to_export_meta, ExportGroup, ExportMetadata, ExportMetadataView, ExportSubgroup,
    FieldExportOps, HintArg, HintArgView, HintStringArg, HintStringArgView,
};
use crate::engine_types::{
    hint_none, usage_group, usage_script_variable, usage_subgroup, ClassId, PropertyHint,
    PropertyUsageFlags, VariantType,
};
use crate::derive::impl_attribute::{rust_to_variant_type, variant_type_check, RustType};
use crate::derive::property_group::{
    field_matches, matches_field, nested_get_name, nested_set_name, trim_start, GroupField,
};
use crate::interface::property_group::group_header;
use crate::text::is_prefix;
use crate::static_script_registry::RustScriptPropDesc;
use crate::text::{concat_str, join_strings, join_with, str_eq, strings_view};

verus! {

/// What the derive reads of a field: whether it is public (or marked with
/// `#[prop]`), whether it carries `#[export(..)]` and whether `#[signal]`.
pub struct FieldAttrs {
    pub is_public: bool,
    pub has_export: bool,
    pub is_signal: bool,
}

/// How a field's metadata is registered.
pub enum MetadataPlan {
    /// The field is not registered as a property.
    Nothing,
    /// The field is registered as a property.
    Property,
    /// The field's attributes are rejected with this message.
    Error(&'static str),
}

/// How a field takes part in the script.
pub struct FieldPlan {
    pub metadata: MetadataPlan,
    pub signal: MetadataPlan,
    /// The engine may read the field.
    pub get_dispatch: bool,
    /// The engine may write the field, and its value is part of the
    /// script's saved state.
    pub set_dispatch: bool,
}

/// The plan for a field with the given attributes: only public fields are
/// registered; a signal is registered as a signal, not as a property, and
/// may not be exported; every public field can be read, every public field
/// that is not a signal can be written.
pub open spec fn field_plan_spec(a: FieldAttrs) -> (MetadataPlan, MetadataPlan, bool, bool) {
    let metadata = if !a.is_public && a.has_export {
        MetadataPlan::Error("Only public fields can be exported!")
    } else if a.is_public && a.has_export && a.is_signal {
        MetadataPlan::Error("Signals can not be exported!")
    } else if a.is_public && !a.is_signal {
        MetadataPlan::Property
    } else {
        MetadataPlan::Nothing
    };
    let signal = if a.is_signal && a.is_public {
        MetadataPlan::Property
    } else if a.is_signal {
        MetadataPlan::Error("Signals must be public!")
    } else {
        MetadataPlan::Nothing
    };
    (metadata, signal, a.is_public, a.is_public && !a.is_signal)
}

pub fn field_plan(a: &FieldAttrs) -> (r: FieldPlan)
    ensures
        (r.metadata, r.signal, r.get_dispatch, r.set_dispatch) == field_plan_spec(*a),
{
    let metadata = match (a.is_public, a.has_export, a.is_signal) {
        (false, false, _) | (true, false, true) => MetadataPlan::Nothing,
        (false, true, _) => MetadataPlan::Error("Only public fields can be exported!"),
        (true, _, false) => MetadataPlan::Property,
        (true, true, true) => MetadataPlan::Error("Signals can not be exported!"),
    };
    let signal = match (a.is_public, a.is_signal) {
        (false, false) | (true, false) => MetadataPlan::Nothing,
        (true, true) => MetadataPlan::Property,
        (false, true) => MetadataPlan::Error("Signals must be public!"),
    };
    FieldPlan {
        metadata,
        signal,
        get_dispatch: a.is_public,
        set_dispatch: a.is_public && !a.is_signal,
    }
}

/// A field is registered as a property exactly when it is public and not a
/// signal, whether it is exported or not, and those are exactly the fields
/// that the engine can write; a signal is registered as a signal exactly
/// when it is public. `#[export]` on a private field or on a signal, and
/// `#[signal]` on a private field, are rejected; every public field can be
/// read.
pub proof fn law_public_fields_are_properties(a: FieldAttrs)
    ensures
        field_plan_spec(a).0 is Property <==> a.is_public && !a.is_signal,
        field_plan_spec(a).0 is Property <==> field_plan_spec(a).3,
        field_plan_spec(a).1 is Property <==> a.is_public && a.is_signal,
        field_plan_spec(a).0 is Error <==> a.has_export && (!a.is_public || a.is_signal),
        field_plan_spec(a).1 is Error <==> !a.is_public && a.is_signal,
        field_plan_spec(a).2 <==> a.is_public,
{
}

/// What the derived `get` and `set` of a script read of a field: its name,
/// its attributes, whether `#[export(flatten)]` makes it a nested property
/// group, and the custom accessors of `#[prop(get = ..)]` and
/// `#[prop(set = ..)]`.
pub struct ScriptField {
    pub name: String,
    pub attrs: FieldAttrs,
    pub flattened: bool,
    pub getter: Option<String>,
    pub setter: Option<String>,
}

/// Where the derived `get` or `set` of a script takes a property name.
pub enum FieldAccess {
    /// The value of the field at this position.
    Value(usize),
    /// The custom accessor, with this name, of the field at this position.
    Accessor(usize, String),
    /// The nested group of the flattened field at this position, with this
    /// property name.
    Group(usize, String),
    /// No field: `get` gives no value, `set` answers `false`.
    Nothing,
}

/// The field `f` takes part in `set` (when `writing`) or in `get`: every
/// public field can be read, every public field that is not a signal can
/// be written (see `field_plan_spec`).
pub open spec fn dispatches(f: ScriptField, writing: bool) -> bool {
    f.attrs.is_public && (writing ==> !f.attrs.is_signal)
}

pub open spec fn group_field_of(f: ScriptField) -> GroupField {
    GroupField { name: f.name, flattened: f.flattened }
}

/// `name` reaches the field `f` through `get` (or through `set`, when
/// `writing`): `f` takes part, and `name` is its name or, for a flattened
/// field, starts with its name and `_`.
pub open spec fn reaches(f: ScriptField, name: Seq<char>, writing: bool) -> bool {
    dispatches(f, writing) && field_matches(group_field_of(f), name)
}

/// The field at `i` is the first that `name` reaches.
pub open spec fn first_reached(fields: Seq<ScriptField>, name: Seq<char>, writing: bool, i: int) -> bool {
    &&& 0 <= i < fields.len()
    &&& reaches(fields[i], name, writing)
    &&& forall|j: int| 0 <= j < i ==> !reaches(#[trigger] fields[j], name, writing)
}

fn first_reached_field(fields: &Vec<ScriptField>, name: &str, writing: bool) -> (r: Option<usize>)
    ensures
        match r {
            Some(i) => first_reached(fields@, name@, writing, i as int),
            None => forall|j: int| 0 <= j < fields@.len() ==> !reaches(#[trigger] fields@[j], name@, writing),
        },
{
    let mut i: usize = 0;
    while i < fields.len()
        invariant
            i <= fields.len(),
            forall|j: int| 0 <= j < i ==> !reaches(#[trigger] fields@[j], name@, writing),
        decreases fields.len() - i,
    {
        let f = &fields[i];
        if f.attrs.is_public && (!writing || !f.attrs.is_signal) {
            let g = GroupField { name: f.name.clone(), flattened: f.flattened };
            if matches_field(&g, name) {
                return Some(i);
            }
        }
        i = i + 1;
    }
    None
}

/// Where the derived `get` of a script takes the property `name`: the
/// first public field that it reaches gives its value, or its getter's
/// result where it has one; a flattened field's group is asked for the
/// name without every leading `<field>_`. No field: no value.
pub fn field_get_route(fields: &Vec<ScriptField>, name: &str) -> (r: FieldAccess)
    ensures
        match r {
            FieldAccess::Value(i) => first_reached(fields@, name@, false, i as int)
                && !fields@[i as int].flattened && fields@[i as int].getter is None,
            FieldAccess::Accessor(i, g) => first_reached(fields@, name@, false, i as int)
                && !fields@[i as int].flattened && fields@[i as int].getter == Some(g),
            FieldAccess::Group(i, rest) => first_reached(fields@, name@, false, i as int)
                && fields@[i as int].flattened
                && rest@ == trim_start(name@, fields@[i as int].name@ + seq!['_']),
            FieldAccess::Nothing => forall|j: int| 0 <= j < fields@.len() ==> !reaches(#[trigger] fields@[j], name@, false),
        },
{
    match first_reached_field(fields, name, false) {
        None => FieldAccess::Nothing,
        Some(i) => {
            let f = &fields[i];
            if f.flattened {
                FieldAccess::Group(i, nested_get_name(f.name.as_str(), name))
            } else {
                match &f.getter {
                    Some(g) => FieldAccess::Accessor(i, g.clone()),
                    None => FieldAccess::Value(i),
                }
            }
        },
    }
}

/// Where the derived `set` of a script takes the property `name`: the
/// first public field that is not a signal and that it reaches takes the
/// value, through its setter where it has one; a flattened field's group
/// is given the name without its leading `<field>_`. No field: the write
/// is refused.
pub fn field_set_route(fields: &Vec<ScriptField>, name: &str) -> (r: FieldAccess)
    ensures
        match r {
            FieldAccess::Value(i) => first_reached(fields@, name@, true, i as int)
                && !fields@[i as int].flattened && fields@[i as int].setter is None,
            FieldAccess::Accessor(i, s) => first_reached(fields@, name@, true, i as int)
                && !fields@[i as int].flattened && fields@[i as int].setter == Some(s),
            FieldAccess::Group(i, rest) => first_reached(fields@, name@, true, i as int)
                && fields@[i as int].flattened
                && rest@ == name@.skip(fields@[i as int].name@.len() + 1int),
            FieldAccess::Nothing => forall|j: int| 0 <= j < fields@.len() ==> !reaches(#[trigger] fields@[j], name@, true),
        },
{
    match first_reached_field(fields, name, true) {
        None => FieldAccess::Nothing,
        Some(i) => {
            let f = &fields[i];
            if f.flattened {
                assert(is_prefix(fields@[i as int].name@ + seq!['_'], name@));
                FieldAccess::Group(i, nested_set_name(f.name.as_str(), name))
            } else {
                match &f.setter {
                    Some(s) => FieldAccess::Accessor(i, s.clone()),
                    None => FieldAccess::Value(i),
                }
            }
        },
    }
}

/// A read of a property reaches the field that a write of it reaches,
/// unless a signal field (which can be read but not written) catches the
/// name first; and every field that can be written can be read.
pub proof fn law_reads_reach_the_written_field(fields: Seq<ScriptField>, name: Seq<char>, i: int)
    requires
        first_reached(fields, name, true, i),
        forall|j: int| 0 <= j < fields.len() && #[trigger] reaches(fields[j], name, false) ==> !fields[j].attrs.is_signal,
    ensures
        first_reached(fields, name, false, i),
{
    assert forall|j: int| 0 <= j < i implies !reaches(#[trigger] fields[j], name, false) by {
        if reaches(fields[j], name, false) {
            assert(reaches(fields[j], name, true));
        }
    }
}

/// What the derived `set` answers: `true` when the value reached a field
/// (directly or through its setter) after converting to the field's type,
/// `false` when it does not convert or no field takes it; a nested group
/// answers for itself.
pub open spec fn set_answer(route: FieldAccess, converts: bool, group_answer: bool) -> bool {
    match route {
        FieldAccess::Value(_) => converts,
        FieldAccess::Accessor(_, _) => converts,
        FieldAccess::Group(_, _) => group_answer,
        FieldAccess::Nothing => false,
    }
}

/// The answer of the derived `set` for a write that took `route`;
/// `converts` tells whether the value converted to the field's type, and
/// `group_answer` is what a nested group answered.
pub fn field_set_answer(route: &FieldAccess, converts: bool, group_answer: bool) -> (r: bool)
    ensures
        r == set_answer(*route, converts, group_answer),
{
    match route {
        FieldAccess::Value(_) => converts,
        FieldAccess::Accessor(_, _) => converts,
        FieldAccess::Group(_, _) => group_answer,
        FieldAccess::Nothing => false,
    }
}

/// How a new script instance initializes a field.
#[derive(PartialEq, Eq, Structural)]
pub enum FieldInit {
    /// The field named `base` holds the object the script is attached to.
    Base,
    /// A signal field is bound to the object under the field's name.
    Signal,
    /// Every other field takes its default value.
    Default,
}

/// How a new instance initializes the field `name`.
pub fn default_field_init(name: &str, is_signal: bool) -> (r: FieldInit)
    ensures
        r == if name@ == "base"@ {
            FieldInit::Base
        } else if is_signal {
            FieldInit::Signal
        } else {
            FieldInit::Default
        },
{
    if str_eq(name, "base") {
        FieldInit::Base
    } else if is_signal {
        FieldInit::Signal
    } else {
        FieldInit::Default
    }
}

/// One step of registering a field's metadata.
pub enum RegistrationStep {
    /// Opens a property group: adds its header entry.
    GroupHeader(RustScriptPropDesc),
    /// Opens a property subgroup: adds its header entry.
    SubgroupHeader(RustScriptPropDesc),
    /// Adds the properties of a flattened group under this prefix.
    PropertyGroup(String),
    /// Adds a property that is not exported: a plain script variable, with
    /// the metadata of `plain_field_metadata`.
    Plain(String, ExportMetadata),
    /// Adds an exported property with the metadata its options select.
    Exported(String, ExportMetadata),
}

pub open spec fn flattened_steps(steps: Seq<RegistrationStep>, name: Seq<char>) -> bool {
    steps.len() == 1 && match steps[0] {
        RegistrationStep::PropertyGroup(prefix) => prefix@ == name + "_"@,
        _ => false,
    }
}

pub open spec fn header_count(group: Option<&ExportGroup>, subgroup: Option<&ExportSubgroup>) -> int {
    (if group is Some { 1int } else { 0 }) + (if subgroup is Some { 1int } else { 0 })
}

pub open spec fn ends_exported(steps: Seq<RegistrationStep>, name: Seq<char>, meta: crate::derive::attribute_ops::ExportMetadataView) -> bool {
    match steps.last() {
        RegistrationStep::Exported(n, m) => n@ == name && m@ == meta,
        _ => false,
    }
}

pub open spec fn ends_plain(steps: Seq<RegistrationStep>, name: Seq<char>) -> bool {
    match steps.last() {
        RegistrationStep::Plain(n, m) => n@ == name && m@ == plain_metadata_view(),
        _ => false,
    }
}

/// The metadata of a field without `#[export]`: a script variable that the
/// editor neither shows nor stores, with no hint and an empty hint string.
pub open spec fn plain_metadata_view() -> ExportMetadataView {
    ExportMetadataView {
        field: ""@,
        usage: usage_script_variable(),
        hint: HintArgView::Bare(hint_none()),
        hint_string: HintStringArgView::Bare(Seq::empty()),
    }
}

/// The metadata of a field without `#[export]`.
pub fn plain_field_metadata() -> (r: ExportMetadata)
    ensures
        r@ == plain_metadata_view(),
{
    ExportMetadata {
        field: "",
        usage: PropertyUsageFlags::script_variable(),
        hint: HintArg::Bare(PropertyHint::none()),
        hint_string: HintStringArg::Bare(String::new()),
    }
}

/// The header entry that `#[export_group(name = ..)]` (with `usage`
/// `GROUP`) or `#[export_subgroup(name = ..)]` (with `SUBGROUP`) adds: no
/// type, no class, no hint, an empty hint string and no description.
pub fn export_header(name: &str, usage: PropertyUsageFlags) -> (r: RustScriptPropDesc)
    ensures
        r@ == group_header(name@, usage.bits, Seq::empty(), ""@),
{
    let r = RustScriptPropDesc {
        name: name.to_owned(),
        ty: VariantType::Nil,
        class_name: ClassId::none(),
        usage,
        hint: PropertyHint::none(),
        hint_string: String::new(),
        description: "",
    };
    assert(r@ == group_header(name@, usage.bits, Seq::empty(), ""@));
    r
}

/// Unless the field is flattened, its group header comes first and its
/// subgroup header right after it.
pub open spec fn headers_first(
    steps: Seq<RegistrationStep>,
    group: Option<&ExportGroup>,
    subgroup: Option<&ExportSubgroup>,
    export_ops: Option<&FieldExportOps>,
) -> bool {
    let flattened = match export_ops {
        Some(ops) => ops.flatten,
        None => false,
    };
    !flattened ==> {
        &&& (match group {
            Some(g) => (match steps[0] {
                RegistrationStep::GroupHeader(h) => h@ == group_header(g.name@, usage_group(), Seq::empty(), ""@),
                _ => false,
            }),
            None => true,
        })
        &&& (match subgroup {
            Some(sg) => (match steps[if group is Some { 1int } else { 0 }] {
                RegistrationStep::SubgroupHeader(h) => h@ == group_header(sg.name@, usage_subgroup(), Seq::empty(), ""@),
                _ => false,
            }),
            None => true,
        })
    }
}

/// The steps that register a public, non-signal field `name` of type `ty`.
/// A field whose type cannot cross into the engine is rejected first, with
/// the message of `rust_to_variant_type`. A flattened field adds its
/// group's properties under the prefix `"<name>_"` and nothing else; any
/// other field adds the headers of its `#[export_group]` and
/// `#[export_subgroup]`, then itself.
pub fn field_registration(
    name: &str,
    ty: &RustType,
    export_ops: Option<&FieldExportOps>,
    group: Option<&ExportGroup>,
    subgroup: Option<&ExportSubgroup>,
) -> (r: Result<Vec<RegistrationStep>, String>)
    ensures
        match variant_type_check(*ty) {
            Err(e) => (r matches Err(msg) && msg@ == e),
            Ok(_) => match export_ops {
                Some(ops) if ops.flatten => (r matches Ok(steps) && flattened_steps(steps@, name@)),
                Some(ops) => match export_meta_spec(*ops) {
                    Err(e) => (r matches Err(msg) && msg@ == e),
                    Ok(meta) => (r matches Ok(steps) && steps@.len() == header_count(group, subgroup) + 1
                        && ends_exported(steps@, name@, meta)),
                },
                None => (r matches Ok(steps) && steps@.len() == header_count(group, subgroup) + 1
                    && ends_plain(steps@, name@)),
            },
        },
        r matches Ok(steps) ==> headers_first(steps@, group, subgroup, export_ops),
{
    if let Err(e) = rust_to_variant_type(ty) {
        return Err(e);
    }
    if let Some(ops) = export_ops {
        if ops.is_flatten() {
            let mut steps: Vec<RegistrationStep> = Vec::new();
            steps.push(RegistrationStep::PropertyGroup(concat_str(name, "_")));
            return Ok(steps);
        }
    }
    let mut steps: Vec<RegistrationStep> = Vec::new();
    if let Some(g) = group {
        steps.push(RegistrationStep::GroupHeader(export_header(g.name.as_str(), PropertyUsageFlags::group())));
    }
    if let Some(s) = subgroup {
        steps.push(RegistrationStep::SubgroupHeader(export_header(s.name.as_str(), PropertyUsageFlags::subgroup())));
    }
    match export_ops {
        None => {
            steps.push(RegistrationStep::Plain(name.to_owned(), plain_field_metadata()));
        },
        Some(ops) => match to_export_meta(ops) {
            Err(e) => {
                return Err(e);
            },
            Ok(meta) => {
                steps.push(RegistrationStep::Exported(name.to_owned(), meta));
            },
        },
    }
    Ok(steps)
}

/// The description of a field: the lines of its doc comment joined by line
/// breaks, or none when the field has no doc comment.
pub fn field_description(doc_lines: &Vec<String>) -> (r: Option<String>)
    ensures
        match r {
            None => doc_lines@.len() == 0,
            Some(d) => doc_lines@.len() > 0 && d@ == join_with(strings_view(doc_lines@), "\n"@),
        },
{
    if doc_lines.len() == 0 {
        None
    } else {
        Some(join_strings(doc_lines, "\n"))
    }
}

/// The form of a field's `#[signal]` attribute.
pub enum SignalAttr {
    /// `#[signal]`.
    Path,
    /// `#[signal("a", "b", ..)]`: the names of the signal's arguments.
    List(Vec<String>),
    /// `#[signal = ..]`, which is refused.
    NameValue,
}

/// The argument names that a `#[signal]` attribute gives: none for a bare
/// attribute, the listed names for a list, and an error for an assigned
/// value.
pub fn signal_attribute_plan(attr: SignalAttr) -> (r: Result<Option<Vec<String>>, &'static str>)
    ensures
        match attr {
            SignalAttr::Path => r matches Ok(None),
            SignalAttr::List(names) => r matches Ok(Some(v)) && v@ == names@,
            SignalAttr::NameValue => r matches Err(msg) && msg@ == "Signal attribute does not support assigning a value!"@,
        },
{
    match attr {
        SignalAttr::Path => Ok(None),
        SignalAttr::List(names) => Ok(Some(names)),
        SignalAttr::NameValue => Err("Signal attribute does not support assigning a value!"),
    }
}

/// Whether the argument names given in a `#[signal(..)]` attribute fit the
/// signal's `arg_count` arguments: one name per argument. A mismatch stops
/// the compilation with "argument names do not match number of arguments.".
pub fn signal_names_fit(names: &Vec<String>, arg_count: u8) -> (r: bool)
    ensures
        r == (names@.len() == arg_count as nat),
{
    names.len() == arg_count as usize
}

/// What the derive registers of a script struct itself.
pub struct ScriptClassPlan {
    /// The script's class name: the struct's name.
    pub class_name: String,
    /// The engine class that the script extends.
    pub base_class: String,
    /// Whether the script runs in the editor.
    pub is_tool: bool,
    /// The struct's doc comment, its lines joined by line breaks.
    pub description: String,
}

/// The class plan of the script struct `struct_name`: the given base class
/// or `RefCounted`, tool when `#[script(tool)]` is given, and the lines of
/// the struct's doc comment joined by line breaks (empty without one).
pub fn script_class_plan(struct_name: &str, base: Option<String>, tool: bool, doc_lines: &Vec<String>) -> (r: ScriptClassPlan)
    ensures
        r.class_name@ == struct_name@,
        r.base_class@ == match base {
            Some(b) => b@,
            None => "RefCounted"@,
        },
        r.is_tool == tool,
        r.description@ == join_with(strings_view(doc_lines@), "\n"@),
{
    let base_class = match base {
        Some(b) => b,
        None => "RefCounted".to_owned(),
    };
    let description = match field_description(doc_lines) {
        Some(d) => d,
        None => String::new(),
    };
    ScriptClassPlan { class_name: struct_name.to_owned(), base_class, is_tool: tool, description }
}

} // verus!
