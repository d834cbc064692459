//! What a script resource answers about its class: base type, signals,
//! methods, members and documentation, all looked up in the registry by
//! the script's class name.
use vstd::prelude::*;

use crate::engine_types::{usage_editor, PropertyUsageFlags};
use crate::interface::cast::AttachedScript;
use crate::runtime::metadata::{
    argument_docs_of, doc_type_of, Documented, MethodDoc, PropertyDoc,
};
use crate::runtime::registry::ScriptRegistry;
use crate::static_script_registry::{
    clone_methods, clone_props, clone_signals, methods_view, props_view, signals_view,
    MethodDescView, PropDescView, RustScriptMethodDesc, RustScriptPropDesc, RustScriptSignalDesc,
    SignalDescView,
};
use crate::text::str_eq;

verus! {

/// The engine class that instances of the script extend: the registered
/// base type, or `RefCounted` for a class that is not registered.
pub open spec fn instance_base_type<D>(registry: ScriptRegistry<D>, class_name: Seq<char>) -> Seq<char> {
    match registry.spec_get(class_name) {
        Some(m) => m.base_type_name@,
        None => "RefCounted"@,
    }
}

pub fn get_instance_base_type<D>(registry: &ScriptRegistry<D>, class_name: &str) -> (r: String)
    ensures
        r@ == instance_base_type(*registry, class_name@),
{
    match registry.get(class_name) {
        Some(m) => m.base_type_name(),
        None => "RefCounted".to_owned(),
    }
}

/// Whether the class `class_name` is a tool script, which runs in the
/// editor too: what its registration says; a class that is not registered
/// is none.
pub open spec fn script_is_tool<D>(registry: ScriptRegistry<D>, class_name: Seq<char>) -> bool {
    match registry.spec_get(class_name) {
        Some(m) => m.is_tool,
        None => false,
    }
}

pub fn is_tool_script<D>(registry: &ScriptRegistry<D>, class_name: &str) -> (r: bool)
    ensures
        r == script_is_tool(*registry, class_name@),
{
    match registry.get(class_name) {
        Some(m) => m.is_tool,
        None => false,
    }
}

/// Whether some signal in `signals` is named `name`.
pub open spec fn has_signal_named(signals: Seq<RustScriptSignalDesc>, name: Seq<char>) -> bool {
    exists|i: int| 0 <= i < signals.len() && #[trigger] signals[i].name@ == name
}

/// Whether some method in `methods` is named `name`.
pub open spec fn has_method_named(methods: Seq<RustScriptMethodDesc>, name: Seq<char>) -> bool {
    exists|i: int| 0 <= i < methods.len() && #[trigger] methods[i].name@ == name
}

/// Whether some signal in `signals` is named `name`.
pub fn contains_signal(signals: &Vec<RustScriptSignalDesc>, name: &str) -> (r: bool)
    ensures
        r == has_signal_named(signals@, name@),
{
    let mut i: usize = 0;
    while i < signals.len()
        invariant
            i <= signals.len(),
            forall|j: int| 0 <= j < i ==> signals@[j].name@ != name@,
        decreases signals.len() - i,
    {
        if str_eq(signals[i].name, name) {
            return true;
        }
        i = i + 1;
    }
    false
}

/// Whether the registered class `class_name` declares a signal `name`.
/// A class that is not registered declares none.
pub fn has_script_signal<D>(registry: &ScriptRegistry<D>, class_name: &str, name: &str) -> (r: bool)
    ensures
        r == (registry.spec_get(class_name@) matches Some(m) && has_signal_named(m.signals@, name@)),
{
    match registry.get(class_name) {
        None => false,
        Some(m) => contains_signal(m.signals(), name),
    }
}

/// The position of the first method in `methods` named `name`.
pub fn find_method(methods: &Vec<RustScriptMethodDesc>, name: &str) -> (r: Option<usize>)
    ensures
        match r {
            None => !has_method_named(methods@, name@),
            Some(i) => i < methods@.len() && methods@[i as int].name@ == name@
                && forall|j: int| 0 <= j < i ==> methods@[j].name@ != name@,
        },
{
    let mut i: usize = 0;
    while i < methods.len()
        invariant
            i <= methods.len(),
            forall|j: int| 0 <= j < i ==> methods@[j].name@ != name@,
        decreases methods.len() - i,
    {
        if str_eq(methods[i].name, name) {
            return Some(i);
        }
        i = i + 1;
    }
    None
}

/// Whether the registered class `class_name` declares a method `name`.
pub fn has_method<D>(registry: &ScriptRegistry<D>, class_name: &str, name: &str) -> (r: bool)
    ensures
        r == (registry.spec_get(class_name@) matches Some(m) && has_method_named(m.methods@, name@)),
{
    match registry.get(class_name) {
        None => false,
        Some(m) => find_method(m.methods(), name).is_some(),
    }
}

/// The first method named `name` of the registered class `class_name`.
pub fn get_method_info<D>(registry: &ScriptRegistry<D>, class_name: &str, name: &str) -> (r: Option<RustScriptMethodDesc>)
    ensures
        r is None <==> !(registry.spec_get(class_name@) matches Some(m) && has_method_named(m.methods@, name@)),
        r matches Some(d) ==> (registry.spec_get(class_name@) matches Some(m) && exists|i: int|
            #![trigger m.methods@[i]]
            0 <= i < m.methods@.len() && m.methods@[i]@ == d@
                && forall|j: int| 0 <= j < i ==> m.methods@[j].name@ != name@),
        r matches Some(d) ==> d.name@ == name@,
{
    match registry.get(class_name) {
        None => None,
        Some(m) => match find_method(m.methods(), name) {
            None => None,
            Some(i) => {
                let d = m.methods()[i].clone();
                assert(m.methods@[i as int]@ == d@);
                Some(d)
            },
        },
    }
}

/// The property descriptions of the registered class, or none.
pub fn script_property_list<D>(registry: &ScriptRegistry<D>, class_name: &str) -> (r: Vec<RustScriptPropDesc>)
    ensures
        props_view(r@) == match registry.spec_get(class_name@) {
            Some(m) => props_view(m.properties@),
            None => Seq::<PropDescView>::empty(),
        },
{
    match registry.get(class_name) {
        None => {
            let r: Vec<RustScriptPropDesc> = Vec::new();
            assert(props_view(r@) =~= Seq::<PropDescView>::empty());
            r
        },
        Some(m) => clone_props(m.properties()),
    }
}

/// The method descriptions of the registered class, or none.
pub fn script_method_list<D>(registry: &ScriptRegistry<D>, class_name: &str) -> (r: Vec<RustScriptMethodDesc>)
    ensures
        methods_view(r@) == match registry.spec_get(class_name@) {
            Some(m) => methods_view(m.methods@),
            None => Seq::<MethodDescView>::empty(),
        },
{
    match registry.get(class_name) {
        None => {
            let r: Vec<RustScriptMethodDesc> = Vec::new();
            assert(methods_view(r@) =~= Seq::<MethodDescView>::empty());
            r
        },
        Some(m) => clone_methods(m.methods()),
    }
}

/// The signal descriptions of the registered class, or `None` when the
/// class is not registered.
pub fn script_signal_list<D>(registry: &ScriptRegistry<D>, class_name: &str) -> (r: Option<Vec<RustScriptSignalDesc>>)
    ensures
        match registry.spec_get(class_name@) {
            Some(m) => r matches Some(s) && signals_view(s@) == signals_view(m.signals@),
            None => r is None,
        },
{
    match registry.get(class_name) {
        None => None,
        Some(m) => Some(clone_signals(m.signals())),
    }
}

/// The names of `props`, in order.
pub fn property_names(props: &Vec<RustScriptPropDesc>) -> (r: Vec<String>)
    ensures
        r@.len() == props@.len(),
        forall|i: int| 0 <= i < r@.len() ==> #[trigger] r@[i]@ == props@[i].name@,
{
    let mut out: Vec<String> = Vec::new();
    let mut i: usize = 0;
    while i < props.len()
        invariant
            i <= props.len(),
            out@.len() == i,
            forall|j: int| 0 <= j < i ==> #[trigger] out@[j]@ == props@[j].name@,
        decreases props.len() - i,
    {
        out.push(props[i].name.clone());
        i = i + 1;
    }
    out
}

/// The names of the registered class's properties, or none.
pub fn get_members<D>(registry: &ScriptRegistry<D>, class_name: &str) -> (r: Vec<String>)
    ensures
        match registry.spec_get(class_name@) {
            Some(m) => r@.len() == m.properties@.len()
                && forall|i: int| 0 <= i < r@.len() ==> #[trigger] r@[i]@ == m.properties@[i].name@,
            None => r@.len() == 0,
        },
{
    match registry.get(class_name) {
        None => Vec::new(),
        Some(m) => property_names(m.properties()),
    }
}

/// The properties among `props` that the editor shows.
pub open spec fn editor_properties(props: Seq<PropDescView>) -> Seq<Seq<char>>
    decreases props.len(),
{
    if props.len() == 0 {
        Seq::empty()
    } else {
        let rest = editor_properties(props.drop_last());
        if props.last().usage & usage_editor() != 0 {
            rest.push(props.last().name)
        } else {
            rest
        }
    }
}

/// The names of the properties whose usage includes `EDITOR`, in order:
/// those whose values a reload carries over.
pub fn exported_property_names(props: &Vec<RustScriptPropDesc>) -> (r: Vec<String>)
    ensures
        r@.map_values(|s: String| s@) == editor_properties(props_view(props@)),
{
    let mut out: Vec<String> = Vec::new();
    let mut i: usize = 0;
    let editor = PropertyUsageFlags::editor();
    while i < props.len()
        invariant
            i <= props.len(),
            editor.bits == usage_editor(),
            out@.map_values(|s: String| s@) == editor_properties(props_view(props@.take(i as int))),
        decreases props.len() - i,
    {
        let ghost before = out@;
        assert(props_view(props@.take(i + 1)).drop_last() == props_view(props@.take(i as int)));
        assert(props_view(props@.take(i + 1)).last() == props@[i as int]@);
        if props[i].usage.bits & editor.bits != 0 {
            out.push(props[i].name.clone());
            assert(out@.map_values(|s: String| s@) =~= before.map_values(|s: String| s@).push(props@[i as int].name@));
        }
        i = i + 1;
    }
    assert(props@.take(props@.len() as int) == props@);
    out
}

/// The properties whose values a reload carries over to the new instances:
/// with `keep_state`, those that the editor shows; otherwise none.
pub fn properties_to_carry_over(props: &Vec<RustScriptPropDesc>, keep_state: bool) -> (r: Vec<String>)
    ensures
        r@.map_values(|s: String| s@) == if keep_state {
            editor_properties(props_view(props@))
        } else {
            Seq::empty()
        },
{
    if keep_state {
        exported_property_names(props)
    } else {
        let r: Vec<String> = Vec::new();
        assert(r@.map_values(|s: String| s@) =~= Seq::<Seq<char>>::empty());
        r
    }
}

/// Whether an object whose script slot holds `script` is an instance of a
/// rust script.
pub fn instance_has(script: &AttachedScript) -> (r: bool)
    ensures
        r == (*script is RustScript),
{
    match script {
        AttachedScript::RustScript { .. } => true,
        _ => false,
    }
}

/// What follows once a rust script has been attached to an object.
#[derive(PartialEq, Eq, Structural)]
pub enum InitAction {
    /// The slot holds a script of another language: a warning is shown.
    WarnNotRustScript,
    /// Nothing: the object has no `_init` method.
    Nothing,
    /// The object's `_init` method is called.
    CallInit,
}

/// The step after a script instance was created for an object whose script
/// slot now holds `script` and which has (`has_init`) or lacks an `_init`
/// method.
pub fn init_action(script: &AttachedScript, has_init: bool) -> (r: InitAction)
    ensures
        r == if *script is Other {
            InitAction::WarnNotRustScript
        } else if has_init {
            InitAction::CallInit
        } else {
            InitAction::Nothing
        },
{
    match script {
        AttachedScript::Other => InitAction::WarnNotRustScript,
        _ => if has_init {
            InitAction::CallInit
        } else {
            InitAction::Nothing
        },
    }
}

/// What the engine's list of a script's owners does to the owners that the
/// script already records.
#[derive(PartialEq, Eq, Structural)]
pub enum OwnerUpdate {
    /// An empty list is ignored.
    Keep,
    /// The list replaces the recorded owners, of which there were none.
    Replace,
    /// The list replaces recorded owners, which is reported.
    ReplaceWithWarning,
}

pub fn owner_update(has_owners: bool, new_count: usize) -> (r: OwnerUpdate)
    ensures
        r == if new_count == 0 {
            OwnerUpdate::Keep
        } else if has_owners {
            OwnerUpdate::ReplaceWithWarning
        } else {
            OwnerUpdate::Replace
        },
{
    if new_count == 0 {
        OwnerUpdate::Keep
    } else if has_owners {
        OwnerUpdate::ReplaceWithWarning
    } else {
        OwnerUpdate::Replace
    }
}

/// The documentation record of a script class.
pub struct ClassDoc {
    pub name: String,
    pub inherits: String,
    pub brief_description: String,
    pub description: &'static str,
    pub methods: Vec<MethodDoc>,
    pub signals: Vec<MethodDoc>,
    pub properties: Vec<PropertyDoc>,
    pub is_deprecated: bool,
    pub is_experimental: bool,
    pub is_script_doc: bool,
    pub script_path: String,
}

/// `doc` documents the method `m` with `m`'s own description.
pub open spec fn method_doc_of(doc: MethodDoc, m: MethodDescView) -> bool {
    &&& doc.name@ == m.name
    &&& doc.return_type@ == doc_type_of(m.return_type.ty, m.return_type.class_name)
    &&& !doc.is_deprecated
    &&& !doc.is_experimental
    &&& argument_docs_of(doc.arguments@, m.arguments)
    &&& doc.description matches Some(d) && d@ == m.description
}

/// `doc` documents the signal `s` with `s`'s own description.
pub open spec fn signal_doc_of(doc: MethodDoc, s: SignalDescView) -> bool {
    &&& doc.name@ == s.name
    &&& doc.return_type@ == "void"@
    &&& !doc.is_deprecated
    &&& !doc.is_experimental
    &&& argument_docs_of(doc.arguments@, s.arguments)
    &&& doc.description matches Some(d) && d@ == s.description
}

/// `doc` documents the property `p` with `p`'s own description.
pub open spec fn property_doc_of(doc: PropertyDoc, p: PropDescView) -> bool {
    &&& doc.name@ == p.name
    &&& doc.doc_type@ == doc_type_of(p.ty, p.class_name)
    &&& !doc.is_deprecated
    &&& !doc.is_experimental
    &&& doc.description matches Some(d) && d@ == p.description
}

fn method_docs(methods: &Vec<RustScriptMethodDesc>) -> (r: Vec<MethodDoc>)
    ensures
        r@.len() == methods@.len(),
        forall|i: int| 0 <= i < r@.len() ==> method_doc_of(#[trigger] r@[i], methods@[i]@),
{
    let mut out: Vec<MethodDoc> = Vec::new();
    let mut i: usize = 0;
    while i < methods.len()
        invariant
            i <= methods.len(),
            out@.len() == i,
            forall|j: int| 0 <= j < i ==> method_doc_of(#[trigger] out@[j], methods@[j]@),
        decreases methods.len() - i,
    {
        let documented = Documented::from_method(methods[i].clone());
        out.push(documented.to_method_doc());
        i = i + 1;
    }
    out
}

fn signal_docs(signals: &Vec<RustScriptSignalDesc>) -> (r: Vec<MethodDoc>)
    ensures
        r@.len() == signals@.len(),
        forall|i: int| 0 <= i < r@.len() ==> signal_doc_of(#[trigger] r@[i], signals@[i]@),
{
    let mut out: Vec<MethodDoc> = Vec::new();
    let mut i: usize = 0;
    while i < signals.len()
        invariant
            i <= signals.len(),
            out@.len() == i,
            forall|j: int| 0 <= j < i ==> signal_doc_of(#[trigger] out@[j], signals@[j]@),
        decreases signals.len() - i,
    {
        let documented = Documented::from_signal(signals[i].clone());
        out.push(documented.to_method_doc());
        i = i + 1;
    }
    out
}

fn property_docs(props: &Vec<RustScriptPropDesc>) -> (r: Vec<PropertyDoc>)
    ensures
        r@.len() == props@.len(),
        forall|i: int| 0 <= i < r@.len() ==> property_doc_of(#[trigger] r@[i], props@[i]@),
{
    let mut out: Vec<PropertyDoc> = Vec::new();
    let mut i: usize = 0;
    while i < props.len()
        invariant
            i <= props.len(),
            out@.len() == i,
            forall|j: int| 0 <= j < i ==> property_doc_of(#[trigger] out@[j], props@[j]@),
        decreases props.len() - i,
    {
        let documented = Documented::from_property(props[i].clone());
        out.push(documented.to_property_doc());
        i = i + 1;
    }
    out
}

/// The documentation of the script class `class_name`, stored at
/// `script_path`. A class that is not registered is documented without
/// methods, signals, properties or description.
pub fn get_documentation<D>(registry: &ScriptRegistry<D>, class_name: &str, script_path: String) -> (r: ClassDoc)
    ensures
        r.name@ == class_name@,
        r.inherits@ == instance_base_type(*registry, class_name@),
        r.brief_description@ == Seq::<char>::empty(),
        !r.is_deprecated,
        !r.is_experimental,
        r.is_script_doc,
        r.script_path@ == script_path@,
        match registry.spec_get(class_name@) {
            Some(m) => {
                &&& r.description == m.description
                &&& r.methods@.len() == m.methods@.len()
                &&& forall|i: int| 0 <= i < r.methods@.len() ==> method_doc_of(#[trigger] r.methods@[i], m.methods@[i]@)
                &&& r.signals@.len() == m.signals@.len()
                &&& forall|i: int| 0 <= i < r.signals@.len() ==> signal_doc_of(#[trigger] r.signals@[i], m.signals@[i]@)
                &&& r.properties@.len() == m.properties@.len()
                &&& forall|i: int| 0 <= i < r.properties@.len() ==> property_doc_of(#[trigger] r.properties@[i], m.properties@[i]@)
            },
            None => {
                &&& r.description@ == Seq::<char>::empty()
                &&& r.methods@.len() == 0
                &&& r.signals@.len() == 0
                &&& r.properties@.len() == 0
            },
        },
{
    proof {
        reveal_strlit("");
    }
    let (methods, props, signals, description) = match registry.get(class_name) {
        Some(m) => (method_docs(m.methods()), property_docs(m.properties()), signal_docs(m.signals()), m.description()),
        None => (Vec::new(), Vec::new(), Vec::new(), ""),
    };
    ClassDoc {
        name: class_name.to_owned(),
        inherits: get_instance_base_type(registry, class_name),
        brief_description: String::new(),
        description,
        methods,
        signals,
        properties: props,
        is_deprecated: false,
        is_experimental: false,
        is_script_doc: true,
        script_path,
    }
}

} // verus!
