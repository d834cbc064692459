//! The static registry of script classes: property, signal and method
//! descriptions, the builders that script registrations use, and the
//! assembly of per-class metadata from the registered items.
use vstd::prelude::*;

use crate::engine_types::{ClassId, MethodFlags, PropertyHint, PropertyUsageFlags, VariantType};
use crate::text::str_eq;

verus! {

/// The description of one script property (or of a property group header).
pub struct RustScriptPropDesc {
    pub name: String,
    pub ty: VariantType,
    pub class_name: ClassId,
    pub usage: PropertyUsageFlags,
    pub hint: PropertyHint,
    pub hint_string: String,
    pub description: &'static str,
}

/// The mathematical value of a property description.
pub struct PropDescView {
    pub name: Seq<char>,
    pub ty: VariantType,
    pub class_name: Seq<char>,
    pub usage: u64,
    pub hint: i32,
    pub hint_string: Seq<char>,
    pub description: Seq<char>,
}

impl View for RustScriptPropDesc {
    type V = PropDescView;

    open spec fn view(&self) -> PropDescView {
        PropDescView {
            name: self.name@,
            ty: self.ty,
            class_name: self.class_name@,
            usage: self.usage.bits,
            hint: self.hint.ord,
            hint_string: self.hint_string@,
            description: self.description@,
        }
    }
}

/// The views of a sequence of property descriptions.
pub open spec fn props_view(v: Seq<RustScriptPropDesc>) -> Seq<PropDescView> {
    v.map_values(|d: RustScriptPropDesc| d@)
}

impl Clone for RustScriptPropDesc {
    fn clone(&self) -> (r: Self)
        ensures
            r@ == self@,
    {
        RustScriptPropDesc {
            name: self.name.clone(),
            ty: self.ty,
            class_name: self.class_name.duplicate(),
            usage: self.usage,
            hint: self.hint,
            hint_string: self.hint_string.clone(),
            description: self.description,
        }
    }
}

/// Two lists of property descriptions hold equal values, element by element.
pub open spec fn same_props(a: Seq<RustScriptPropDesc>, b: Seq<RustScriptPropDesc>) -> bool {
    &&& a.len() == b.len()
    &&& forall|j: int| 0 <= j < a.len() ==> #[trigger] a[j]@ == b[j]@
}

pub proof fn lemma_same_props_view(a: Seq<RustScriptPropDesc>, b: Seq<RustScriptPropDesc>)
    requires
        same_props(a, b),
    ensures
        props_view(a) == props_view(b),
{
    assert(props_view(a) =~= props_view(b));
}

/// A copy of a list of property descriptions.
pub fn clone_props(v: &Vec<RustScriptPropDesc>) -> (r: Vec<RustScriptPropDesc>)
    ensures
        props_view(r@) == props_view(v@),
{
    let mut out: Vec<RustScriptPropDesc> = Vec::new();
    let mut i: usize = 0;
    while i < v.len()
        invariant
            i <= v.len(),
            out@.len() == i,
            forall|j: int| 0 <= j < i ==> #[trigger] out@[j]@ == v@[j]@,
        decreases v.len() - i,
    {
        let c = v[i].clone();
        out.push(c);
        i = i + 1;
    }
    proof {
        lemma_same_props_view(out@, v@);
    }
    out
}

/// Appends the descriptions of `more` to `v`.
pub fn append_props(v: &mut Vec<RustScriptPropDesc>, more: Vec<RustScriptPropDesc>)
    ensures
        props_view(final(v)@) == props_view(old(v)@) + props_view(more@),
{
    let ghost added = more@;
    let mut more = more;
    v.append(&mut more);
    assert(props_view(v@) =~= props_view(old(v)@) + props_view(added));
}


/// The description of one script signal.
pub struct RustScriptSignalDesc {
    pub name: &'static str,
    pub arguments: Vec<RustScriptPropDesc>,
    pub description: &'static str,
}

pub struct SignalDescView {
    pub name: Seq<char>,
    pub arguments: Seq<PropDescView>,
    pub description: Seq<char>,
}

impl View for RustScriptSignalDesc {
    type V = SignalDescView;

    open spec fn view(&self) -> SignalDescView {
        SignalDescView {
            name: self.name@,
            arguments: props_view(self.arguments@),
            description: self.description@,
        }
    }
}

impl Clone for RustScriptSignalDesc {
    fn clone(&self) -> (r: Self)
        ensures
            r@ == self@,
    {
        RustScriptSignalDesc {
            name: self.name,
            arguments: clone_props(&self.arguments),
            description: self.description,
        }
    }
}

pub open spec fn signals_view(v: Seq<RustScriptSignalDesc>) -> Seq<SignalDescView> {
    v.map_values(|d: RustScriptSignalDesc| d@)
}

/// A copy of a list of signal descriptions.
pub fn clone_signals(v: &Vec<RustScriptSignalDesc>) -> (r: Vec<RustScriptSignalDesc>)
    ensures
        signals_view(r@) == signals_view(v@),
{
    let mut out: Vec<RustScriptSignalDesc> = Vec::new();
    let mut i: usize = 0;
    while i < v.len()
        invariant
            i <= v.len(),
            out@.len() == i,
            forall|j: int| 0 <= j < i ==> #[trigger] out@[j]@ == v@[j]@,
        decreases v.len() - i,
    {
        let c = v[i].clone();
        out.push(c);
        i = i + 1;
    }
    assert(signals_view(out@) =~= signals_view(v@));
    out
}

/// The description of one script method.
pub struct RustScriptMethodDesc {
    pub id: u32,
    pub class_name: &'static str,
    pub name: &'static str,
    pub return_type: RustScriptPropDesc,
    pub arguments: Vec<RustScriptPropDesc>,
    pub flags: MethodFlags,
    pub description: &'static str,
}

pub struct MethodDescView {
    pub id: u32,
    pub class_name: Seq<char>,
    pub name: Seq<char>,
    pub return_type: PropDescView,
    pub arguments: Seq<PropDescView>,
    pub flags: u64,
    pub description: Seq<char>,
}

impl View for RustScriptMethodDesc {
    type V = MethodDescView;

    open spec fn view(&self) -> MethodDescView {
        MethodDescView {
            id: self.id,
            class_name: self.class_name@,
            name: self.name@,
            return_type: self.return_type@,
            arguments: props_view(self.arguments@),
            flags: self.flags.bits,
            description: self.description@,
        }
    }
}

impl Clone for RustScriptMethodDesc {
    fn clone(&self) -> (r: Self)
        ensures
            r@ == self@,
    {
        RustScriptMethodDesc {
            id: self.id,
            class_name: self.class_name,
            name: self.name,
            return_type: self.return_type.clone(),
            arguments: clone_props(&self.arguments),
            flags: self.flags,
            description: self.description,
        }
    }
}

pub open spec fn methods_view(v: Seq<RustScriptMethodDesc>) -> Seq<MethodDescView> {
    v.map_values(|d: RustScriptMethodDesc| d@)
}

/// A copy of a list of method descriptions.
pub fn clone_methods(v: &Vec<RustScriptMethodDesc>) -> (r: Vec<RustScriptMethodDesc>)
    ensures
        methods_view(r@) == methods_view(v@),
{
    let mut out: Vec<RustScriptMethodDesc> = Vec::new();
    let mut i: usize = 0;
    while i < v.len()
        invariant
            i <= v.len(),
            out@.len() == i,
            forall|j: int| 0 <= j < i ==> #[trigger] out@[j]@ == v@[j]@,
        decreases v.len() - i,
    {
        let c = v[i].clone();
        out.push(c);
        i = i + 1;
    }
    assert(methods_view(out@) =~= methods_view(v@));
    out
}

impl RustScriptMethodDesc {
    /// Starts the description of a method with the given name, arguments and
    /// return type; its flags are `NORMAL` and its description is empty.
    pub fn builder(
        name: &'static str,
        arguments: Vec<RustScriptPropDesc>,
        return_type: RustScriptPropDesc,
    ) -> (r: RustScriptMethodDescBuilder)
        ensures
            r.name == name,
            r.return_type@ == return_type@,
            props_view(r.arguments@) == props_view(arguments@),
            r.flags.bits == crate::engine_types::method_normal(),
            r.description@ == Seq::<char>::empty(),
    {
        proof {
            reveal_strlit("");
        }
        RustScriptMethodDescBuilder {
            name,
            return_type,
            arguments,
            flags: MethodFlags::normal(),
            description: "",
        }
    }
}

/// Accumulates the description of one method before it gets its index.
pub struct RustScriptMethodDescBuilder {
    pub name: &'static str,
    pub return_type: RustScriptPropDesc,
    pub arguments: Vec<RustScriptPropDesc>,
    pub flags: MethodFlags,
    pub description: &'static str,
}

impl RustScriptMethodDescBuilder {
    pub fn with_flags(self, flags: MethodFlags) -> (r: Self)
        ensures
            r.flags == flags,
            r.name == self.name,
            r.return_type@ == self.return_type@,
            props_view(r.arguments@) == props_view(self.arguments@),
            r.description == self.description,
    {
        let mut this = self;
        this.flags = flags;
        this
    }

    pub fn with_description(self, description: &'static str) -> (r: Self)
        ensures
            r.description == description,
            r.name == self.name,
            r.return_type@ == self.return_type@,
            props_view(r.arguments@) == props_view(self.arguments@),
            r.flags == self.flags,
    {
        let mut this = self;
        this.description = description;
        this
    }

    /// The finished description, with the given index and owning class.
    pub fn build(self, id: u32, class_name: &'static str) -> (r: RustScriptMethodDesc)
        ensures
            r.id == id,
            r.class_name == class_name,
            r.name == self.name,
            r.return_type@ == self.return_type@,
            props_view(r.arguments@) == props_view(self.arguments@),
            r.flags == self.flags,
            r.description == self.description,
    {
        RustScriptMethodDesc {
            id,
            class_name,
            name: self.name,
            return_type: self.return_type,
            arguments: self.arguments,
            flags: self.flags,
            description: self.description,
        }
    }
}

/// The registration of one script class, without its methods. `D` is the
/// factory that creates the script's data for a new instance.
pub struct RustScriptEntry<D> {
    pub class_name: &'static str,
    pub base_type_name: String,
    pub properties: Vec<RustScriptPropDesc>,
    pub signals: Vec<RustScriptSignalDesc>,
    pub create_data: D,
    pub description: &'static str,
    pub is_tool: bool,
}

impl<D> RustScriptEntry<D> {
    /// Starts the registration of a script class: no properties, no
    /// signals, not a tool script.
    pub fn builder(
        class_name: &'static str,
        base_type_name: String,
        description: &'static str,
        create_data: D,
    ) -> (r: RustScriptEntryBuilder<D>)
        ensures
            r.class_name == class_name,
            r.base_type_name@ == base_type_name@,
            r.properties@.len() == 0,
            r.signals@.len() == 0,
            r.create_data == create_data,
            r.description == description,
            !r.is_tool,
    {
        RustScriptEntryBuilder {
            class_name,
            base_type_name,
            properties: Vec::new(),
            signals: Vec::new(),
            create_data,
            description,
            is_tool: false,
        }
    }
}

/// Accumulates the registration of one script class.
pub struct RustScriptEntryBuilder<D> {
    pub class_name: &'static str,
    pub base_type_name: String,
    pub properties: Vec<RustScriptPropDesc>,
    pub signals: Vec<RustScriptSignalDesc>,
    pub create_data: D,
    pub description: &'static str,
    pub is_tool: bool,
}

impl<D> RustScriptEntryBuilder<D> {
    /// Adds a property after those already added.
    pub fn add_property(&mut self, prop: RustScriptPropDesc)
        ensures
            props_view(final(self).properties@) == props_view(old(self).properties@).push(prop@),
            signals_view(final(self).signals@) == signals_view(old(self).signals@),
            final(self).class_name == old(self).class_name,
            final(self).base_type_name@ == old(self).base_type_name@,
            final(self).create_data == old(self).create_data,
            final(self).description == old(self).description,
            final(self).is_tool == old(self).is_tool,
    {
        self.properties.push(prop);
        assert(props_view(self.properties@) =~= props_view(old(self).properties@).push(prop@));
    }

    /// Adds the descriptions of a property group after the properties already added.
    pub fn add_property_group(&mut self, prop_group: Vec<RustScriptPropDesc>)
        ensures
            props_view(final(self).properties@) == props_view(old(self).properties@) + props_view(prop_group@),
            signals_view(final(self).signals@) == signals_view(old(self).signals@),
            final(self).class_name == old(self).class_name,
            final(self).base_type_name@ == old(self).base_type_name@,
            final(self).create_data == old(self).create_data,
            final(self).description == old(self).description,
            final(self).is_tool == old(self).is_tool,
    {
        append_props(&mut self.properties, prop_group);
    }

    /// Adds a signal after those already added.
    pub fn add_signal(&mut self, signal: RustScriptSignalDesc)
        ensures
            signals_view(final(self).signals@) == signals_view(old(self).signals@).push(signal@),
            props_view(final(self).properties@) == props_view(old(self).properties@),
            final(self).class_name == old(self).class_name,
            final(self).base_type_name@ == old(self).base_type_name@,
            final(self).create_data == old(self).create_data,
            final(self).description == old(self).description,
            final(self).is_tool == old(self).is_tool,
    {
        self.signals.push(signal);
        assert(signals_view(self.signals@) =~= signals_view(old(self).signals@).push(signal@));
    }

    pub fn with_is_tool(self, is_tool: bool) -> (r: Self)
        ensures
            r.is_tool == is_tool,
            props_view(r.properties@) == props_view(self.properties@),
            signals_view(r.signals@) == signals_view(self.signals@),
            r.class_name == self.class_name,
            r.base_type_name@ == self.base_type_name@,
            r.create_data == self.create_data,
            r.description == self.description,
    {
        let mut this = self;
        this.is_tool = is_tool;
        this
    }

    /// The finished registration, holding everything that was added.
    pub fn build(self) -> (r: RustScriptEntry<D>)
        ensures
            r.class_name == self.class_name,
            r.base_type_name@ == self.base_type_name@,
            props_view(r.properties@) == props_view(self.properties@),
            signals_view(r.signals@) == signals_view(self.signals@),
            r.create_data == self.create_data,
            r.description == self.description,
            r.is_tool == self.is_tool,
    {
        RustScriptEntry {
            class_name: self.class_name,
            base_type_name: self.base_type_name,
            properties: self.properties,
            signals: self.signals,
            create_data: self.create_data,
            description: self.description,
            is_tool: self.is_tool,
        }
    }
}

/// The methods registered for one script class.
pub struct RustScriptEntryMethods {
    pub class_name: &'static str,
    pub methods: Vec<RustScriptMethodDesc>,
}

/// Every method is owned by `class_name` and numbered by its position:
/// what any sequence of `add_method` calls on a fresh builder keeps.
pub open spec fn ids_are_positions(methods: Seq<MethodDescView>, class_name: Seq<char>) -> bool {
    forall|i: int| 0 <= i < methods.len() ==> (#[trigger] methods[i]).id == i as u32 && methods[i].class_name == class_name
}

impl RustScriptEntryMethods {
    /// Starts the method list of the given class.
    pub fn builder(class_name: &'static str, capacity: usize) -> (r: RustScriptEntryMethodsBuilder)
        ensures
            r.class_name == class_name,
            r.methods@.len() == 0,
            ids_are_positions(methods_view(r.methods@), class_name@),
    {
        RustScriptEntryMethodsBuilder { class_name, methods: Vec::with_capacity(capacity) }
    }

    /// The method list of the given class that a fresh builder yields once
    /// each of `methods` was added to it in order: one description per
    /// method, numbered by its position (as a `u32`), owned by the class,
    /// and carrying the method's name, return type, arguments, flags and
    /// description.
    pub fn from_builders(class_name: &'static str, methods: Vec<RustScriptMethodDescBuilder>) -> (r: RustScriptEntryMethods)
        ensures
            r.class_name == class_name,
            r.methods@.len() == methods@.len(),
            forall|i: int| 0 <= i < methods@.len() ==> built_from(#[trigger] r.methods@[i]@, methods@[i], i, class_name@),
            ids_are_positions(methods_view(r.methods@), class_name@),
    {
        let ghost all = methods@;
        let mut b = RustScriptEntryMethods::builder(class_name, methods.len());
        for m in it: methods
            invariant
                it.seq() == all,
                b.class_name == class_name,
                b.methods@.len() == it.index(),
                ids_are_positions(methods_view(b.methods@), class_name@),
                forall|i: int| 0 <= i < it.index() ==> built_from(#[trigger] b.methods@[i]@, all[i], i, class_name@),
        {
            let ghost k = it.index() as int;
            let ghost before = b.methods@;
            assert(m == all[k]);
            b.add_method(m);
            assert forall|i: int| 0 <= i < k + 1 implies built_from(#[trigger] b.methods@[i]@, all[i], i, class_name@) by {
                if i < k {
                    assert(b.methods@[i]@ == before[i]@);
                }
            }
        }
        assert(b.methods@.len() == all.len());
        let ghost built = b.methods@;
        let r = b.build();
        assert(methods_view(r.methods@).len() == r.methods@.len());
        assert(methods_view(built).len() == built.len());
        assert forall|i: int| 0 <= i < all.len() implies built_from(#[trigger] r.methods@[i]@, all[i], i, class_name@) by {
            assert(built_from(built[i]@, all[i], i, class_name@));
            assert(methods_view(r.methods@)[i] == methods_view(built)[i]);
            assert(methods_view(r.methods@)[i] == r.methods@[i]@);
            assert(methods_view(built)[i] == built[i]@);
        }
        r
    }
}

/// `d` is the description that the builder `m` yields at position `i` of
/// the method list of `class_name`.
pub open spec fn built_from(d: MethodDescView, m: RustScriptMethodDescBuilder, i: int, class_name: Seq<char>) -> bool {
    &&& d.id == i as u32
    &&& d.class_name == class_name
    &&& d.name == m.name@
    &&& d.return_type == m.return_type@
    &&& d.arguments == props_view(m.arguments@)
    &&& d.flags == m.flags.bits
    &&& d.description == m.description@
}

/// Accumulates the methods of one script class; each method gets its
/// position in the list as its index.
pub struct RustScriptEntryMethodsBuilder {
    pub class_name: &'static str,
    pub methods: Vec<RustScriptMethodDesc>,
}

impl RustScriptEntryMethodsBuilder {
    /// Adds a method, numbered by the count of methods added before it and
    /// owned by this builder's class.
    pub fn add_method(&mut self, method: RustScriptMethodDescBuilder)
        ensures
            final(self).class_name == old(self).class_name,
            final(self).methods@.len() == old(self).methods@.len() + 1,
            forall|j: int| 0 <= j < old(self).methods@.len() ==>
                #[trigger] final(self).methods@[j]@ == old(self).methods@[j]@,
            ({
                let m = final(self).methods@[old(self).methods@.len() as int];
                &&& m.id == old(self).methods@.len() as u32
                &&& m.class_name == old(self).class_name
                &&& m.name == method.name
                &&& m.return_type@ == method.return_type@
                &&& props_view(m.arguments@) == props_view(method.arguments@)
                &&& m.flags == method.flags
                &&& m.description == method.description
            }),
            ids_are_positions(methods_view(old(self).methods@), old(self).class_name@)
                ==> ids_are_positions(methods_view(final(self).methods@), final(self).class_name@),
    {
        let index = self.methods.len();
        #[verifier::truncate]
        let id = index as u32;
        let built = method.build(id, self.class_name);
        self.methods.push(built);
        proof {
            let before = methods_view(old(self).methods@);
            let after = methods_view(self.methods@);
            if ids_are_positions(before, old(self).class_name@) {
                assert forall|i: int| 0 <= i < after.len() implies (#[trigger] after[i]).id == i as u32
                    && after[i].class_name == self.class_name@ by {
                    assert(after[i] == self.methods@[i]@);
                    if i < before.len() {
                        assert(before[i] == old(self).methods@[i]@);
                        assert(self.methods@[i] == old(self).methods@[i]);
                    }
                }
            }
        }
    }

    pub fn build(self) -> (r: RustScriptEntryMethods)
        ensures
            r.class_name == self.class_name,
            methods_view(r.methods@) == methods_view(self.methods@),
            ids_are_positions(methods_view(self.methods@), self.class_name@)
                ==> ids_are_positions(methods_view(r.methods@), r.class_name@),
    {
        RustScriptEntryMethods { class_name: self.class_name, methods: self.methods }
    }
}


/// One registered item: a class registration or a class's method list.
pub enum RegistryItem<D> {
    Entry(RustScriptEntry<D>),
    Methods(RustScriptEntryMethods),
}

/// The class registrations among `items`, in order.
pub open spec fn entries_of<D>(items: Seq<RegistryItem<D>>) -> Seq<RustScriptEntry<D>>
    decreases items.len(),
{
    if items.len() == 0 {
        Seq::empty()
    } else {
        let rest = entries_of(items.drop_last());
        match items.last() {
            RegistryItem::Entry(e) => rest.push(e),
            RegistryItem::Methods(_) => rest,
        }
    }
}

/// The method lists among `items`, in order.
pub open spec fn method_lists_of<D>(items: Seq<RegistryItem<D>>) -> Seq<RustScriptEntryMethods>
    decreases items.len(),
{
    if items.len() == 0 {
        Seq::empty()
    } else {
        let rest = method_lists_of(items.drop_last());
        match items.last() {
            RegistryItem::Entry(_) => rest,
            RegistryItem::Methods(m) => rest.push(m),
        }
    }
}

/// The methods that the last method list registered for `class_name` holds,
/// or none when no list names that class.
pub open spec fn last_methods_for(lists: Seq<RustScriptEntryMethods>, class_name: Seq<char>) -> Seq<MethodDescView>
    decreases lists.len(),
{
    if lists.len() == 0 {
        Seq::empty()
    } else if lists.last().class_name@ == class_name {
        methods_view(lists.last().methods@)
    } else {
        last_methods_for(lists.drop_last(), class_name)
    }
}

/// Everything the runtime knows of one script class.
pub struct RustScriptMetaData<D> {
    pub class_name: ClassId,
    pub base_type_name: String,
    pub properties: Vec<RustScriptPropDesc>,
    pub methods: Vec<RustScriptMethodDesc>,
    pub signals: Vec<RustScriptSignalDesc>,
    pub create_data: D,
    pub description: &'static str,
    pub is_tool: bool,
}

impl<D> RustScriptMetaData<D> {
    /// The metadata of a class; it is not a tool script.
    pub fn new(
        class_name: &'static str,
        base_type_name: String,
        properties: Vec<RustScriptPropDesc>,
        methods: Vec<RustScriptMethodDesc>,
        signals: Vec<RustScriptSignalDesc>,
        create_data: D,
        description: &'static str,
    ) -> (r: Self)
        ensures
            r.class_name@ == class_name@,
            r.base_type_name@ == base_type_name@,
            props_view(r.properties@) == props_view(properties@),
            methods_view(r.methods@) == methods_view(methods@),
            signals_view(r.signals@) == signals_view(signals@),
            r.create_data == create_data,
            r.description == description,
            !r.is_tool,
    {
        RustScriptMetaData {
            class_name: ClassId::from_name(class_name),
            base_type_name,
            properties,
            methods,
            signals,
            create_data,
            description,
            is_tool: false,
        }
    }

    pub fn with_is_tool(self, is_tool: bool) -> (r: Self)
        ensures
            r.is_tool == is_tool,
            r.class_name@ == self.class_name@,
            r.base_type_name@ == self.base_type_name@,
            props_view(r.properties@) == props_view(self.properties@),
            methods_view(r.methods@) == methods_view(self.methods@),
            signals_view(r.signals@) == signals_view(self.signals@),
            r.create_data == self.create_data,
            r.description == self.description,
    {
        let mut this = self;
        this.is_tool = is_tool;
        this
    }

    pub fn class_name(&self) -> (r: &ClassId)
        ensures
            r@ == self.class_name@,
    {
        &self.class_name
    }

    pub fn base_type_name(&self) -> (r: String)
        ensures
            r@ == self.base_type_name@,
    {
        self.base_type_name.clone()
    }

    pub fn create_data(&self) -> (r: &D)
        ensures
            *r == self.create_data,
    {
        &self.create_data
    }

    pub fn properties(&self) -> (r: &Vec<RustScriptPropDesc>)
        ensures
            r@ == self.properties@,
    {
        &self.properties
    }

    pub fn methods(&self) -> (r: &Vec<RustScriptMethodDesc>)
        ensures
            r@ == self.methods@,
    {
        &self.methods
    }

    pub fn signals(&self) -> (r: &Vec<RustScriptSignalDesc>)
        ensures
            r@ == self.signals@,
    {
        &self.signals
    }

    pub fn description(&self) -> (r: &'static str)
        ensures
            r == self.description,
    {
        self.description
    }
}

/// The metadata `m` is what the registration `e` describes, with the
/// methods registered for its class among `lists`.
pub open spec fn meta_from_entry<D>(m: RustScriptMetaData<D>, e: RustScriptEntry<D>, lists: Seq<RustScriptEntryMethods>) -> bool {
    &&& m.class_name@ == e.class_name@
    &&& m.base_type_name@ == e.base_type_name@
    &&& props_view(m.properties@) == props_view(e.properties@)
    &&& methods_view(m.methods@) == last_methods_for(lists, e.class_name@)
    &&& signals_view(m.signals@) == signals_view(e.signals@)
    &&& m.create_data == e.create_data
    &&& m.description == e.description
    &&& m.is_tool == e.is_tool
}

/// The methods of the last list in `lists` that names `class_name`, or
/// none.
fn find_last_methods(lists: &Vec<RustScriptEntryMethods>, class_name: &'static str) -> (r: Vec<RustScriptMethodDesc>)
    ensures
        methods_view(r@) == last_methods_for(lists@, class_name@),
{
    let mut i: usize = lists.len();
    assert(lists@.take(i as int) == lists@);
    while i > 0
        invariant
            i <= lists.len(),
            last_methods_for(lists@, class_name@) == last_methods_for(lists@.take(i as int), class_name@),
        decreases i,
    {
        let j = i - 1;
        assert(lists@.take(i as int).drop_last() == lists@.take(j as int));
        if str_eq(lists[j].class_name, class_name) {
            return clone_methods(&lists[j].methods);
        }
        i = j;
    }
    let r: Vec<RustScriptMethodDesc> = Vec::new();
    assert(methods_view(r@) =~= Seq::<MethodDescView>::empty());
    r
}

/// Builds the metadata of every registered class, in registration order.
/// Each class gets the methods of the last method list registered under its
/// name; a class without one gets no methods.
pub fn assemble_metadata<D>(items: Vec<RegistryItem<D>>) -> (r: Vec<RustScriptMetaData<D>>)
    ensures
        r@.len() == entries_of(items@).len(),
        forall|i: int| 0 <= i < r@.len() ==>
            meta_from_entry(#[trigger] r@[i], entries_of(items@)[i], method_lists_of(items@)),
{
    let ghost all = items@;
    let mut entries: Vec<RustScriptEntry<D>> = Vec::new();
    let mut lists: Vec<RustScriptEntryMethods> = Vec::new();
    for item in it: items
        invariant
            it.seq() == all,
            entries@ == entries_of(all.take(it.index() as int)),
            lists@ == method_lists_of(all.take(it.index() as int)),
    {
        let ghost k = it.index() as int;
        assert(all.take(k + 1).drop_last() == all.take(k));
        match item {
            RegistryItem::Entry(entry) => {
                entries.push(entry);
            },
            RegistryItem::Methods(methods) => {
                lists.push(methods);
            },
        }
    }
    assert(all.take(all.len() as int) == all);
    let ghost all_entries = entries@;
    let mut out: Vec<RustScriptMetaData<D>> = Vec::new();
    for entry in it: entries
        invariant
            it.seq() == all_entries,
            all_entries == entries_of(all),
            lists@ == method_lists_of(all),
            out@.len() == it.index(),
            forall|i: int| 0 <= i < out@.len() ==>
                meta_from_entry(#[trigger] out@[i], all_entries[i], lists@),
    {
        let methods = find_last_methods(&lists, entry.class_name);
        let meta = RustScriptMetaData::new(
            entry.class_name,
            entry.base_type_name,
            entry.properties,
            methods,
            entry.signals,
            entry.create_data,
            entry.description,
        ).with_is_tool(entry.is_tool);
        out.push(meta);
    }
    out
}

} // verus!
