//! Property groups and subgroups: a script may flatten a group of
//! properties into its own property list. The group is announced by a
//! header entry and its properties are listed under a name prefix.
use vstd::prelude::*;

use crate::engine_types::{
    usage_group, usage_subgroup, ClassId, PropertyHint, PropertyUsageFlags, VariantType,
};
use crate::static_script_registry::{props_view, PropDescView, RustScriptPropDesc};
use crate::text::concat_str;

verus! {

/// The header entry that opens a group or subgroup: it carries the group's
/// name, the given usage, and the prefix of its properties as hint string.
pub open spec fn group_header(name: Seq<char>, usage: u64, prefix: Seq<char>, description: Seq<char>) -> PropDescView {
    PropDescView {
        name,
        ty: VariantType::Nil,
        class_name: Seq::empty(),
        usage,
        hint: 0,
        hint_string: prefix,
        description,
    }
}

/// `p` with `prefix` put before its name.
pub open spec fn prefixed(p: PropDescView, prefix: Seq<char>) -> PropDescView {
    PropDescView { name: prefix + p.name, ..p }
}

pub open spec fn prefix_all(ps: Seq<PropDescView>, prefix: Seq<char>) -> Seq<PropDescView> {
    ps.map_values(|p: PropDescView| prefixed(p, prefix))
}

/// The entries that a subgroup named `name` with properties `props`
/// contributes under `prefix`: its header, then its properties, prefixed.
pub open spec fn subgroup_layout(name: Seq<char>, props: Seq<PropDescView>, prefix: Seq<char>, description: Seq<char>) -> Seq<PropDescView> {
    seq![group_header(name, usage_subgroup(), prefix, description)] + prefix_all(props, prefix)
}

/// A header entry: no type, no class, no hint.
fn header_entry(name: &'static str, usage: PropertyUsageFlags, prefix: &str, description: &'static str) -> (r: RustScriptPropDesc)
    ensures
        r@ == group_header(name@, usage.bits, prefix@, description@),
{
    let r = RustScriptPropDesc {
        name: name.to_owned(),
        ty: VariantType::Nil,
        class_name: ClassId::none(),
        usage,
        hint: PropertyHint::none(),
        hint_string: prefix.to_owned(),
        description,
    };
    assert(r@ == group_header(name@, usage.bits, prefix@, description@));
    r
}

/// Puts `prefix` before the name of every property of `props`, after the
/// entries already in `out`.
fn push_prefixed(out: &mut Vec<RustScriptPropDesc>, props: Vec<RustScriptPropDesc>, prefix: &str)
    ensures
        props_view(final(out)@) == props_view(old(out)@) + prefix_all(props_view(props@), prefix@),
{
    let ghost start = out@;
    let ghost all = props@;
    for prop in it: props
        invariant
            it.seq() == all,
            out@.len() == start.len() + it.index(),
            forall|j: int| 0 <= j < start.len() ==> #[trigger] out@[j]@ == start[j]@,
            forall|j: int| 0 <= j < it.index() ==>
                #[trigger] out@[start.len() + j]@ == prefixed(all[j]@, prefix@),
    {
        let mut prop = prop;
        let name = concat_str(prefix, prop.name.as_str());
        prop.name = name;
        out.push(prop);
    }
    assert(props_view(out@) =~= props_view(start) + prefix_all(props_view(all), prefix@)) by {
        assert forall|j: int| 0 <= j < out@.len() implies
            #[trigger] props_view(out@)[j] == (props_view(start) + prefix_all(props_view(all), prefix@))[j] by {
            if j >= start.len() {
                assert(out@[start.len() + (j - start.len())]@ == prefixed(all[j - start.len()]@, prefix@));
            }
        }
    }
}

/// Builds the entries of a property subgroup step by step.
pub struct PropertySubgroupBuilder {
    pub name: &'static str,
    pub properties: Vec<RustScriptPropDesc>,
}

impl PropertySubgroupBuilder {
    pub fn new(name: &'static str, capacity: usize) -> (r: Self)
        ensures
            r.name == name,
            r.properties@.len() == 0,
    {
        PropertySubgroupBuilder { name, properties: Vec::with_capacity(capacity) }
    }

    /// Adds a property after those already added.
    pub fn add_property(self, property_desc: RustScriptPropDesc) -> (r: Self)
        ensures
            r.name == self.name,
            props_view(r.properties@) == props_view(self.properties@).push(property_desc@),
    {
        let mut this = self;
        this.properties.push(property_desc);
        assert(props_view(this.properties@) =~= props_view(self.properties@).push(property_desc@));
        this
    }

    /// The subgroup's entries under `prefix`: a `SUBGROUP` header that
    /// carries the subgroup's name and the prefix, then every property with
    /// the prefix before its name.
    pub fn build(self, prefix: &str, description: &'static str) -> (r: Vec<RustScriptPropDesc>)
        ensures
            props_view(r@) == subgroup_layout(self.name@, props_view(self.properties@), prefix@, description@),
    {
        let mut out: Vec<RustScriptPropDesc> = Vec::new();
        out.push(header_entry(self.name, PropertyUsageFlags::subgroup(), prefix, description));
        let ghost first = out@;
        assert(props_view(first) =~= seq![group_header(self.name@, usage_subgroup(), prefix@, description@)]);
        push_prefixed(&mut out, self.properties, prefix);
        out
    }
}

/// One entry of a property group: a property, or a subgroup flattened
/// under its own name.
pub enum PropertyGroupItem {
    Prop(RustScriptPropDesc),
    Sub { name: &'static str, description: &'static str, builder: PropertySubgroupBuilder },
}

/// The entries that the group items contribute under `prefix`: a property
/// is listed with the prefix before its name; a subgroup item `name` is
/// laid out under the prefix followed by `name` and `_`.
pub open spec fn items_layout(items: Seq<PropertyGroupItem>, prefix: Seq<char>) -> Seq<PropDescView>
    decreases items.len(),
{
    if items.len() == 0 {
        Seq::empty()
    } else {
        items_layout(items.drop_last(), prefix) + match items.last() {
            PropertyGroupItem::Prop(p) => seq![prefixed(p@, prefix)],
            PropertyGroupItem::Sub { name, description, builder } => subgroup_layout(
                builder.name@,
                props_view(builder.properties@),
                prefix + name@ + seq!['_'],
                description@,
            ),
        }
    }
}

/// The entries of a whole group named `name` under `prefix`.
pub open spec fn group_layout(name: Seq<char>, items: Seq<PropertyGroupItem>, prefix: Seq<char>, description: Seq<char>) -> Seq<PropDescView> {
    seq![group_header(name, usage_group(), prefix, description)] + items_layout(items, prefix)
}

/// Builds the entries of a property group step by step.
pub struct PropertyGroupBuilder {
    pub name: &'static str,
    pub properties: Vec<PropertyGroupItem>,
}

impl PropertyGroupBuilder {
    pub fn new(name: &'static str, capacity: usize) -> (r: Self)
        ensures
            r.name == name,
            r.properties@.len() == 0,
    {
        PropertyGroupBuilder { name, properties: Vec::with_capacity(capacity) }
    }

    /// Adds a property after the items already added.
    pub fn add_property(self, property_desc: RustScriptPropDesc) -> (r: Self)
        ensures
            r.name == self.name,
            r.properties@ == self.properties@.push(PropertyGroupItem::Prop(property_desc)),
    {
        let mut this = self;
        this.properties.push(PropertyGroupItem::Prop(property_desc));
        this
    }

    /// Adds a subgroup, flattened under `name`, after the items already added.
    pub fn add_subgroup(self, name: &'static str, description: &'static str, subgroup: PropertySubgroupBuilder) -> (r: Self)
        ensures
            r.name == self.name,
            r.properties@ == self.properties@.push(PropertyGroupItem::Sub { name, description, builder: subgroup }),
    {
        let mut this = self;
        this.properties.push(PropertyGroupItem::Sub { name, description, builder: subgroup });
        this
    }

    /// The group's entries under `prefix`: a `GROUP` header that carries the
    /// group's name and the prefix, then the entries of every item in order.
    pub fn build(self, prefix: &str, description: &'static str) -> (r: Vec<RustScriptPropDesc>)
        ensures
            props_view(r@) == group_layout(self.name@, self.properties@, prefix@, description@),
    {
        let mut out: Vec<RustScriptPropDesc> = Vec::new();
        out.push(header_entry(self.name, PropertyUsageFlags::group(), prefix, description));
        assert(props_view(out@) =~= seq![group_header(self.name@, usage_group(), prefix@, description@)]);
        let ghost all = self.properties@;
        for item in it: self.properties
            invariant
                it.seq() == all,
                props_view(out@) == seq![group_header(self.name@, usage_group(), prefix@, description@)]
                    + items_layout(all.take(it.index() as int), prefix@),
        {
            let ghost k = it.index() as int;
            let ghost before = props_view(out@);
            assert(all.take(k + 1).drop_last() == all.take(k));
            assert(all.take(k + 1).last() == item);
            let ghost mut part: Seq<PropDescView> = Seq::empty();
            match item {
                PropertyGroupItem::Prop(prop) => {
                    let mut one: Vec<RustScriptPropDesc> = Vec::new();
                    one.push(prop);
                    push_prefixed(&mut out, one, prefix);
                    assert(prefix_all(props_view(one@), prefix@) =~= seq![prefixed(prop@, prefix@)]);
                    proof {
                        part = seq![prefixed(prop@, prefix@)];
                    }
                },
                PropertyGroupItem::Sub { name, description: sub_description, builder } => {
                    let ghost sub_name = builder.name@;
                    let ghost sub_props = props_view(builder.properties@);
                    let sub_prefix = concat_str(prefix, name);
                    let mut sub_prefix = sub_prefix;
                    crate::text::push_char(&mut sub_prefix, '_');
                    assert(sub_prefix@ =~= prefix@ + name@ + seq!['_']);
                    let mut entries = builder.build(sub_prefix.as_str(), sub_description);
                    let ghost added = props_view(entries@);
                    out.append(&mut entries);
                    assert(props_view(out@) =~= before + added);
                    proof {
                        part = added;
                        assert(part == subgroup_layout(sub_name, sub_props, prefix@ + name@ + seq!['_'], sub_description@));
                    }
                },
            }
            assert(props_view(out@) == before + part);
            assert(items_layout(all.take(k + 1), prefix@) == items_layout(all.take(k), prefix@) + part);
            assert(props_view(out@) =~= seq![group_header(self.name@, usage_group(), prefix@, description@)]
                + items_layout(all.take(k + 1), prefix@));
        }
        assert(all.take(all.len() as int) == all);
        out
    }
}

/// The entries of the first items come before those of later items.
proof fn lemma_items_layout_grows(items: Seq<PropertyGroupItem>, prefix: Seq<char>, k: int, e: PropDescView)
    requires
        0 <= k <= items.len(),
        items_layout(items.take(k), prefix).contains(e),
    ensures
        items_layout(items, prefix).contains(e),
    decreases items.len() - k,
{
    if k < items.len() {
        let longer = items.take(k + 1);
        assert(longer.drop_last() == items.take(k));
        let w = choose|w: int| 0 <= w < items_layout(items.take(k), prefix).len() && items_layout(items.take(k), prefix)[w] == e;
        assert(items_layout(longer, prefix)[w] == e);
        lemma_items_layout_grows(items, prefix, k + 1, e);
    } else {
        assert(items.take(k) == items);
    }
}

/// A group opens with its header and lists every property added to it,
/// with the group's prefix before its name, and every property of an added
/// subgroup, with the prefix, the subgroup's name and `_` before its name.
pub proof fn law_group_lists_every_property(name: Seq<char>, items: Seq<PropertyGroupItem>, prefix: Seq<char>, description: Seq<char>, i: int, j: int)
    requires
        0 <= i < items.len(),
    ensures
        group_layout(name, items, prefix, description)[0] == group_header(name, usage_group(), prefix, description),
        items[i] matches PropertyGroupItem::Prop(p) ==> group_layout(name, items, prefix, description).contains(prefixed(p@, prefix)),
        items[i] matches PropertyGroupItem::Sub { name: sub, builder, .. } ==> (0 <= j < builder.properties@.len()
            ==> group_layout(name, items, prefix, description).contains(
                prefixed(builder.properties@[j]@, prefix + sub@ + seq!['_']))),
{
    let layout = group_layout(name, items, prefix, description);
    let upto = items.take(i + 1);
    assert(upto.drop_last() == items.take(i));
    assert(upto.last() == items[i]);
    let before = items_layout(items.take(i), prefix);
    match items[i] {
        PropertyGroupItem::Prop(p) => {
            let e = prefixed(p@, prefix);
            assert(items_layout(upto, prefix)[before.len() as int] == e);
            lemma_items_layout_grows(items, prefix, i + 1, e);
            let w = choose|w: int| 0 <= w < items_layout(items, prefix).len() && items_layout(items, prefix)[w] == e;
            assert(layout[w + 1] == e);
        },
        PropertyGroupItem::Sub { name: sub, description: sub_description, builder } => {
            if 0 <= j < builder.properties@.len() {
                let sub_prefix = prefix + sub@ + seq!['_'];
                let e = prefixed(builder.properties@[j]@, sub_prefix);
                let part = subgroup_layout(builder.name@, props_view(builder.properties@), sub_prefix, sub_description@);
                assert(part[j + 1] == e);
                assert(items_layout(upto, prefix)[before.len() + j + 1] == e);
                lemma_items_layout_grows(items, prefix, i + 1, e);
                let w = choose|w: int| 0 <= w < items_layout(items, prefix).len() && items_layout(items, prefix)[w] == e;
                assert(layout[w + 1] == e);
            }
        },
    }
}

/// The unprefixed name of the property that switches an optional
/// property group on and off.
pub open spec fn group_enable_name() -> Seq<char> {
    "enable"@
}

/// The switch property of an optional property group: a boolean script
/// variable that the editor shows and stores, hinted as a group switch.
pub open spec fn group_enable_view() -> PropDescView {
    PropDescView {
        name: group_enable_name(),
        ty: VariantType::Bool,
        class_name: Seq::empty(),
        usage: crate::engine_types::usage_exported(),
        hint: crate::engine_types::hint_group_enable(),
        hint_string: Seq::empty(),
        description: ""@,
    }
}

/// The description of the switch property of an optional property group.
pub fn group_enable_property() -> (r: RustScriptPropDesc)
    ensures
        r@ == group_enable_view(),
{
    proof {
        reveal_strlit("");
    }
    let r = RustScriptPropDesc {
        name: "enable".to_owned(),
        ty: VariantType::Bool,
        class_name: ClassId::none(),
        usage: PropertyUsageFlags::exported(),
        hint: PropertyHint::group_enable(),
        hint_string: String::new(),
        description: "",
    };
    assert(r@ == group_enable_view());
    r
}

/// The properties of an optional group: those of the inner group, then the
/// switch property.
pub fn optional_group_properties(inner: PropertyGroupBuilder) -> (r: PropertyGroupBuilder)
    ensures
        r.name == inner.name,
        r.properties@.len() == inner.properties@.len() + 1,
        forall|i: int| 0 <= i < inner.properties@.len() ==> r.properties@[i] == inner.properties@[i],
        r.properties@.last() matches PropertyGroupItem::Prop(p) && p@ == group_enable_view(),
{
    inner.add_property(group_enable_property())
}

/// Whether `name` is the switch property of an optional group.
pub fn is_group_enable_property(name: &str) -> (r: bool)
    ensures
        r == (name@ == group_enable_name()),
{
    crate::text::str_eq(name, "enable")
}

/// The key under which an optional group named `prefix` records the state
/// of its switch: `"<prefix>_enable"`.
pub fn group_enable_state_key(prefix: &str) -> (r: String)
    ensures
        r@ == prefix@ + "_"@ + group_enable_name(),
{
    let a = concat_str(prefix, "_");
    concat_str(a.as_str(), "enable")
}

/// Where reading a property of an optional group leads.
#[derive(PartialEq, Eq, Structural)]
pub enum SwitchedGet {
    /// The switch property: whether the group is enabled.
    Switch(bool),
    /// A property of the inner group, which is present.
    Inner,
    /// No value: the group is disabled.
    Nothing,
}

/// What writing a property of an optional group does.
#[derive(PartialEq, Eq, Structural)]
pub enum SwitchedSet {
    /// The switch is set on: the inner group is created with its defaults.
    Enable,
    /// The switch is set off: the inner group is dropped.
    Disable,
    /// The write goes to the inner group, which is present.
    Inner,
    /// The write is refused: the group is disabled.
    Refuse,
}

pub open spec fn switched_get(name: Seq<char>, enabled: bool) -> SwitchedGet {
    if name == group_enable_name() {
        SwitchedGet::Switch(enabled)
    } else if enabled {
        SwitchedGet::Inner
    } else {
        SwitchedGet::Nothing
    }
}

pub open spec fn switched_set(name: Seq<char>, switch_on: bool, enabled: bool) -> SwitchedSet {
    if name == group_enable_name() {
        if switch_on {
            SwitchedSet::Enable
        } else {
            SwitchedSet::Disable
        }
    } else if enabled {
        SwitchedSet::Inner
    } else {
        SwitchedSet::Refuse
    }
}

/// Whether the group is enabled after a write that did `s`.
pub open spec fn enabled_after(s: SwitchedSet, enabled: bool) -> bool {
    match s {
        SwitchedSet::Enable => true,
        SwitchedSet::Disable => false,
        _ => enabled,
    }
}

/// Where reading the property `name` of an optional group leads; `enabled`
/// tells whether the inner group is present.
pub fn optional_group_get(name: &str, enabled: bool) -> (r: SwitchedGet)
    ensures
        r == switched_get(name@, enabled),
{
    if is_group_enable_property(name) {
        SwitchedGet::Switch(enabled)
    } else if enabled {
        SwitchedGet::Inner
    } else {
        SwitchedGet::Nothing
    }
}

/// What writing the property `name` of an optional group does; `switch_on`
/// is the written value read as a boolean, which only the switch uses.
pub fn optional_group_set(name: &str, switch_on: bool, enabled: bool) -> (r: SwitchedSet)
    ensures
        r == switched_set(name@, switch_on, enabled),
{
    if is_group_enable_property(name) {
        if switch_on {
            SwitchedSet::Enable
        } else {
            SwitchedSet::Disable
        }
    } else if enabled {
        SwitchedSet::Inner
    } else {
        SwitchedSet::Refuse
    }
}

/// The optional group after a write that did `s`: a fresh group when the
/// switch is set on (an existing group is replaced), none when it is set
/// off, and otherwise the group as it was (a write to the inner group
/// changes only its properties).
pub open spec fn group_after<T>(group: Option<T>, s: SwitchedSet, fresh: Option<T>) -> Option<T> {
    match s {
        SwitchedSet::Enable => fresh,
        SwitchedSet::Disable => None,
        _ => group,
    }
}

/// What a write that did `s` answers: the switch accepts every write, a
/// disabled group refuses the others, and an enabled group answers for
/// itself (`None`).
pub open spec fn write_answer(s: SwitchedSet) -> Option<bool> {
    match s {
        SwitchedSet::Enable => Some(true),
        SwitchedSet::Disable => Some(true),
        SwitchedSet::Refuse => Some(false),
        SwitchedSet::Inner => None,
    }
}

/// Writes the property `name` of an optional group. Setting the switch on
/// replaces the group by `fresh` (the inner group's defaults), setting it
/// off drops the group; both answer `true`. A write to another property of
/// a disabled group answers `false`; one to an enabled group leaves it to
/// the inner group (`None`). `switch_on` is the written value read as a
/// boolean, which only the switch uses.
pub fn optional_group_write<T>(group: &mut Option<T>, name: &str, switch_on: bool, fresh: Option<T>) -> (r: Option<bool>)
    requires
        switched_set(name@, switch_on, (*old(group)) is Some) == SwitchedSet::Enable ==> fresh is Some,
    ensures
        r == write_answer(switched_set(name@, switch_on, (*old(group)) is Some)),
        *final(group) == group_after(*old(group), switched_set(name@, switch_on, (*old(group)) is Some), fresh),
{
    match optional_group_set(name, switch_on, group.is_some()) {
        SwitchedSet::Enable => {
            *group = fresh;
            Some(true)
        },
        SwitchedSet::Disable => {
            *group = None;
            Some(true)
        },
        SwitchedSet::Refuse => Some(false),
        SwitchedSet::Inner => None,
    }
}

/// The switch of an optional group reads back what was last written to
/// it; writes to the properties of a disabled group are refused and leave
/// it disabled, while writes to an enabled group reach the inner group and
/// leave it enabled.
pub proof fn law_optional_group_switch(switch_on: bool, enabled: bool, name: Seq<char>)
    ensures
        switched_get(group_enable_name(), enabled_after(switched_set(group_enable_name(), switch_on, enabled), enabled))
            == SwitchedGet::Switch(switch_on),
        name != group_enable_name() ==> enabled_after(switched_set(name, switch_on, enabled), enabled) == enabled,
        name != group_enable_name() && !enabled ==> switched_set(name, switch_on, enabled) == SwitchedSet::Refuse
            && switched_get(name, enabled) == SwitchedGet::Nothing,
        name != group_enable_name() && enabled ==> switched_set(name, switch_on, enabled) == SwitchedSet::Inner
            && switched_get(name, enabled) == SwitchedGet::Inner,
{
}

/// Writing the switch of an optional group is always accepted: setting it
/// on leaves a fresh group (replacing one that was there), setting it off
/// leaves none, and the switch then reads back the written value while
/// every other property of a group switched off reads as nothing. Any
/// other write to a disabled group is refused and changes nothing; one to
/// an enabled group keeps the group and answers what the inner group
/// answers.
pub proof fn law_optional_group_write<T>(group: Option<T>, name: Seq<char>, switch_on: bool, fresh: T, other: Seq<char>)
    ensures
        ({
            let s = switched_set(group_enable_name(), switch_on, group is Some);
            let after = group_after(group, s, Some(fresh));
            &&& write_answer(s) == Some(true)
            &&& after == (if switch_on { Some(fresh) } else { None::<T> })
            &&& switched_get(group_enable_name(), after is Some) == SwitchedGet::Switch(switch_on)
            &&& (!switch_on && other != group_enable_name() ==> switched_get(other, after is Some) == SwitchedGet::Nothing)
        }),
        name != group_enable_name() && group is None ==> ({
            let s = switched_set(name, switch_on, group is Some);
            write_answer(s) == Some(false) && group_after(group, s, Some(fresh)) == group
        }),
        name != group_enable_name() && group is Some ==> ({
            let s = switched_set(name, switch_on, group is Some);
            write_answer(s) is None && group_after(group, s, Some(fresh)) == group
        }),
{
}

} // verus!
