//! Script instances as the engine sees them: the property and method lists
//! they report, and the placeholder instance that stands in for a script
//! in the editor, holding property values without running any code.
use vstd::prelude::*;

use crate::derive::impl_attribute::CallError;
use crate::engine_types::VariantType;
use crate::runtime::script::has_method_named;
use crate::static_script_registry::{RustScriptMethodDesc, RustScriptPropDesc};
use crate::text::str_eq;

verus! {

/// Whether some property in `props` is named `name`.
pub open spec fn has_property_named(props: Seq<RustScriptPropDesc>, name: Seq<char>) -> bool {
    exists|i: int| 0 <= i < props.len() && #[trigger] props[i].name@ == name
}

/// The position of the first property in `props` named `name`.
pub fn find_property(props: &Vec<RustScriptPropDesc>, name: &str) -> (r: Option<usize>)
    ensures
        match r {
            None => !has_property_named(props@, name@),
            Some(i) => i < props@.len() && props@[i as int].name@ == name@
                && forall|j: int| 0 <= j < i ==> props@[j].name@ != name@,
        },
{
    let mut i: usize = 0;
    while i < props.len()
        invariant
            i <= props.len(),
            forall|j: int| 0 <= j < i ==> props@[j].name@ != name@,
        decreases props.len() - i,
    {
        if str_eq(props[i].name.as_str(), name) {
            return Some(i);
        }
        i = i + 1;
    }
    None
}

/// The type of the first property named `name`, or `Nil` when there is
/// none.
pub fn get_property_type(props: &Vec<RustScriptPropDesc>, name: &str) -> (r: VariantType)
    ensures
        !has_property_named(props@, name@) ==> r == VariantType::Nil,
        has_property_named(props@, name@) ==> exists|i: int| 0 <= i < props@.len()
            && props@[i].name@ == name@ && r == props@[i].ty
            && forall|j: int| 0 <= j < i ==> props@[j].name@ != name@,
{
    match find_property(props, name) {
        None => VariantType::Nil,
        Some(i) => props[i].ty,
    }
}

/// Whether some method in `methods` is named `name`.
pub fn list_has_method(methods: &Vec<RustScriptMethodDesc>, name: &str) -> (r: bool)
    ensures
        r == has_method_named(methods@, name@),
{
    crate::runtime::script::find_method(methods, name).is_some()
}

/// The number of arguments of the first method named `name`.
pub fn get_method_argument_count(methods: &Vec<RustScriptMethodDesc>, name: &str) -> (r: Option<u32>)
    ensures
        r is None <==> !has_method_named(methods@, name@),
        r matches Some(n) ==> exists|i: int| 0 <= i < methods@.len()
            && methods@[i].name@ == name@ && n == (methods@[i].arguments@.len() as u32)
            && forall|j: int| 0 <= j < i ==> methods@[j].name@ != name@,
{
    match crate::runtime::script::find_method(methods, name) {
        None => None,
        Some(i) => {
            #[verifier::truncate]
            let n = methods[i].arguments.len() as u32;
            Some(n)
        },
    }
}

/// The keys of `entries` are pairwise distinct.
pub open spec fn keys_unique<V>(entries: Seq<(String, V)>) -> bool {
    forall|i: int, j: int| 0 <= i < j < entries.len() ==> #[trigger] entries[i].0@ != #[trigger] entries[j].0@
}

/// The map that the entries denote.
pub open spec fn entries_map<V>(entries: Seq<(String, V)>) -> Map<Seq<char>, V>
    decreases entries.len(),
{
    if entries.len() == 0 {
        Map::empty()
    } else {
        entries_map(entries.drop_last()).insert(entries.last().0@, entries.last().1)
    }
}

proof fn lemma_entries_map_contains<V>(entries: Seq<(String, V)>, k: Seq<char>)
    ensures
        entries_map(entries).contains_key(k) <==> exists|i: int| 0 <= i < entries.len() && #[trigger] entries[i].0@ == k,
    decreases entries.len(),
{
    if entries.len() > 0 {
        lemma_entries_map_contains(entries.drop_last(), k);
        if entries_map(entries.drop_last()).contains_key(k) {
            let i = choose|i: int| 0 <= i < entries.drop_last().len() && #[trigger] entries.drop_last()[i].0@ == k;
            assert(entries[i].0@ == k);
        }
        if exists|i: int| 0 <= i < entries.len() && #[trigger] entries[i].0@ == k {
            let i = choose|i: int| 0 <= i < entries.len() && #[trigger] entries[i].0@ == k;
            if i < entries.len() - 1 {
                assert(entries.drop_last()[i].0@ == k);
            }
        }
    }
}

proof fn lemma_entries_map_update<V>(entries: Seq<(String, V)>, i: int, e: (String, V))
    requires
        keys_unique(entries),
        0 <= i < entries.len(),
        entries[i].0@ == e.0@,
    ensures
        entries_map(entries.update(i, e)) == entries_map(entries).insert(e.0@, e.1),
    decreases entries.len(),
{
    let n = entries.len();
    let up = entries.update(i, e);
    if i == n - 1 {
        assert(up.drop_last() == entries.drop_last());
        assert(entries_map(up) =~= entries_map(entries).insert(e.0@, e.1));
    } else {
        assert(up.drop_last() == entries.drop_last().update(i, e));
        lemma_entries_map_update(entries.drop_last(), i, e);
        assert(entries[n - 1].0@ != entries[i].0@);
        assert(entries_map(up) =~= entries_map(entries).insert(e.0@, e.1));
    }
}

/// A set of property values keyed by property name.
pub struct PropertyStore<V> {
    entries: Vec<(String, V)>,
}

impl<V> PropertyStore<V> {
    #[verifier::type_invariant]
    spec fn inv(self) -> bool {
        keys_unique(self.entries@)
    }

    /// The values, by property name.
    pub closed spec fn spec_map(self) -> Map<Seq<char>, V> {
        entries_map(self.entries@)
    }

    pub fn new() -> (r: Self)
        ensures
            r.spec_map() == Map::<Seq<char>, V>::empty(),
    {
        PropertyStore { entries: Vec::new() }
    }

    /// The value stored under `name`, if any.
    pub fn get(&self, name: &str) -> (r: Option<&V>)
        ensures
            match r {
                None => !self.spec_map().contains_key(name@),
                Some(v) => self.spec_map().contains_key(name@) && self.spec_map()[name@] == *v,
            },
    {
        proof {
            use_type_invariant(self);
        }
        let mut i: usize = self.entries.len();
        assert(self.entries@.take(i as int) == self.entries@);
        while i > 0
            invariant
                i <= self.entries@.len(),
                keys_unique(self.entries@),
                forall|j: int| i <= j < self.entries@.len() ==> #[trigger] self.entries@[j].0@ != name@,
            decreases i,
        {
            let j = i - 1;
            if str_eq(self.entries[j].0.as_str(), name) {
                proof {
                    lemma_lookup_unique(self.entries@, j as int);
                }
                return Some(&self.entries[j].1);
            }
            i = j;
        }
        proof {
            lemma_entries_map_contains(self.entries@, name@);
        }
        None
    }

    /// Stores `value` under `name`, replacing a value stored there before.
    pub fn insert(&mut self, name: String, value: V)
        ensures
            final(self).spec_map() == old(self).spec_map().insert(name@, value),
    {
        proof {
            use_type_invariant(&*self);
        }
        let mut entries: Vec<(String, V)> = Vec::new();
        std::mem::swap(&mut entries, &mut self.entries);
        let ghost before = entries@;
        assert(before == old(self).entries@);
        let mut i: usize = 0;
        while i < entries.len()
            invariant
                i <= entries@.len(),
                entries@ == before,
                before == old(self).entries@,
                keys_unique(before),
                forall|j: int| 0 <= j < i ==> #[trigger] before[j].0@ != name@,
            decreases entries@.len() - i,
        {
            if str_eq(entries[i].0.as_str(), name.as_str()) {
                proof {
                    lemma_entries_map_update(before, i as int, (name, value));
                    assert forall|a: int, b: int| 0 <= a < b < before.len() implies
                        #[trigger] before.update(i as int, (name, value))[a].0@ != #[trigger] before.update(i as int, (name, value))[b].0@ by {
                    }
                }
                let ghost e = (name, value);
                entries.set(i, (name, value));
                assert(entries@ == before.update(i as int, e));
                assert(entries_map(entries@) == entries_map(before).insert(name@, value));
                self.entries = entries;
                return;
            }
            i = i + 1;
        }
        proof {
            assert forall|a: int, b: int| 0 <= a < b < before.len() + 1 implies
                #[trigger] before.push((name, value))[a].0@ != #[trigger] before.push((name, value))[b].0@ by {
            }
        }
        entries.push((name, value));
        assert(entries@.drop_last() == before);
        self.entries = entries;
    }

    /// The stored names and values.
    pub fn entries(&self) -> (r: &Vec<(String, V)>)
        ensures
            keys_unique(r@),
            entries_map(r@) == self.spec_map(),
    {
        proof {
            use_type_invariant(self);
        }
        &self.entries
    }
}

/// With distinct keys, the entry at `j` holds the map's value for its key.
proof fn lemma_lookup_unique<V>(entries: Seq<(String, V)>, j: int)
    requires
        keys_unique(entries),
        0 <= j < entries.len(),
    ensures
        entries_map(entries).contains_key(entries[j].0@),
        entries_map(entries)[entries[j].0@] == entries[j].1,
    decreases entries.len(),
{
    if j < entries.len() - 1 {
        lemma_lookup_unique(entries.drop_last(), j);
        assert(entries.drop_last()[j] == entries[j]);
        assert(entries.last().0@ != entries[j].0@);
    }
}

/// The values stored after setting `name` to `value` on a placeholder whose
/// script declares `props`: a property of the script takes the value; any
/// other name is refused and nothing changes.
pub open spec fn stored_after_set<V>(stored: Map<Seq<char>, V>, props: Seq<RustScriptPropDesc>, name: Seq<char>, value: V) -> Map<Seq<char>, V> {
    if has_property_named(props, name) {
        stored.insert(name, value)
    } else {
        stored
    }
}

/// What a placeholder gives back for a property is what was last set for
/// it; setting one property leaves the others as they were; a name that is
/// not a property of the script changes nothing.
pub proof fn law_placeholder_reads_back_writes<V>(stored: Map<Seq<char>, V>, props: Seq<RustScriptPropDesc>, name: Seq<char>, value: V, other: Seq<char>)
    ensures
        has_property_named(props, name) ==> stored_after_set(stored, props, name, value).contains_key(name)
            && stored_after_set(stored, props, name, value)[name] == value,
        other != name ==> stored_after_set(stored, props, name, value).contains_key(other) == stored.contains_key(other),
        other != name && stored.contains_key(other) ==> stored_after_set(stored, props, name, value)[other] == stored[other],
        !has_property_named(props, name) ==> stored_after_set(stored, props, name, value) == stored,
{
}

/// The instance that stands in for a script in the editor: it remembers
/// the values set for the script's properties and answers from the
/// script's property and method lists.
pub struct RustScriptPlaceholder<V> {
    pub properties: PropertyStore<V>,
    pub property_list: Vec<RustScriptPropDesc>,
    pub method_list: Vec<RustScriptMethodDesc>,
}

impl<V> RustScriptPlaceholder<V> {
    /// A placeholder with no stored values.
    pub fn new(property_list: Vec<RustScriptPropDesc>, method_list: Vec<RustScriptMethodDesc>) -> (r: Self)
        ensures
            r.properties.spec_map() == Map::<Seq<char>, V>::empty(),
            r.property_list@ == property_list@,
            r.method_list@ == method_list@,
    {
        RustScriptPlaceholder { properties: PropertyStore::new(), property_list, method_list }
    }

    /// Stores a value for a property of the script; a name that is not a
    /// property of the script is refused.
    pub fn set_property(&mut self, name: String, value: V) -> (r: bool)
        ensures
            r == has_property_named(old(self).property_list@, name@),
            final(self).properties.spec_map() == stored_after_set(
                old(self).properties.spec_map(),
                old(self).property_list@,
                name@,
                value,
            ),
            final(self).property_list@ == old(self).property_list@,
            final(self).method_list@ == old(self).method_list@,
    {
        if find_property(&self.property_list, name.as_str()).is_none() {
            return false;
        }
        self.properties.insert(name, value);
        true
    }

    /// The value stored for `name`, if any.
    pub fn get_property(&self, name: &str) -> (r: Option<&V>)
        ensures
            match r {
                None => !self.properties.spec_map().contains_key(name@),
                Some(v) => self.properties.spec_map().contains_key(name@) && self.properties.spec_map()[name@] == *v,
            },
    {
        self.properties.get(name)
    }

    /// Whether the script declares a method `name`.
    pub fn has_method(&self, name: &str) -> (r: bool)
        ensures
            r == has_method_named(self.method_list@, name@),
    {
        list_has_method(&self.method_list, name)
    }

    /// The type of the script's property `name`, or `Nil`.
    pub fn get_property_type(&self, name: &str) -> (r: VariantType)
        ensures
            !has_property_named(self.property_list@, name@) ==> r == VariantType::Nil,
            has_property_named(self.property_list@, name@) ==> exists|i: int| 0 <= i < self.property_list@.len()
                && self.property_list@[i].name@ == name@ && r == self.property_list@[i].ty
                && forall|j: int| 0 <= j < i ==> self.property_list@[j].name@ != name@,
    {
        get_property_type(&self.property_list, name)
    }

    /// A placeholder runs no code: every call fails as a call of an
    /// unknown method.
    pub fn call(&self, method: &str) -> (r: Result<V, CallError>)
        ensures
            r == Err::<V, CallError>(CallError::InvalidMethod),
    {
        Err(CallError::InvalidMethod)
    }

    /// The stored names and values: the state that the editor saves.
    pub fn property_state(&self) -> (r: &Vec<(String, V)>)
        ensures
            keys_unique(r@),
            entries_map(r@) == self.properties.spec_map(),
    {
        self.properties.entries()
    }

    /// A placeholder is always a placeholder.
    pub fn is_placeholder(&self) -> (r: bool)
        ensures
            r,
    {
        true
    }
}

} // verus!
