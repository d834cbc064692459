//! The registry of loaded script classes, keyed by class name.
use vstd::prelude::*;

use crate::static_script_registry::{entries_of, meta_from_entry, method_lists_of, RegistryItem, RustScriptMetaData};
use crate::text::str_eq;

verus! {

/// The last script in `scripts` whose class is named `name`.
pub open spec fn last_script_named<D>(scripts: Seq<RustScriptMetaData<D>>, name: Seq<char>) -> Option<RustScriptMetaData<D>>
    decreases scripts.len(),
{
    if scripts.len() == 0 {
        None
    } else if scripts.last().class_name@ == name {
        Some(scripts.last())
    } else {
        last_script_named(scripts.drop_last(), name)
    }
}

/// The loaded script classes. A class name that several loaded scripts
/// share denotes the one loaded last. The scripts are kept in load order
/// and looked up from the end, so that the lookup is proved against the
/// class names themselves: vstd specifies a hash map's lookups only for key
/// types whose hashing and equality it models, and `String` is not among
/// them.
pub struct ScriptRegistry<D> {
    scripts: Vec<RustScriptMetaData<D>>,
}

impl<D> ScriptRegistry<D> {
    /// The script registered under `name`, if any.
    pub closed spec fn spec_get(&self, name: Seq<char>) -> Option<RustScriptMetaData<D>> {
        last_script_named(self.scripts@, name)
    }

    /// The registry that knows no script.
    pub fn new() -> (r: Self)
        ensures
            forall|name: Seq<char>| #[trigger] r.spec_get(name) is None,
    {
        ScriptRegistry { scripts: Vec::new() }
    }

    /// The registry of the given scripts, each under its class name.
    pub fn from_scripts(scripts: Vec<RustScriptMetaData<D>>) -> (r: Self)
        ensures
            forall|name: Seq<char>| #[trigger] r.spec_get(name) == last_script_named(scripts@, name),
    {
        ScriptRegistry { scripts }
    }

    /// The script registered under `class_name`, if any.
    pub fn get(&self, class_name: &str) -> (r: Option<&RustScriptMetaData<D>>)
        ensures
            match r {
                None => self.spec_get(class_name@) is None,
                Some(m) => self.spec_get(class_name@) == Some(*m),
            },
    {
        let mut i: usize = self.scripts.len();
        assert(self.scripts@.take(i as int) == self.scripts@);
        while i > 0
            invariant
                i <= self.scripts.len(),
                last_script_named(self.scripts@, class_name@) == last_script_named(self.scripts@.take(i as int), class_name@),
            decreases i,
        {
            let j = i - 1;
            assert(self.scripts@.take(i as int).drop_last() == self.scripts@.take(j as int));
            if str_eq(self.scripts[j].class_name.to_str(), class_name) {
                return Some(&self.scripts[j]);
            }
            i = j;
        }
        None
    }
}

/// The initialization function of a script library: it returns the
/// metadata of every script class that the library defines.
pub trait RustScriptLibInit<D>: Fn() -> Vec<RustScriptMetaData<D>> {}

impl<D, F> RustScriptLibInit<D> for F where F: Fn() -> Vec<RustScriptMetaData<D>> {}

/// Runs the library's initialization function and replaces the registry
/// with the scripts that it returns, each under its class name.
pub fn load_rust_scripts<D, F: RustScriptLibInit<D>>(
    registry: &mut ScriptRegistry<D>,
    lib_init_fn: F,
)
    requires
        call_requires(lib_init_fn, ()),
    ensures
        exists|scripts: Vec<RustScriptMetaData<D>>|
            #[trigger] call_ensures(lib_init_fn, (), scripts)
            && forall|name: Seq<char>| #[trigger] final(registry).spec_get(name) == last_script_named(scripts@, name),
{
    let scripts = lib_init_fn();
    *registry = ScriptRegistry::from_scripts(scripts);
}

} // verus!

verus! {

/// Looking a name up among loaded scripts finds the last script loaded
/// under that name: a script is found under its own class name unless a
/// later script has the same name, and a name that no loaded script has
/// is not found.
pub proof fn law_last_loaded_script_wins<D>(scripts: Seq<RustScriptMetaData<D>>, i: int, name: Seq<char>)
    requires
        0 <= i < scripts.len(),
    ensures
        (forall|j: int| i < j < scripts.len() ==> #[trigger] scripts[j].class_name@ != scripts[i].class_name@)
            ==> last_script_named(scripts, scripts[i].class_name@) == Some(scripts[i]),
        (forall|j: int| 0 <= j < scripts.len() ==> #[trigger] scripts[j].class_name@ != name)
            ==> last_script_named(scripts, name) is None,
    decreases scripts.len(),
{
    if i < scripts.len() - 1 {
        law_last_loaded_script_wins(scripts.drop_last(), i, name);
        assert forall|j: int| i < j < scripts.len() - 1 implies #[trigger] scripts.drop_last()[j] == scripts[j] by {}
        assert forall|j: int| 0 <= j < scripts.len() - 1 implies #[trigger] scripts.drop_last()[j] == scripts[j] by {}
    } else if scripts.len() > 1 {
        law_last_loaded_script_wins(scripts.drop_last(), 0, name);
        assert forall|j: int| 0 <= j < scripts.len() - 1 implies #[trigger] scripts.drop_last()[j] == scripts[j] by {}
    }
}

/// A class registered with the script library is found, once the
/// metadata assembled from the registrations is loaded, under its class
/// name, with the properties, signals and data of its registration and the
/// methods of the last method list registered for it, unless a later
/// registration uses the same class name.
pub proof fn law_registered_class_is_found<D>(items: Seq<RegistryItem<D>>, metas: Seq<RustScriptMetaData<D>>, i: int)
    requires
        metas.len() == entries_of(items).len(),
        forall|j: int| 0 <= j < metas.len() ==> meta_from_entry(#[trigger] metas[j], entries_of(items)[j], method_lists_of(items)),
        0 <= i < metas.len(),
        forall|j: int| i < j < metas.len() ==> #[trigger] entries_of(items)[j].class_name@ != entries_of(items)[i].class_name@,
    ensures
        last_script_named(metas, entries_of(items)[i].class_name@) == Some(metas[i]),
        meta_from_entry(metas[i], entries_of(items)[i], method_lists_of(items)),
{
    let entries = entries_of(items);
    assert forall|j: int| i < j < metas.len() implies #[trigger] metas[j].class_name@ != metas[i].class_name@ by {
        assert(meta_from_entry(metas[j], entries[j], method_lists_of(items)));
        assert(meta_from_entry(metas[i], entries[i], method_lists_of(items)));
        assert(entries[j].class_name@ != entries[i].class_name@);
    }
    assert(meta_from_entry(metas[i], entries[i], method_lists_of(items)));
    law_last_loaded_script_wins(metas, i, metas[i].class_name@);
}

} // verus!
