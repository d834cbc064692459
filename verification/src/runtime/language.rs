//! The rust scripting language as the engine sees it: how it names itself,
//! which script paths it accepts, and the decisions of its resource loader,
//! resource saver and export plugin.
use vstd::prelude::*;

use crate::class_name::{class_name_of_file, path_to_class_name, plain_final_component};
use crate::runtime::registry::ScriptRegistry;
use crate::text::{ends_with, is_prefix, is_suffix, starts_with, str_eq};

verus! {

/// The language's name, which is also the type of its scripts.
pub fn language_name() -> (r: &'static str)
    ensures
        r@ == "RustScript"@,
{
    "RustScript"
}

/// The file extension of rust scripts.
pub fn language_extension() -> (r: &'static str)
    ensures
        r@ == "rs"@,
{
    "rs"
}

/// Whether the language handles global classes of the type `type_`: its own.
pub fn handles_global_class_type(type_: &str) -> (r: bool)
    ensures
        r == (type_@ == "RustScript"@),
{
    str_eq(type_, "RustScript")
}

/// The name and base type under which the registry knows the script class
/// `class_name`.
pub fn global_class_for<D>(registry: &ScriptRegistry<D>, class_name: &str) -> (r: Option<(String, String)>)
    ensures
        match registry.spec_get(class_name@) {
            None => r is None,
            Some(m) => r matches Some(p) && p.0@ == class_name@ && p.1@ == m.base_type_name@,
        },
{
    match registry.get(class_name) {
        None => None,
        Some(m) => Some((class_name.to_owned(), m.base_type_name())),
    }
}

/// The global class that the script file at `path` declares, if its class
/// name can be derived from the path and the registry knows the class.
pub fn get_global_class_name<D>(registry: &ScriptRegistry<D>, path: &str) -> (r: Option<(String, String)>)
    ensures
        r matches Some(p) ==> registry.spec_get(p.0@) matches Some(m) && p.1@ == m.base_type_name@,
        plain_final_component(path@) matches Some(last) ==> match class_name_of_file(last) {
            None => r is None,
            Some(c) => match registry.spec_get(c) {
                None => r is None,
                Some(m) => r matches Some(p) && p.0@ == c && p.1@ == m.base_type_name@,
            },
        },
{
    match path_to_class_name(path) {
        None => None,
        Some(class_name) => global_class_for(registry, class_name.as_str()),
    }
}

/// The message with which the editor is told that a script path is not
/// valid, or the empty message for a valid path. `scripts_root` is the
/// location of the script sources, if known; a script must lie below it,
/// exist, and declare a class that the compiled library registers.
pub open spec fn validate_path_spec(scripts_root: Option<Seq<char>>, path: Seq<char>, file_exists: bool, class_registered: bool) -> Seq<char> {
    match scripts_root {
        None => "Unable to validate script location! RustScript source location is known in the current execution context."@,
        Some(root) => if !is_prefix(root, path) {
            "rust file is not part of the scripts crate!"@
        } else if !file_exists {
            "RustScripts can not be created via the Godot editor!"@
        } else if !class_registered {
            "Rust script has not been complied into shared library yet!"@
        } else {
            ""@
        },
    }
}

/// A path is valid (its message is empty) exactly when the scripts' root
/// is known, the path lies below it, the file exists and its class is
/// registered; every other path gets a message. Below the root, a file that
/// does not exist yet is refused because scripts cannot be created in the
/// editor, and an existing file whose class is not registered because it
/// was not compiled yet.
pub proof fn law_valid_paths_name_registered_scripts(
    scripts_root: Option<Seq<char>>,
    path: Seq<char>,
    file_exists: bool,
    class_registered: bool,
)
    ensures
        validate_path_spec(scripts_root, path, file_exists, class_registered).len() == 0
            <==> (scripts_root matches Some(root) && is_prefix(root, path) && file_exists && class_registered),
        scripts_root matches Some(root) && is_prefix(root, path) && !file_exists
            ==> validate_path_spec(scripts_root, path, file_exists, class_registered)
                == "RustScripts can not be created via the Godot editor!"@,
        scripts_root matches Some(root) && is_prefix(root, path) && file_exists && !class_registered
            ==> validate_path_spec(scripts_root, path, file_exists, class_registered)
                == "Rust script has not been complied into shared library yet!"@,
{
    reveal_strlit("Unable to validate script location! RustScript source location is known in the current execution context.");
    reveal_strlit("rust file is not part of the scripts crate!");
    reveal_strlit("RustScripts can not be created via the Godot editor!");
    reveal_strlit("Rust script has not been complied into shared library yet!");
    reveal_strlit("");
}

pub fn validate_path_message(scripts_root: Option<&str>, path: &str, file_exists: bool, class_registered: bool) -> (r: &'static str)
    ensures
        r@ == validate_path_spec(
            match scripts_root {
                Some(root) => Some(root@),
                None => None,
            },
            path@,
            file_exists,
            class_registered,
        ),
{
    let Some(root) = scripts_root else {
        return "Unable to validate script location! RustScript source location is known in the current execution context.";
    };
    if !starts_with(path, root) {
        return "rust file is not part of the scripts crate!";
    }
    if !file_exists {
        return "RustScripts can not be created via the Godot editor!";
    }
    if !class_registered {
        return "Rust script has not been complied into shared library yet!";
    }
    ""
}

/// Validates the path of a rust script: the class it declares must be
/// registered, besides the checks of `validate_path_message`.
pub fn validate_path<D>(registry: &ScriptRegistry<D>, scripts_root: Option<&str>, path: &str, file_exists: bool) -> (r: &'static str)
    ensures
        ({
            let root = match scripts_root {
                Some(root) => Some(root@),
                None => None,
            };
            &&& (r@ == validate_path_spec(root, path@, file_exists, true)
                || r@ == validate_path_spec(root, path@, file_exists, false))
            &&& plain_final_component(path@) matches Some(last) ==> r@ == validate_path_spec(
                root,
                path@,
                file_exists,
                class_name_of_file(last) matches Some(c) && registry.spec_get(c) is Some,
            )
        }),
{
    let registered = get_global_class_name(registry, path).is_some();
    validate_path_message(scripts_root, path, file_exists, registered)
}

/// Whether the resource loader handles resources of the type `type_`:
/// scripts in general and rust scripts.
pub fn loader_handles_type(type_: &str) -> (r: bool)
    ensures
        r == (type_@ == "Script"@ || type_@ == "RustScript"@),
{
    str_eq(type_, "Script") || str_eq(type_, "RustScript")
}

/// The resource type that the loader reports for `path`: a rust script
/// when the path ends with the language's extension and passes
/// validation, nothing otherwise.
pub fn loader_resource_type(path: &str, validation_message: &str) -> (r: &'static str)
    ensures
        r@ == if is_suffix("rs"@, path@) && validation_message@.len() == 0 {
            "RustScript"@
        } else {
            ""@
        },
{
    if !ends_with(path, "rs") {
        return "";
    }
    if validation_message.unicode_len() != 0 {
        return "";
    }
    "RustScript"
}

/// The resource saver's flag that moves a saved resource to its new path.
pub open spec fn saver_flag_change_path() -> u32 {
    4
}

/// What saving a resource does before any file is written.
#[derive(PartialEq, Eq, Structural)]
pub enum SavePlan {
    /// Nothing to save: the save fails.
    Fail,
    /// The script has no source code: nothing is written and the save
    /// succeeds.
    Done,
    /// The source code is written to the path.
    Write,
}

/// The plan for saving: whether the resource's path moves to the save
/// path, and what happens next.
pub fn save_plan(has_resource: bool, flags: u32, has_source_code: bool) -> (r: (bool, SavePlan))
    ensures
        r.0 == (has_resource && flags & saver_flag_change_path() != 0),
        r.1 == if !has_resource {
            SavePlan::Fail
        } else if !has_source_code {
            SavePlan::Done
        } else {
            SavePlan::Write
        },
{
    if !has_resource {
        return (false, SavePlan::Fail);
    }
    let change_path = flags & 4 != 0;
    if !has_source_code {
        return (change_path, SavePlan::Done);
    }
    (change_path, SavePlan::Write)
}

/// Whether the export plugin leaves a file out of an exported project:
/// rust sources are left out.
pub fn export_skips_file(path: &str) -> (r: bool)
    ensures
        r == is_suffix(".rs"@, path@),
{
    ends_with(path, ".rs")
}

/// Whether the reference count that a registered loader or saver shows at
/// shutdown is the expected one; any other count is reported.
pub fn expected_shutdown_ref_count(count: i32) -> (r: bool)
    ensures
        r == (count == 3),
{
    count == 3
}

} // verus!
