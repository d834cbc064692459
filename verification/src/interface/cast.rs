//! Checking that an object carries the expected script before it is used
//! through that script's interface, and the enumerations that scripts
//! expose to the engine.
use vstd::prelude::*;

use crate::text::{concat_str, str_eq};

verus! {

/// Why an object could not be used as an instance of a script class.
pub enum GodotScriptCastError {
    NoScriptAttached,
    NotRustScript,
    ClassMismatch(&'static str, String),
}

/// The message that describes a cast error.
pub open spec fn cast_error_message(e: GodotScriptCastError) -> Seq<char> {
    match e {
        GodotScriptCastError::NoScriptAttached => "Object has no script attached!"@,
        GodotScriptCastError::NotRustScript => "Script attached to object is not a RustScript!"@,
        GodotScriptCastError::ClassMismatch(expected, found) =>
            "Script attached to object does not match expected script class `"@ + expected@
                + "` but found `"@ + found@ + "`!"@,
    }
}

impl GodotScriptCastError {
    /// The message that describes this error.
    pub fn message(&self) -> (r: String)
        ensures
            r@ == cast_error_message(*self),
    {
        match self {
            GodotScriptCastError::NoScriptAttached => "Object has no script attached!".to_owned(),
            GodotScriptCastError::NotRustScript => "Script attached to object is not a RustScript!".to_owned(),
            GodotScriptCastError::ClassMismatch(expected, found) => {
                let a = concat_str("Script attached to object does not match expected script class `", expected);
                let b = concat_str(a.as_str(), "` but found `");
                let c = concat_str(b.as_str(), found.as_str());
                concat_str(c.as_str(), "`!")
            },
        }
    }
}

/// What an object's script slot holds, as far as a cast needs to know.
pub enum AttachedScript {
    /// The slot holds a script that is not a rust script.
    Other,
    /// The slot is empty.
    Empty,
    /// A rust script of the class `class_name`.
    RustScript { class_name: String },
}

/// Checks that an object whose script slot holds `script` can be used as
/// an instance of the script class `expected`; the error tells why not.
pub fn validate_script(script: AttachedScript, expected: &'static str) -> (r: Option<GodotScriptCastError>)
    ensures
        match script {
            AttachedScript::Other => r matches Some(GodotScriptCastError::NotRustScript),
            AttachedScript::Empty => r matches Some(GodotScriptCastError::NoScriptAttached),
            AttachedScript::RustScript { class_name } =>
                if class_name@ == expected@ {
                    r is None
                } else {
                    r matches Some(GodotScriptCastError::ClassMismatch(e, found))
                        && e == expected && found@ == class_name@
                },
        },
{
    match script {
        AttachedScript::Other => Some(GodotScriptCastError::NotRustScript),
        AttachedScript::Empty => Some(GodotScriptCastError::NoScriptAttached),
        AttachedScript::RustScript { class_name } => {
            if str_eq(class_name.as_str(), expected) {
                None
            } else {
                Some(GodotScriptCastError::ClassMismatch(expected, class_name))
            }
        },
    }
}

/// An enumeration that scripts exchange with the engine as a `u8`: each
/// variant by its position in the declaration.
pub trait GodotScriptEnum: Sized {
    /// The position of the variant in the enumeration's declaration.
    spec fn ordinal(self) -> u8;

    /// The number of variants.
    spec fn variant_count() -> nat;

    /// Each variant has its own position, below the number of variants.
    proof fn lemma_positions_are_distinct(a: Self, b: Self)
        ensures
            a.ordinal() == b.ordinal() ==> a == b,
            (a.ordinal() as nat) < Self::variant_count();

    /// The value that the engine sees.
    fn to_godot(&self) -> (r: u8)
        ensures
            r == self.ordinal(),
            (r as nat) < Self::variant_count();

    /// The variant that the engine's value denotes; values past the last
    /// variant are out of range.
    fn try_from_godot(via: u8) -> (r: Result<Self, EnumValueOutOfRange>)
        ensures
            (via as nat) < Self::variant_count() <==> r is Ok,
            r matches Ok(e) ==> e.ordinal() == via,
            r matches Err(err) ==> err.value == via;
}

/// A value that no variant of an enumeration denotes.
pub struct EnumValueOutOfRange {
    pub value: u8,
}

impl EnumValueOutOfRange {
    /// The message that describes the error.
    pub fn message(&self) -> (r: String)
        ensures
            r@ == "Enum value "@ + crate::text::int_text(self.value as int) + " is out of range."@,
    {
        let n = crate::text::u64_text(self.value as u64);
        let a = concat_str("Enum value ", n.as_str());
        concat_str(a.as_str(), " is out of range.")
    }
}

/// The value that the engine sees of a variant names that variant again:
/// converting the value back gives the same variant, and no other variant
/// converts to the same value.
pub proof fn law_enum_values_round_trip<E: GodotScriptEnum>(a: E, b: E)
    ensures
        a.ordinal() == b.ordinal() ==> a == b,
        (a.ordinal() as nat) < E::variant_count(),
{
    E::lemma_positions_are_distinct(a, b);
}

} // verus!
