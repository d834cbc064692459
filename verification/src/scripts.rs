//! Scripts defined with this library.
use vstd::prelude::*;

use crate::engine_types::{hint_enum, PropertyHint};
use crate::interface::cast::{EnumValueOutOfRange, GodotScriptEnum};

verus! {

/// An enumeration that scripts export to the editor.
#[derive(Clone, Copy, Debug, PartialEq, Eq, Structural)]
pub enum ScriptEnum {
    One,
    Two,
    Three,
}

impl Default for ScriptEnum {
    fn default() -> (r: Self)
        ensures
            r == ScriptEnum::One,
    {
        ScriptEnum::One
    }
}

impl GodotScriptEnum for ScriptEnum {
    open spec fn ordinal(self) -> u8 {
        match self {
            ScriptEnum::One => 0,
            ScriptEnum::Two => 1,
            ScriptEnum::Three => 2,
        }
    }

    open spec fn variant_count() -> nat {
        3
    }

    proof fn lemma_positions_are_distinct(a: Self, b: Self) {
    }

    fn to_godot(&self) -> (r: u8) {
        match self {
            ScriptEnum::One => 0,
            ScriptEnum::Two => 1,
            ScriptEnum::Three => 2,
        }
    }

    fn try_from_godot(via: u8) -> (r: Result<Self, EnumValueOutOfRange>) {
        match via {
            0 => Ok(ScriptEnum::One),
            1 => Ok(ScriptEnum::Two),
            2 => Ok(ScriptEnum::Three),
            _ => Err(EnumValueOutOfRange { value: via }),
        }
    }
}

impl ScriptEnum {
    /// The hint of the exported property: the custom hint, or `ENUM`.
    pub fn hint(custom: Option<PropertyHint>) -> (r: PropertyHint)
        ensures
            r == match custom {
                Some(c) => c,
                None => PropertyHint { ord: hint_enum() },
            },
    {
        match custom {
            Some(c) => c,
            None => PropertyHint::enum_(),
        }
    }

    /// The hint string of the exported property: the custom string, or the
    /// list of variants `One:0,Two:1,Three:2`.
    pub fn hint_string(custom_string: Option<String>) -> (r: String)
        ensures
            r@ == match custom_string {
                Some(c) => c@,
                None => "One:0,Two:1,Three:2"@,
            },
    {
        match custom_string {
            Some(c) => c,
            None => "One:0,Two:1,Three:2".to_owned(),
        }
    }
}

/// Each variant has its own value, below the number of variants, so the
/// value that the engine sees names the variant again: converting a
/// variant and converting the value back gives the same variant.
pub proof fn law_script_enum_values_name_variants(a: ScriptEnum, b: ScriptEnum)
    ensures
        a.ordinal() == b.ordinal() ==> a == b,
        (a.ordinal() as nat) < ScriptEnum::variant_count(),
{
}

/// Marks documentation examples that must fail to compile.
pub struct InternalDocTests;

} // verus!
