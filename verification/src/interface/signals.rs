//! The argument lists that script signals declare.
use vstd::prelude::*;

use crate::engine_types::{ClassId, PropertyHint, PropertyUsageFlags, VariantType, hint_none, usage_none};
use crate::static_script_registry::RustScriptPropDesc;
use crate::text::{int_text, push_char, push_decimal};

verus! {

/// The description of a signal argument named `name` of type `ty`: no
/// usage, no hint, no hint string, no description.
pub fn signal_argument_desc(name: String, ty: VariantType, class_name: ClassId) -> (r: RustScriptPropDesc)
    ensures
        r.name@ == name@,
        r.ty == ty,
        r.class_name@ == class_name@,
        r.usage.bits == usage_none(),
        r.hint.ord == hint_none(),
        r.hint_string@ == Seq::<char>::empty(),
        r.description@ == Seq::<char>::empty(),
{
    proof {
        reveal_strlit("");
    }
    RustScriptPropDesc {
        name,
        ty,
        class_name,
        usage: PropertyUsageFlags::none(),
        hint: PropertyHint::none(),
        hint_string: String::new(),
        description: "",
    }
}

/// The default name of the `i`-th argument (counting from 1) of a tuple of
/// signal arguments: `A1`, `A2`, ...
pub open spec fn tuple_default_name(i: nat) -> Seq<char> {
    seq!['A'] + int_text(i as int)
}

/// The names of the arguments of a tuple signal with `count` arguments:
/// the given names, or `A1` .. `A<count>`.
pub fn tuple_argument_names(arg_names: Option<&Vec<&'static str>>, count: usize) -> (r: Vec<String>)
    requires
        arg_names matches Some(names) ==> names@.len() == count,
    ensures
        r@.len() == count,
        forall|i: int| 0 <= i < count ==> #[trigger] r@[i]@ == match arg_names {
            Some(names) => names@[i]@,
            None => tuple_default_name((i + 1) as nat),
        },
{
    let mut out: Vec<String> = Vec::new();
    let mut i: usize = 0;
    while i < count
        invariant
            i <= count,
            arg_names matches Some(names) ==> names@.len() == count,
            out@.len() == i,
            forall|j: int| 0 <= j < i ==> #[trigger] out@[j]@ == match arg_names {
                Some(names) => names@[j]@,
                None => tuple_default_name((j + 1) as nat),
            },
        decreases count - i,
    {
        let name = match arg_names {
            Some(names) => names[i].to_owned(),
            None => {
                let mut s = String::new();
                push_char(&mut s, 'A');
                push_decimal(&mut s, (i as u64) + 1);
                assert(s@ =~= tuple_default_name((i + 1) as nat));
                s
            },
        };
        out.push(name);
        i = i + 1;
    }
    out
}

/// The name of the argument of a single-value signal: the one given name,
/// or `0`.
pub fn single_argument_name(arg_names: Option<&Vec<&'static str>>) -> (r: String)
    requires
        arg_names matches Some(names) ==> names@.len() == 1,
    ensures
        r@ == match arg_names {
            Some(names) => names@[0]@,
            None => "0"@,
        },
{
    match arg_names {
        Some(names) => names[0].to_owned(),
        None => "0".to_owned(),
    }
}

/// The name of the argument of an object signal: the first given name, or
/// `0` when no name is given.
pub fn object_argument_name(arg_names: Option<&Vec<&'static str>>) -> (r: String)
    ensures
        r@ == match arg_names {
            Some(names) => if names@.len() > 0 { names@[0]@ } else { "0"@ },
            None => "0"@,
        },
{
    match arg_names {
        Some(names) => {
            if names.len() > 0 {
                names[0].to_owned()
            } else {
                "0".to_owned()
            }
        },
        None => "0".to_owned(),
    }
}

/// `d` describes a signal argument named `name` of the given type and class.
pub open spec fn is_signal_arg(d: RustScriptPropDesc, name: Seq<char>, ty: VariantType, class_name: Seq<char>) -> bool {
    &&& d.name@ == name
    &&& d.ty == ty
    &&& d.class_name@ == class_name
    &&& d.usage.bits == usage_none()
    &&& d.hint.ord == hint_none()
    &&& d.hint_string@ == Seq::<char>::empty()
    &&& d.description@ == Seq::<char>::empty()
}

/// The descriptions of a signal's arguments: one per name, with the type
/// and class at the same position.
pub fn signal_argument_descs(names: &Vec<String>, types: &Vec<(VariantType, ClassId)>) -> (r: Vec<RustScriptPropDesc>)
    requires
        names@.len() == types@.len(),
    ensures
        r@.len() == names@.len(),
        forall|i: int| 0 <= i < r@.len() ==> is_signal_arg(#[trigger] r@[i], names@[i]@, types@[i].0, types@[i].1@),
{
    let mut out: Vec<RustScriptPropDesc> = Vec::new();
    let mut k: usize = 0;
    while k < names.len()
        invariant
            k <= names@.len(),
            names@.len() == types@.len(),
            out@.len() == k,
            forall|i: int| 0 <= i < out@.len() ==> is_signal_arg(#[trigger] out@[i], names@[i]@, types@[i].0, types@[i].1@),
        decreases names@.len() - k,
    {
        let ty = types[k].0;
        let class_name = types[k].1.duplicate();
        let d = signal_argument_desc(names[k].clone(), ty, class_name);
        out.push(d);
        k = k + 1;
    }
    out
}

} // verus!
