//! The hints that exported script properties give the editor.
use vstd::prelude::*;

use crate::engine_types::{
    engine_variant_numbering, hint_array_type, hint_node_type, hint_none, hint_resource_type, variant_type_ord,
    PropertyHint, VariantType,
};
use crate::text::{concat_str, i64_text, int_text, push_char};

verus! {

/// The hint of a property of a plain value type: the custom hint, or none.
pub fn default_export_hint(custom: Option<PropertyHint>) -> (r: PropertyHint)
    ensures
        r == match custom {
            Some(c) => c,
            None => PropertyHint { ord: hint_none() },
        },
{
    match custom {
        Some(c) => c,
        None => PropertyHint::none(),
    }
}

/// The hint string of a property of a plain value type: the custom string,
/// or the empty string.
pub fn default_export_hint_string(custom_string: Option<String>) -> (r: String)
    ensures
        r@ == match custom_string {
            Some(c) => c@,
            None => Seq::<char>::empty(),
        },
{
    match custom_string {
        Some(c) => c,
        None => String::new(),
    }
}

/// The hint of an object property: the custom hint; otherwise `NODE_TYPE`
/// for nodes, `RESOURCE_TYPE` for resources and none for other objects.
pub fn object_export_hint(custom: Option<PropertyHint>, inherits_node: bool, inherits_resource: bool) -> (r: PropertyHint)
    ensures
        r == match custom {
            Some(c) => c,
            None => if inherits_node {
                PropertyHint { ord: hint_node_type() }
            } else if inherits_resource {
                PropertyHint { ord: hint_resource_type() }
            } else {
                PropertyHint { ord: hint_none() }
            },
        },
{
    if let Some(custom) = custom {
        return custom;
    }
    if inherits_node {
        PropertyHint::node_type()
    } else if inherits_resource {
        PropertyHint::resource_type()
    } else {
        PropertyHint::none()
    }
}

/// The hint string of an object property: the custom string, or the name
/// of the object's class.
pub fn object_export_hint_string(custom_string: Option<String>, class_name: &str) -> (r: String)
    ensures
        r@ == match custom_string {
            Some(c) => c@,
            None => class_name@,
        },
{
    match custom_string {
        Some(c) => c,
        None => class_name.to_owned(),
    }
}

/// The hint of an array property: the custom hint, or `ARRAY_TYPE`.
pub fn array_export_hint(custom: Option<PropertyHint>) -> (r: PropertyHint)
    ensures
        r == match custom {
            Some(c) => c,
            None => PropertyHint { ord: hint_array_type() },
        },
{
    match custom {
        Some(c) => c,
        None => PropertyHint::array_type(),
    }
}

/// The hint string of a typed array: `"<element type>/<element hint>:<element hint string>"`,
/// the type and hint by their engine ordinals.
pub open spec fn array_hint_text(element_type: VariantType, element_hint: PropertyHint, element_hint_string: Seq<char>) -> Seq<char> {
    int_text(variant_type_ord(element_type)) + seq!['/'] + int_text(element_hint.ord as int) + seq![':'] + element_hint_string
}

pub fn array_export_hint_string(element_type: VariantType, element_hint: PropertyHint, element_hint_string: &str) -> (r: String)
    ensures
        r@ == array_hint_text(element_type, element_hint, element_hint_string@),
{
    let mut s = i64_text(element_type.ord() as i64);
    push_char(&mut s, '/');
    let t = i64_text(element_hint.ord as i64);
    let mut s = concat_str(s.as_str(), t.as_str());
    push_char(&mut s, ':');
    let r = concat_str(s.as_str(), element_hint_string);
    assert(r@ =~= array_hint_text(element_type, element_hint, element_hint_string@));
    r
}

/// The hint string of a typed array names its element type by the engine's
/// number for it (`engine_variant_numbering`), so that the editor shows
/// an array of that type: the type numbered `i` gives `"<i>/..."`; an
/// array of `Float` (numbered 3) with no element hint gives `"3/0:"`.
pub proof fn law_array_hints_use_the_engine_numbering(i: int, element_hint: PropertyHint, element_hint_string: Seq<char>)
    requires
        0 <= i < 40,
    ensures
        array_hint_text(engine_variant_numbering()[i], element_hint, element_hint_string)
            == int_text(i) + seq!['/'] + int_text(element_hint.ord as int) + seq![':'] + element_hint_string,
{
    crate::engine_types::law_variant_ordinals_follow_the_engine(engine_variant_numbering()[i], engine_variant_numbering()[i], i);
}

} // verus!
