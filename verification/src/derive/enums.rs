//! Script enumerations: each variant is exchanged with the engine as the
//! `u8` of its position, and the editor lists the variants in a hint string.
use vstd::prelude::*;

use crate::interface::cast::EnumValueOutOfRange;
use crate::text::{concat_str, int_text, join_strings, join_with, push_char, strings_view, u64_text};

verus! {

/// The hint-string entry of the variant at position `index`: `"<name>:<index>"`,
/// the index taken as a `u8`.
pub open spec fn enum_hint_entry(name: Seq<char>, index: int) -> Seq<char> {
    name + seq![':'] + int_text(index % 256)
}

/// The hint string that lists the variants: their entries joined by `,`.
pub open spec fn enum_hint_text(names: Seq<Seq<char>>) -> Seq<char> {
    join_with(Seq::new(names.len(), |i: int| enum_hint_entry(names[i], i)), ","@)
}

/// The hint string that lists the variants of an enumeration, in
/// declaration order.
pub fn enum_property_hint_string(variants: &Vec<String>) -> (r: String)
    ensures
        r@ == enum_hint_text(strings_view(variants@)),
{
    let mut entries: Vec<String> = Vec::new();
    let mut i: usize = 0;
    while i < variants.len()
        invariant
            i <= variants.len(),
            entries@.len() == i,
            forall|j: int| 0 <= j < i ==> #[trigger] entries@[j]@ == enum_hint_entry(variants@[j]@, j),
        decreases variants.len() - i,
    {
        let mut e = variants[i].clone();
        push_char(&mut e, ':');
        let n = u64_text((i % 256) as u64);
        let e = concat_str(e.as_str(), n.as_str());
        entries.push(e);
        i = i + 1;
    }
    let r = join_strings(&entries, ",");
    assert(strings_view(entries@) =~= Seq::new(strings_view(variants@).len(), |i: int| enum_hint_entry(strings_view(variants@)[i], i)));
    r
}

/// The name of the error type that a derived enumeration `name` reports
/// out-of-range values with: `"<name>Error"`.
pub fn enum_error_name(name: &str) -> (r: String)
    ensures
        r@ == name@ + "Error"@,
{
    concat_str(name, "Error")
}

/// The value that the derived conversion gives the variant at position
/// `index` of a derived enumeration: the position taken as a `u8`.
pub open spec fn derived_value(index: int) -> int {
    index % 256
}

/// The variant (by position) that the derived conversion reads from
/// `value` for an enumeration of `count` variants: the conversion matches
/// the variants' values in declaration order and takes the first that
/// equals `value`; when none does, `value` is out of range.
pub open spec fn derived_variant(count: int, value: u8) -> Result<int, u8> {
    if (value as int) < count {
        Ok(value as int)
    } else {
        Err(value)
    }
}

/// The value that the derived conversion gives the variant at `index`.
pub fn derived_enum_value(index: usize) -> (r: u8)
    ensures
        r as int == derived_value(index as int),
{
    (index % 256) as u8
}

/// The variant that the derived conversion reads from `value`, for an
/// enumeration of `count` variants, or the error that reports `value` as
/// out of range.
pub fn derived_enum_variant(count: usize, value: u8) -> (r: Result<usize, EnumValueOutOfRange>)
    ensures
        match derived_variant(count as int, value) {
            Ok(i) => (r matches Ok(j) && j as int == i),
            Err(b) => (r matches Err(e) && e.value == b),
        },
{
    if (value as usize) < count {
        Ok(value as usize)
    } else {
        Err(EnumValueOutOfRange { value })
    }
}

/// The editor hint string of a derived enumeration, which it exports only
/// when `#[script_enum(export)]` is given.
pub fn derived_enum_export_hint(export: bool, variants: &Vec<String>) -> (r: Option<String>)
    ensures
        r is Some <==> export,
        r matches Some(h) ==> h@ == enum_hint_text(strings_view(variants@)),
{
    if export {
        Some(enum_property_hint_string(variants))
    } else {
        None
    }
}

/// The variants of a derived enumeration of at most 256 variants are
/// numbered in declaration order: the variant at position `i` is
/// exchanged as the value `i`, that value is read back as the same
/// variant, no two variants share a value, and every value from the
/// number of variants on is out of range.
pub proof fn law_derived_enum_numbering(count: int, i: int, j: int, b: u8)
    requires
        0 <= count <= 256,
    ensures
        0 <= i < count ==> derived_value(i) == i && derived_variant(count, derived_value(i) as u8) == Ok::<int, u8>(i),
        0 <= i < count && 0 <= j < count && derived_value(i) == derived_value(j) ==> i == j,
        (b as int) >= count ==> derived_variant(count, b) == Err::<int, u8>(b),
{
}

} // verus!
