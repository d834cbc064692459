//! Reading and writing the properties of a derived property group: a
//! property name reaches the first field that it matches, and a name that
//! starts with a flattened field's name and `_` reaches that field's own
//! group with the rest of the name.
use vstd::prelude::*;

use crate::derive::attribute_ops::{export_meta_spec, to_export_meta, ExportMetadata, ExportMetadataView, FieldExportOps};
use crate::derive::impl_attribute::{rust_to_variant_type, variant_type_check, RustType};
use crate::text::{concat_str, is_prefix, starts_with, str_chars, str_eq, string_from_chars, strings_view};

verus! {

/// What the derive reads of a field of a property group: its name and
/// whether it flattens a nested group.
pub struct GroupField {
    pub name: String,
    pub flattened: bool,
}

/// Where a property name leads.
pub enum PropertyRoute {
    /// To the field at this position.
    Field(usize),
    /// Into the nested group of the field at this position, with this name.
    Nested(usize, String),
    /// Nowhere: no field matches.
    Unknown,
}

/// Whether `name` reaches the field `f`: a flattened field is reached by
/// every name that starts with its own name and `_`; any other field by
/// its own name only.
pub open spec fn field_matches(f: GroupField, name: Seq<char>) -> bool {
    if f.flattened {
        is_prefix(f.name@ + seq!['_'], name)
    } else {
        f.name@ == name
    }
}

/// The first field that `name` reaches.
pub open spec fn first_match(fields: Seq<GroupField>, name: Seq<char>, i: int) -> bool {
    &&& 0 <= i < fields.len()
    &&& field_matches(fields[i], name)
    &&& forall|j: int| 0 <= j < i ==> !field_matches(#[trigger] fields[j], name)
}

/// `s` without every leading repetition of `p` (`str::trim_start_matches`).
pub open spec fn trim_start(s: Seq<char>, p: Seq<char>) -> Seq<char>
    decreases s.len(),
{
    if p.len() > 0 && is_prefix(p, s) {
        trim_start(s.skip(p.len() as int), p)
    } else {
        s
    }
}

pub(crate) fn matches_field(f: &GroupField, name: &str) -> (r: bool)
    ensures
        r == field_matches(*f, name@),
{
    if f.flattened {
        let mut prefix = f.name.clone();
        crate::text::push_char(&mut prefix, '_');
        assert(prefix@ =~= f.name@ + seq!['_']);
        starts_with(name, prefix.as_str())
    } else {
        str_eq(f.name.as_str(), name)
    }
}

fn find_field(fields: &Vec<GroupField>, name: &str) -> (r: Option<usize>)
    ensures
        match r {
            Some(i) => first_match(fields@, name@, i as int),
            None => forall|j: int| 0 <= j < fields@.len() ==> !field_matches(#[trigger] fields@[j], name@),
        },
{
    let mut i: usize = 0;
    while i < fields.len()
        invariant
            i <= fields.len(),
            forall|j: int| 0 <= j < i ==> !field_matches(#[trigger] fields@[j], name@),
        decreases fields.len() - i,
    {
        if matches_field(&fields[i], name) {
            return Some(i);
        }
        i = i + 1;
    }
    None
}

/// `s` with every leading repetition of `p` removed.
fn trim_start_chars(s: &Vec<char>, p: &Vec<char>) -> (r: Vec<char>)
    ensures
        r@ == trim_start(s@, p@),
{
    let mut start: usize = 0;
    if p.len() == 0 {
        let r = s.clone();
        assert(r@ == s@);
        return r;
    }
    assert(s@.skip(0) == s@);
    loop
        invariant
            start <= s@.len(),
            p@.len() > 0,
            trim_start(s@, p@) == trim_start(s@.skip(start as int), p@),
        ensures
            start <= s@.len(),
            trim_start(s@, p@) == s@.skip(start as int),
        decreases s@.len() - start,
    {
        let rest_len = s.len() - start;
        if rest_len < p.len() {
            assert(!is_prefix(p@, s@.skip(start as int)));
            break;
        }
        let mut k: usize = 0;
        let mut same = true;
        while k < p.len()
            invariant
                k <= p@.len(),
                start <= s@.len(),
                p@.len() <= s@.len() - start,
                start + p.len() <= s.len(),
                same == forall|j: int| 0 <= j < k ==> s@[start + j] == p@[j],
            decreases p@.len() - k,
        {
            if s[start + k] != p[k] {
                same = false;
            }
            k = k + 1;
        }
        let ghost rest = s@.skip(start as int);
        if !same {
            assert(!is_prefix(p@, rest)) by {
                let j = choose|j: int| 0 <= j < p@.len() && s@[start + j] != p@[j];
                assert(rest.take(p@.len() as int)[j] != p@[j]);
            }
            break;
        }
        assert(rest.take(p@.len() as int) =~= p@);
        assert(rest.skip(p@.len() as int) =~= s@.skip(start + p@.len()));
        start = start + p.len();
    }
    let mut out: Vec<char> = Vec::new();
    let mut i: usize = start;
    while i < s.len()
        invariant
            start <= i <= s@.len(),
            out@ == s@.subrange(start as int, i as int),
        decreases s@.len() - i,
    {
        out.push(s[i]);
        i = i + 1;
        assert(s@.subrange(start as int, i as int) == s@.subrange(start as int, i - 1).push(s@[i - 1]));
    }
    assert(s@.subrange(start as int, s@.len() as int) == s@.skip(start as int));
    out
}

/// Where reading the property `name` leads. A flattened field passes on
/// the name with every leading `<field>_` removed.
pub fn route_get(fields: &Vec<GroupField>, name: &str) -> (r: PropertyRoute)
    ensures
        match r {
            PropertyRoute::Field(i) => first_match(fields@, name@, i as int) && !fields@[i as int].flattened,
            PropertyRoute::Nested(i, rest) => first_match(fields@, name@, i as int) && fields@[i as int].flattened
                && rest@ == trim_start(name@, fields@[i as int].name@ + seq!['_']),
            PropertyRoute::Unknown => forall|j: int| 0 <= j < fields@.len() ==> !field_matches(#[trigger] fields@[j], name@),
        },
{
    match find_field(fields, name) {
        None => PropertyRoute::Unknown,
        Some(i) => {
            if fields[i].flattened {
                PropertyRoute::Nested(i, nested_get_name(fields[i].name.as_str(), name))
            } else {
                PropertyRoute::Field(i)
            }
        },
    }
}

/// Where writing the property `name` leads. A flattened field passes on
/// the name with one leading `<field>_` removed.
pub fn route_set(fields: &Vec<GroupField>, name: &str) -> (r: PropertyRoute)
    ensures
        match r {
            PropertyRoute::Field(i) => first_match(fields@, name@, i as int) && !fields@[i as int].flattened,
            PropertyRoute::Nested(i, rest) => first_match(fields@, name@, i as int) && fields@[i as int].flattened
                && rest@ == name@.skip(fields@[i as int].name@.len() + 1int),
            PropertyRoute::Unknown => forall|j: int| 0 <= j < fields@.len() ==> !field_matches(#[trigger] fields@[j], name@),
        },
{
    match find_field(fields, name) {
        None => PropertyRoute::Unknown,
        Some(i) => {
            if fields[i].flattened {
                PropertyRoute::Nested(i, nested_set_name(fields[i].name.as_str(), name))
            } else {
                PropertyRoute::Field(i)
            }
        },
    }
}

/// The name under which reading `name` reaches the nested group of the
/// flattened field `field`: `name` without every leading `<field>_`.
pub(crate) fn nested_get_name(field: &str, name: &str) -> (r: String)
    ensures
        r@ == trim_start(name@, field@ + seq!['_']),
{
    let mut prefix = str_chars(field);
    prefix.push('_');
    assert(prefix@ =~= field@ + seq!['_']);
    let chars = str_chars(name);
    let rest = trim_start_chars(&chars, &prefix);
    string_from_chars(&rest)
}

/// The name under which writing `name` reaches the nested group of the
/// flattened field `field`: `name` without its leading `<field>_`.
pub(crate) fn nested_set_name(field: &str, name: &str) -> (r: String)
    requires
        is_prefix(field@ + seq!['_'], name@),
    ensures
        r@ == name@.skip(field@.len() + 1int),
{
    let chars = str_chars(name);
    let flen = str_chars(field).len();
    assert(flen + 1 <= chars@.len());
    assert(flen < chars.len());
    let skip = flen + 1;
    let mut rest: Vec<char> = Vec::new();
    let mut k: usize = skip;
    while k < chars.len()
        invariant
            skip <= k <= chars@.len(),
            rest@ == chars@.subrange(skip as int, k as int),
        decreases chars@.len() - k,
    {
        rest.push(chars[k]);
        k = k + 1;
        assert(chars@.subrange(skip as int, k as int) == chars@.subrange(skip as int, k - 1).push(chars@[k - 1]));
    }
    assert(chars@.subrange(skip as int, chars@.len() as int) == chars@.skip(skip as int));
    string_from_chars(&rest)
}

/// The name that derived property groups report.
pub fn derived_group_name() -> (r: &'static str)
    ensures
        r@ == "Property Group"@,
{
    "Property Group"
}

/// The errors that the `#[export]` attribute of a field of a derived
/// property group causes once its options were accepted (`accepted` holds
/// the option that decided the metadata, empty when none was given), in
/// order: an `#[export]` without options is useless in a group unless the
/// field is flattened, and a group that does not allow it cannot flatten
/// another group. Nothing is reported here when the options were refused.
pub open spec fn group_field_error_texts(has_export_attr: bool, accepted: Option<Seq<char>>, is_flatten: bool, allows_flatten: bool) -> Seq<Seq<char>> {
    (if has_export_attr && accepted == Some(Seq::<char>::empty()) && !is_flatten {
        seq!["Adding the #[export] attribute without additional parameters is useless inside ScriptExportGroups"@]
    } else {
        Seq::empty()
    }) + (if has_export_attr && accepted is Some && !allows_flatten && is_flatten {
        seq!["Flattening is not supported here"@]
    } else {
        Seq::empty()
    })
}

/// The errors of a field's `#[export]` attribute inside a derived property
/// group; `accepted` is the option that decided the accepted metadata, or
/// `None` when the options were refused.
pub fn group_field_errors(has_export_attr: bool, accepted: Option<&'static str>, is_flatten: bool, allows_flatten: bool) -> (r: Vec<&'static str>)
    ensures
        r@.map_values(|e: &'static str| e@) == group_field_error_texts(
            has_export_attr,
            match accepted {
                Some(f) => Some(f@),
                None => None,
            },
            is_flatten,
            allows_flatten,
        ),
{
    let mut errors: Vec<&'static str> = Vec::new();
    if has_export_attr {
        if let Some(field) = accepted {
            let empty = field.unicode_len() == 0;
            proof {
                if empty {
                    assert(field@ =~= Seq::<char>::empty());
                }
            }
            if empty && !is_flatten {
                errors.push("Adding the #[export] attribute without additional parameters is useless inside ScriptExportGroups");
            }
            if !allows_flatten && is_flatten {
                errors.push("Flattening is not supported here");
            }
        }
    }
    let ghost acc = match accepted {
        Some(f) => Some(f@),
        None => None,
    };
    assert(errors@.map_values(|e: &'static str| e@) =~= group_field_error_texts(has_export_attr, acc, is_flatten, allows_flatten));
    errors
}

/// What a field of a derived property group adds to the group's
/// properties.
pub enum GroupEntryPlan {
    /// A flattened field adds its own group as a subgroup, named after the
    /// field, with this description.
    Subgroup { name: String, description: &'static str },
    /// Any other field adds itself as a property with this metadata.
    Property { name: String, meta: ExportMetadata },
}

/// All errors of a field of a derived property group, none masking
/// another: that of its type, that of its export options, then those of
/// `group_field_error_texts`.
pub open spec fn group_entry_errors(
    type_check: Result<(), Seq<char>>,
    meta: Result<ExportMetadataView, Seq<char>>,
    has_export_attr: bool,
    is_flatten: bool,
    flatten_subgroup: bool,
) -> Seq<Seq<char>> {
    (match type_check {
        Err(e) => seq![e],
        Ok(_) => Seq::empty(),
    }) + (match meta {
        Err(e) => seq![e],
        Ok(_) => Seq::empty(),
    }) + group_field_error_texts(
        has_export_attr,
        match meta {
            Ok(m) => Some(m.field),
            Err(_) => None,
        },
        is_flatten,
        flatten_subgroup,
    )
}

/// What the field `name` of type `ty` adds to a derived property group, or
/// every error it causes. `ops` are its export options (all absent when it
/// carries no `#[export]`); `flatten_subgroup` tells whether the group may
/// flatten subgroups, which a group may and a subgroup may not.
pub fn group_entry_plan(name: &str, ty: &RustType, has_export_attr: bool, ops: &FieldExportOps, flatten_subgroup: bool) -> (r: Result<GroupEntryPlan, Vec<String>>)
    ensures
        match r {
            Err(errs) => {
                let expected = group_entry_errors(variant_type_check(*ty), export_meta_spec(*ops), has_export_attr, ops.flatten, flatten_subgroup);
                expected.len() > 0 && strings_view(errs@) == expected
            },
            Ok(GroupEntryPlan::Subgroup { name: n, description: d }) =>
                group_entry_errors(variant_type_check(*ty), export_meta_spec(*ops), has_export_attr, ops.flatten, flatten_subgroup).len() == 0
                && flatten_subgroup && ops.flatten && n@ == name@ && d@ == ""@,
            Ok(GroupEntryPlan::Property { name: n, meta: m }) =>
                group_entry_errors(variant_type_check(*ty), export_meta_spec(*ops), has_export_attr, ops.flatten, flatten_subgroup).len() == 0
                && !(flatten_subgroup && ops.flatten) && n@ == name@ && export_meta_spec(*ops) == Ok::<ExportMetadataView, Seq<char>>(m@),
        },
{
    let type_check = rust_to_variant_type(ty);
    let meta = to_export_meta(ops);
    let ghost expected = group_entry_errors(variant_type_check(*ty), export_meta_spec(*ops), has_export_attr, ops.flatten, flatten_subgroup);
    let mut errors: Vec<String> = Vec::new();
    match &type_check {
        Err(e) => errors.push(e.clone()),
        Ok(_) => {},
    }
    match &meta {
        Err(e) => errors.push(e.clone()),
        Ok(_) => {},
    }
    let accepted = match &meta {
        Ok(m) => Some(m.field),
        Err(_) => None,
    };
    let custom = group_field_errors(has_export_attr, accepted, ops.flatten, flatten_subgroup);
    let ghost before = strings_view(errors@);
    let mut i: usize = 0;
    while i < custom.len()
        invariant
            i <= custom@.len(),
            strings_view(errors@) == before + custom@.map_values(|e: &'static str| e@).take(i as int),
        decreases custom@.len() - i,
    {
        let ghost prev = errors@;
        errors.push(custom[i].to_owned());
        assert(strings_view(errors@) =~= strings_view(prev).push(custom@[i as int]@));
        assert(custom@.map_values(|e: &'static str| e@).take(i + 1) =~= custom@.map_values(|e: &'static str| e@).take(i as int).push(custom@[i as int]@));
        i = i + 1;
    }
    assert(custom@.map_values(|e: &'static str| e@).take(custom@.len() as int) =~= custom@.map_values(|e: &'static str| e@));
    assert(strings_view(errors@) =~= expected);
    if errors.len() > 0 {
        return Err(errors);
    }
    assert(expected.len() == 0);
    match meta {
        Err(_) => Err(errors),
        Ok(m) => {
            if flatten_subgroup && ops.flatten {
                Ok(GroupEntryPlan::Subgroup { name: name.to_owned(), description: "" })
            } else {
                Ok(GroupEntryPlan::Property { name: name.to_owned(), meta: m })
            }
        },
    }
}

/// Reading and writing a property reach the same field, and pass the same
/// name on to a flattened field's group unless that rest of the name starts
/// once more with the field's name and `_`.
pub proof fn law_read_and_write_reach_the_same_field(fields: Seq<GroupField>, name: Seq<char>, i: int, j: int)
    requires
        first_match(fields, name, i),
        first_match(fields, name, j),
    ensures
        i == j,
        fields[i].flattened && !is_prefix(fields[i].name@ + seq!['_'], name.skip(fields[i].name@.len() + 1int))
            ==> trim_start(name, fields[i].name@ + seq!['_']) == name.skip(fields[i].name@.len() + 1int),
{
    if i < j {
        assert(!field_matches(fields[i], name));
    } else if j < i {
        assert(!field_matches(fields[j], name));
    }
    if fields[i].flattened {
        let p = fields[i].name@ + seq!['_'];
        let rest = name.skip(p.len() as int);
        if !is_prefix(p, rest) {
            assert(is_prefix(p, name));
            assert(trim_start(name, p) == trim_start(rest, p));
            assert(trim_start(rest, p) == rest);
        }
    }
}

} // verus!
