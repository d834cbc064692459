//! The options of the `#[export(..)]` field attribute and the export
//! metadata they select. At most one option may be given per field; the
//! option decides the property's usage, hint and hint string.
use vstd::prelude::*;

use crate::engine_types::{
    hint_color_no_alpha, hint_dir, hint_enum, hint_exp_easing, hint_file, hint_flags,
    hint_global_dir, hint_global_file, hint_multiline_text, hint_node_path_valid_types,
    hint_placeholder_text, hint_range, usage_exported, usage_script_variable, usage_storage,
    PropertyHint, PropertyUsageFlags,
};
use crate::text::{concat_str, join_strings, join_with, str_eq, strings_view};

verus! {

/// The `name` of an `#[export_group(name = ..)]` attribute.
pub struct ExportGroup {
    pub name: String,
}

/// The `name` of an `#[export_subgroup(name = ..)]` attribute.
pub struct ExportSubgroup {
    pub name: String,
}

/// A parameter of the `exp_easing` option.
#[derive(Clone, Copy, PartialEq, Eq, Structural)]
pub enum ExpEasingOpts {
    Attenuation,
    PositiveOnly,
}

/// The `custom(hint = .., hint_string = ..)` option: the hint as the text
/// of a path, and the hint string.
pub struct ExportCustomOps {
    pub hint: String,
    pub hint_string: String,
}

/// The options given in a field's `#[export(..)]` attribute. A flag is
/// `true` when the option is present; a list or text holds the option's
/// parameters. `range` holds the hint string that the option's numbers
/// make, `min,max,step,suffix:<suffix>`.
pub struct FieldExportOps {
    pub color_no_alpha: bool,
    pub dir: bool,
    pub exp_easing: Option<Vec<ExpEasingOpts>>,
    pub file: Option<Vec<String>>,
    pub enum_options: Option<Vec<String>>,
    pub flags: Option<Vec<String>>,
    pub global_dir: bool,
    pub global_file: bool,
    pub multiline: bool,
    pub node_path: Option<Vec<String>>,
    pub placeholder: Option<String>,
    pub range: Option<String>,
    pub storage: Option<bool>,
    pub custom: Option<ExportCustomOps>,
    pub custom_type: Option<String>,
    pub flatten: bool,
}

impl FieldExportOps {
    /// Whether the field flattens a property group into the script.
    pub fn is_flatten(&self) -> (r: bool)
        ensures
            r == self.flatten,
    {
        self.flatten
    }
}

/// The hint that the generated code passes on for a property.
pub enum HintArg {
    /// No hint is passed (`None`).
    Absent,
    /// The hint is passed (`Some(hint)`).
    Given(PropertyHint),
    /// The hint goes into the property's description as it is, not through
    /// the export trait: the metadata of a field without `#[export]`.
    Bare(PropertyHint),
    /// The hint is the custom path given in the attribute.
    CustomPath(String),
}

/// The hint string that the generated code passes on for a property.
pub enum HintStringArg {
    /// No hint string is passed (`None`).
    Absent,
    /// The hint string is passed (`Some(text)`).
    Given(String),
    /// The hint string goes into the property's description as it is.
    Bare(String),
}

/// What an `#[export(..)]` attribute selects: the option that decided it
/// (empty when no option was given), the usage, the hint and the hint string.
pub struct ExportMetadata {
    pub field: &'static str,
    pub usage: PropertyUsageFlags,
    pub hint: HintArg,
    pub hint_string: HintStringArg,
}

pub enum HintArgView {
    Absent,
    Given(i32),
    Bare(i32),
    CustomPath(Seq<char>),
}

pub enum HintStringArgView {
    Absent,
    Given(Seq<char>),
    Bare(Seq<char>),
}

impl View for HintArg {
    type V = HintArgView;

    open spec fn view(&self) -> HintArgView {
        match self {
            HintArg::Absent => HintArgView::Absent,
            HintArg::Given(h) => HintArgView::Given(h.ord),
            HintArg::Bare(h) => HintArgView::Bare(h.ord),
            HintArg::CustomPath(p) => HintArgView::CustomPath(p@),
        }
    }
}

impl View for HintStringArg {
    type V = HintStringArgView;

    open spec fn view(&self) -> HintStringArgView {
        match self {
            HintStringArg::Absent => HintStringArgView::Absent,
            HintStringArg::Given(s) => HintStringArgView::Given(s@),
            HintStringArg::Bare(s) => HintStringArgView::Bare(s@),
        }
    }
}

pub struct ExportMetadataView {
    pub field: Seq<char>,
    pub usage: u64,
    pub hint: HintArgView,
    pub hint_string: HintStringArgView,
}

impl View for ExportMetadata {
    type V = ExportMetadataView;

    open spec fn view(&self) -> ExportMetadataView {
        ExportMetadataView {
            field: self.field@,
            usage: self.usage.bits,
            hint: self.hint@,
            hint_string: self.hint_string@,
        }
    }
}

/// `s` with `name` added when `present`.
#[verifier::opaque]
pub open spec fn push_if(s: Seq<Seq<char>>, present: bool, name: Seq<char>) -> Seq<Seq<char>> {
    if present {
        s.push(name)
    } else {
        s
    }
}

/// The names of the options given, in the order in which they are checked.
pub open spec fn present_options(ops: FieldExportOps) -> Seq<Seq<char>> {
    let s = push_if(Seq::empty(), ops.color_no_alpha, "color_no_alpha"@);
    let s = push_if(s, ops.dir, "dir"@);
    let s = push_if(s, ops.exp_easing is Some, "exp_easing"@);
    let s = push_if(s, ops.file is Some, "file"@);
    let s = push_if(s, ops.enum_options is Some, "enum_options"@);
    let s = push_if(s, ops.flags is Some, "flags"@);
    let s = push_if(s, ops.global_dir, "global_dir"@);
    let s = push_if(s, ops.global_file, "global_file"@);
    let s = push_if(s, ops.multiline, "multiline"@);
    let s = push_if(s, ops.node_path is Some, "node_path"@);
    let s = push_if(s, ops.placeholder is Some, "placeholder"@);
    let s = push_if(s, ops.range is Some, "range"@);
    let s = push_if(s, ops.custom_type is Some, "ty"@);
    let s = push_if(s, ops.storage is Some, "storage"@);
    push_if(s, ops.custom is Some, "custom"@)
}

/// The text that the `exp_easing` option writes for one parameter.
pub open spec fn easing_text(o: ExpEasingOpts) -> Seq<char> {
    match o {
        ExpEasingOpts::Attenuation => "atenuation"@,
        ExpEasingOpts::PositiveOnly => "positive_only"@,
    }
}

pub open spec fn strings_of(v: Option<Vec<String>>) -> Seq<Seq<char>> {
    match v {
        Some(v) => strings_view(v@),
        None => Seq::empty(),
    }
}

/// The metadata that a single given option selects.
pub open spec fn option_metadata(ops: FieldExportOps) -> ExportMetadataView {
    let exported = usage_exported();
    if ops.color_no_alpha {
        ExportMetadataView { field: "color_no_alpha"@, usage: exported,
            hint: HintArgView::Given(hint_color_no_alpha()), hint_string: HintStringArgView::Given(Seq::empty()) }
    } else if ops.dir {
        ExportMetadataView { field: "dir"@, usage: exported,
            hint: HintArgView::Given(hint_dir()), hint_string: HintStringArgView::Given(Seq::empty()) }
    } else if ops.exp_easing is Some {
        ExportMetadataView { field: "exp_easing"@, usage: exported, hint: HintArgView::Given(hint_exp_easing()),
            hint_string: HintStringArgView::Given(join_with(ops.exp_easing->0@.map_values(|o: ExpEasingOpts| easing_text(o)), ","@)) }
    } else if ops.file is Some {
        ExportMetadataView { field: "file"@, usage: exported, hint: HintArgView::Given(hint_file()),
            hint_string: HintStringArgView::Given(join_with(strings_of(ops.file), ","@)) }
    } else if ops.enum_options is Some {
        ExportMetadataView { field: "enum_options"@, usage: exported, hint: HintArgView::Given(hint_enum()),
            hint_string: HintStringArgView::Given(join_with(strings_of(ops.enum_options), ","@)) }
    } else if ops.flags is Some {
        ExportMetadataView { field: "flags"@, usage: exported, hint: HintArgView::Given(hint_flags()),
            hint_string: HintStringArgView::Given(join_with(strings_of(ops.flags), ","@)) }
    } else if ops.global_dir {
        ExportMetadataView { field: "global_dir"@, usage: exported,
            hint: HintArgView::Given(hint_global_dir()), hint_string: HintStringArgView::Given(Seq::empty()) }
    } else if ops.global_file {
        ExportMetadataView { field: "global_file"@, usage: exported,
            hint: HintArgView::Given(hint_global_file()), hint_string: HintStringArgView::Given(Seq::empty()) }
    } else if ops.multiline {
        ExportMetadataView { field: "multiline"@, usage: exported,
            hint: HintArgView::Given(hint_multiline_text()), hint_string: HintStringArgView::Given(Seq::empty()) }
    } else if ops.node_path is Some {
        ExportMetadataView { field: "node_path"@, usage: exported, hint: HintArgView::Given(hint_node_path_valid_types()),
            hint_string: HintStringArgView::Given(join_with(strings_of(ops.node_path), ","@)) }
    } else if ops.placeholder is Some {
        ExportMetadataView { field: "placeholder"@, usage: exported, hint: HintArgView::Given(hint_placeholder_text()),
            hint_string: HintStringArgView::Given(ops.placeholder->0@) }
    } else if ops.range is Some {
        ExportMetadataView { field: "range"@, usage: exported, hint: HintArgView::Given(hint_range()),
            hint_string: HintStringArgView::Given(ops.range->0@) }
    } else if ops.custom_type is Some {
        ExportMetadataView { field: "ty"@, usage: exported, hint: HintArgView::Absent,
            hint_string: HintStringArgView::Given(ops.custom_type->0@) }
    } else if ops.storage is Some {
        ExportMetadataView { field: "storage"@, usage: usage_script_variable() | usage_storage(),
            hint: HintArgView::Absent, hint_string: HintStringArgView::Absent }
    } else if ops.custom is Some {
        ExportMetadataView { field: "custom"@, usage: exported,
            hint: HintArgView::CustomPath(ops.custom->0.hint@), hint_string: HintStringArgView::Given(ops.custom->0.hint_string@) }
    } else {
        ExportMetadataView { field: ""@, usage: exported, hint: HintArgView::Absent, hint_string: HintStringArgView::Absent }
    }
}

/// What an `#[export(..)]` attribute selects: with no option, the default
/// metadata; with a single option, the option's; `storage = false` is an
/// error; a second option is an error that names it and the first.
pub open spec fn export_meta_spec(ops: FieldExportOps) -> Result<ExportMetadataView, Seq<char>> {
    let present = present_options(ops);
    if present.len() > 0 && present[0] == "storage"@ && ops.storage == Some(false) {
        Err("storage can not be set to false"@)
    } else if present.len() >= 2 {
        Err(present[1] + " is not compatible with "@ + present[0])
    } else {
        Ok(option_metadata(ops))
    }
}

fn push_option(v: &mut Vec<&'static str>, present: bool, name: &'static str)
    ensures
        final(v)@.map_values(|s: &'static str| s@) == push_if(old(v)@.map_values(|s: &'static str| s@), present, name@),
{
    reveal(push_if);
    if present {
        v.push(name);
        assert(v@.map_values(|s: &'static str| s@) =~= old(v)@.map_values(|s: &'static str| s@).push(name@));
    }
}

/// The names of the options given, in checking order.
fn present_option_names(ops: &FieldExportOps) -> (r: Vec<&'static str>)
    ensures
        r@.map_values(|s: &'static str| s@) == present_options(*ops),
{
    let mut v: Vec<&'static str> = Vec::new();
    assert(v@.map_values(|s: &'static str| s@) =~= Seq::<Seq<char>>::empty());
    push_option(&mut v, ops.color_no_alpha, "color_no_alpha");
    push_option(&mut v, ops.dir, "dir");
    push_option(&mut v, ops.exp_easing.is_some(), "exp_easing");
    push_option(&mut v, ops.file.is_some(), "file");
    push_option(&mut v, ops.enum_options.is_some(), "enum_options");
    push_option(&mut v, ops.flags.is_some(), "flags");
    push_option(&mut v, ops.global_dir, "global_dir");
    push_option(&mut v, ops.global_file, "global_file");
    push_option(&mut v, ops.multiline, "multiline");
    push_option(&mut v, ops.node_path.is_some(), "node_path");
    push_option(&mut v, ops.placeholder.is_some(), "placeholder");
    push_option(&mut v, ops.range.is_some(), "range");
    push_option(&mut v, ops.custom_type.is_some(), "ty");
    push_option(&mut v, ops.storage.is_some(), "storage");
    push_option(&mut v, ops.custom.is_some(), "custom");
    v
}

fn easing_names(list: &Vec<ExpEasingOpts>) -> (r: Vec<String>)
    ensures
        strings_view(r@) == list@.map_values(|o: ExpEasingOpts| easing_text(o)),
{
    let mut out: Vec<String> = Vec::new();
    let mut i: usize = 0;
    while i < list.len()
        invariant
            i <= list.len(),
            out@.len() == i,
            forall|j: int| 0 <= j < i ==> #[trigger] out@[j]@ == easing_text(list@[j]),
        decreases list.len() - i,
    {
        let text = match list[i] {
            ExpEasingOpts::Attenuation => "atenuation".to_owned(),
            ExpEasingOpts::PositiveOnly => "positive_only".to_owned(),
        };
        out.push(text);
        i = i + 1;
    }
    assert(strings_view(out@) =~= list@.map_values(|o: ExpEasingOpts| easing_text(o)));
    out
}

fn given(hint: PropertyHint, hint_string: String, field: &'static str) -> (r: ExportMetadata)
    ensures
        r.field == field,
        r.usage.bits == usage_exported(),
        r.hint@ == HintArgView::Given(hint.ord),
        r.hint_string@ == HintStringArgView::Given(hint_string@),
{
    ExportMetadata {
        field,
        usage: PropertyUsageFlags::exported(),
        hint: HintArg::Given(hint),
        hint_string: HintStringArg::Given(hint_string),
    }
}

/// The metadata of the first option given, or the default metadata.
fn first_option_metadata(ops: &FieldExportOps) -> (r: ExportMetadata)
    ensures
        r@ == option_metadata(*ops),
{
    if ops.color_no_alpha {
        given(PropertyHint::color_no_alpha(), String::new(), "color_no_alpha")
    } else if ops.dir {
        given(PropertyHint::dir(), String::new(), "dir")
    } else if let Some(list) = &ops.exp_easing {
        let names = easing_names(list);
        given(PropertyHint::exp_easing(), join_strings(&names, ","), "exp_easing")
    } else if let Some(list) = &ops.file {
        given(PropertyHint::file(), join_strings(list, ","), "file")
    } else if let Some(list) = &ops.enum_options {
        given(PropertyHint::enum_(), join_strings(list, ","), "enum_options")
    } else if let Some(list) = &ops.flags {
        given(PropertyHint::flags(), join_strings(list, ","), "flags")
    } else if ops.global_dir {
        given(PropertyHint::global_dir(), String::new(), "global_dir")
    } else if ops.global_file {
        given(PropertyHint::global_file(), String::new(), "global_file")
    } else if ops.multiline {
        given(PropertyHint::multiline_text(), String::new(), "multiline")
    } else if let Some(list) = &ops.node_path {
        given(PropertyHint::node_path_valid_types(), join_strings(list, ","), "node_path")
    } else if let Some(text) = &ops.placeholder {
        given(PropertyHint::placeholder_text(), text.clone(), "placeholder")
    } else if let Some(text) = &ops.range {
        given(PropertyHint::range(), text.clone(), "range")
    } else if let Some(ty) = &ops.custom_type {
        ExportMetadata {
            field: "ty",
            usage: PropertyUsageFlags::exported(),
            hint: HintArg::Absent,
            hint_string: HintStringArg::Given(ty.clone()),
        }
    } else if ops.storage.is_some() {
        let usage = PropertyUsageFlags::script_variable().union(PropertyUsageFlags::storage());
        ExportMetadata { field: "storage", usage, hint: HintArg::Absent, hint_string: HintStringArg::Absent }
    } else if let Some(custom) = &ops.custom {
        ExportMetadata {
            field: "custom",
            usage: PropertyUsageFlags::exported(),
            hint: HintArg::CustomPath(custom.hint.clone()),
            hint_string: HintStringArg::Given(custom.hint_string.clone()),
        }
    } else {
        ExportMetadata {
            field: "",
            usage: PropertyUsageFlags::exported(),
            hint: HintArg::Absent,
            hint_string: HintStringArg::Absent,
        }
    }
}

/// The metadata that a field's export options select, or the compile error
/// that they cause.
pub fn to_export_meta(ops: &FieldExportOps) -> (r: Result<ExportMetadata, String>)
    ensures
        match (r, export_meta_spec(*ops)) {
            (Ok(m), Ok(spec)) => m@ == spec,
            (Err(e), Err(spec)) => e@ == spec,
            _ => false,
        },
{
    let names = present_option_names(ops);
    let ghost present = present_options(*ops);
    assert(names@.len() == present.len());
    if names.len() > 0 && str_eq(names[0], "storage") && ops.storage == Some(false) {
        assert(names@[0]@ == present[0]);
        return Err("storage can not be set to false".to_owned());
    }
    if names.len() >= 2 {
        assert(names@[0]@ == present[0]);
        assert(names@[1]@ == present[1]);
        let a = concat_str(names[1], " is not compatible with ");
        return Err(concat_str(a.as_str(), names[0]));
    }
    proof {
        if names@.len() > 0 {
            assert(names@[0]@ == present[0]);
        }
    }
    Ok(first_option_metadata(ops))
}

/// An `#[export(..)]` attribute is accepted exactly when it gives at most
/// one option and does not set `storage` to false.
pub proof fn law_export_accepts_one_option(ops: FieldExportOps)
    ensures
        export_meta_spec(ops) is Ok <==> (present_options(ops).len() <= 1 && ops.storage != Some(false)),
{
    let present = present_options(ops);
    lemma_option_count(ops);
    if present.len() == 1 && ops.storage == Some(false) {
        lemma_only_storage(ops);
    }
}

/// The metadata of an exported property whose hint is the engine's
/// `PropertyHint` numbered `hint`, with the hint string `text`, under the
/// usage `SCRIPT_VARIABLE | EDITOR | STORAGE` (4096 + 4 + 2).
pub open spec fn hinted(field: Seq<char>, hint: i32, text: Seq<char>) -> ExportMetadataView {
    ExportMetadataView { field, usage: 4102, hint: HintArgView::Given(hint), hint_string: HintStringArgView::Given(text) }
}

/// A single export option selects the engine's hint for it, in the
/// engine's `PropertyHint` numbering: `color_no_alpha` COLOR_NO_ALPHA (21),
/// `dir` DIR (14), `exp_easing` EXP_EASING (4), `file` FILE (13),
/// `enum_options` ENUM (2), `flags` FLAGS (6), `global_dir` GLOBAL_DIR
/// (16), `global_file` GLOBAL_FILE (15), `multiline` MULTILINE_TEXT (18),
/// `node_path` NODE_PATH_VALID_TYPES (26), `placeholder` PLACEHOLDER_TEXT
/// (20) and `range` RANGE (1). A list option's hint string is its entries
/// joined by `,`; a text option's is the text; a flag's is empty. `ty`
/// passes no hint and its type name as the hint string, `storage = true`
/// makes the property a stored script variable (4096 + 2) that the editor
/// does not show, and `custom` passes its own hint and hint string.
pub proof fn law_single_option_selects_its_engine_hint(ops: FieldExportOps)
    requires
        present_options(ops).len() == 1,
    ensures
        ops.color_no_alpha ==> export_meta_spec(ops) == Ok::<_, Seq<char>>(hinted("color_no_alpha"@, 21, Seq::empty())),
        ops.dir ==> export_meta_spec(ops) == Ok::<_, Seq<char>>(hinted("dir"@, 14, Seq::empty())),
        ops.exp_easing matches Some(list) ==> export_meta_spec(ops) == Ok::<_, Seq<char>>(
            hinted("exp_easing"@, 4, join_with(list@.map_values(|o: ExpEasingOpts| easing_text(o)), ","@))),
        ops.file matches Some(list) ==> export_meta_spec(ops) == Ok::<_, Seq<char>>(hinted("file"@, 13, join_with(strings_view(list@), ","@))),
        ops.enum_options matches Some(list) ==> export_meta_spec(ops) == Ok::<_, Seq<char>>(
            hinted("enum_options"@, 2, join_with(strings_view(list@), ","@))),
        ops.flags matches Some(list) ==> export_meta_spec(ops) == Ok::<_, Seq<char>>(hinted("flags"@, 6, join_with(strings_view(list@), ","@))),
        ops.global_dir ==> export_meta_spec(ops) == Ok::<_, Seq<char>>(hinted("global_dir"@, 16, Seq::empty())),
        ops.global_file ==> export_meta_spec(ops) == Ok::<_, Seq<char>>(hinted("global_file"@, 15, Seq::empty())),
        ops.multiline ==> export_meta_spec(ops) == Ok::<_, Seq<char>>(hinted("multiline"@, 18, Seq::empty())),
        ops.node_path matches Some(list) ==> export_meta_spec(ops) == Ok::<_, Seq<char>>(
            hinted("node_path"@, 26, join_with(strings_view(list@), ","@))),
        ops.placeholder matches Some(text) ==> export_meta_spec(ops) == Ok::<_, Seq<char>>(hinted("placeholder"@, 20, text@)),
        ops.range matches Some(text) ==> export_meta_spec(ops) == Ok::<_, Seq<char>>(hinted("range"@, 1, text@)),
        ops.custom_type matches Some(ty) ==> export_meta_spec(ops) == Ok::<_, Seq<char>>(ExportMetadataView {
            field: "ty"@, usage: 4102, hint: HintArgView::Absent, hint_string: HintStringArgView::Given(ty@) }),
        ops.storage == Some(true) ==> export_meta_spec(ops) == Ok::<_, Seq<char>>(ExportMetadataView {
            field: "storage"@, usage: 4098, hint: HintArgView::Absent, hint_string: HintStringArgView::Absent }),
        ops.custom matches Some(c) ==> export_meta_spec(ops) == Ok::<_, Seq<char>>(ExportMetadataView {
            field: "custom"@, usage: 4102, hint: HintArgView::CustomPath(c.hint@), hint_string: HintStringArgView::Given(c.hint_string@) }),
{
    assert(4096u64 | 2u64 == 4098u64) by (bit_vector);
    lemma_option_count(ops);
    let present = present_options(ops);
    if ops.storage is Some {
        lemma_only_storage(ops);
    }
    let m = export_meta_spec(ops);
    if ops.color_no_alpha {
        assert(m == Ok::<_, Seq<char>>(option_metadata(ops)));
    } else if ops.dir {
        assert(m == Ok::<_, Seq<char>>(option_metadata(ops)));
    } else if ops.exp_easing is Some {
        assert(m == Ok::<_, Seq<char>>(option_metadata(ops)));
    } else if ops.file is Some {
        assert(m == Ok::<_, Seq<char>>(option_metadata(ops)));
    } else if ops.enum_options is Some {
        assert(m == Ok::<_, Seq<char>>(option_metadata(ops)));
    } else if ops.flags is Some {
        assert(m == Ok::<_, Seq<char>>(option_metadata(ops)));
    } else if ops.global_dir {
        assert(m == Ok::<_, Seq<char>>(option_metadata(ops)));
    } else if ops.global_file {
        assert(m == Ok::<_, Seq<char>>(option_metadata(ops)));
    } else if ops.multiline {
        assert(m == Ok::<_, Seq<char>>(option_metadata(ops)));
    } else if ops.node_path is Some {
        assert(m == Ok::<_, Seq<char>>(option_metadata(ops)));
    } else if ops.placeholder is Some {
        assert(m == Ok::<_, Seq<char>>(option_metadata(ops)));
    } else if ops.range is Some {
        assert(m == Ok::<_, Seq<char>>(option_metadata(ops)));
    } else if ops.custom_type is Some {
        assert(m == Ok::<_, Seq<char>>(option_metadata(ops)));
    } else if ops.storage == Some(true) {
        assert(m == Ok::<_, Seq<char>>(option_metadata(ops)));
    } else if ops.storage is None {
        assert(m == Ok::<_, Seq<char>>(option_metadata(ops)));
    }
}

spec fn one_if(b: bool) -> int {
    if b { 1 } else { 0 }
}

/// The number of options given.
spec fn option_count(ops: FieldExportOps) -> int {
    one_if(ops.color_no_alpha) + one_if(ops.dir) + one_if(ops.exp_easing is Some) + one_if(ops.file is Some)
        + one_if(ops.enum_options is Some) + one_if(ops.flags is Some) + one_if(ops.global_dir) + one_if(ops.global_file)
        + one_if(ops.multiline) + one_if(ops.node_path is Some) + one_if(ops.placeholder is Some) + one_if(ops.range is Some)
        + one_if(ops.custom_type is Some) + one_if(ops.storage is Some) + one_if(ops.custom is Some)
}

/// When `storage` is the only option given, it is the first (and only)
/// name listed.
proof fn lemma_only_storage(ops: FieldExportOps)
    requires
        ops.storage is Some,
        present_options(ops).len() == 1,
    ensures
        present_options(ops)[0] == "storage"@,
{
    lemma_option_count(ops);
    reveal(push_if);
}

proof fn lemma_push_if_len(s: Seq<Seq<char>>, present: bool, name: Seq<char>)
    ensures
        push_if(s, present, name).len() == s.len() + one_if(present),
{
    reveal(push_if);
}

#[verifier::rlimit(60)]
proof fn lemma_option_count(ops: FieldExportOps)
    ensures
        present_options(ops).len() == option_count(ops),
{
    let s0: Seq<Seq<char>> = Seq::empty();
    let c0: int = 0;
    let s1 = push_if(s0, ops.color_no_alpha, "color_no_alpha"@);
    lemma_push_if_len(s0, ops.color_no_alpha, "color_no_alpha"@);
    let c1 = c0 + one_if(ops.color_no_alpha);
    assert(s1.len() == c1);
    let s2 = push_if(s1, ops.dir, "dir"@);
    lemma_push_if_len(s1, ops.dir, "dir"@);
    let c2 = c1 + one_if(ops.dir);
    assert(s2.len() == c2);
    let s3 = push_if(s2, ops.exp_easing is Some, "exp_easing"@);
    lemma_push_if_len(s2, ops.exp_easing is Some, "exp_easing"@);
    let c3 = c2 + one_if(ops.exp_easing is Some);
    assert(s3.len() == c3);
    let s4 = push_if(s3, ops.file is Some, "file"@);
    lemma_push_if_len(s3, ops.file is Some, "file"@);
    let c4 = c3 + one_if(ops.file is Some);
    assert(s4.len() == c4);
    let s5 = push_if(s4, ops.enum_options is Some, "enum_options"@);
    lemma_push_if_len(s4, ops.enum_options is Some, "enum_options"@);
    let c5 = c4 + one_if(ops.enum_options is Some);
    assert(s5.len() == c5);
    let s6 = push_if(s5, ops.flags is Some, "flags"@);
    lemma_push_if_len(s5, ops.flags is Some, "flags"@);
    let c6 = c5 + one_if(ops.flags is Some);
    assert(s6.len() == c6);
    let s7 = push_if(s6, ops.global_dir, "global_dir"@);
    lemma_push_if_len(s6, ops.global_dir, "global_dir"@);
    let c7 = c6 + one_if(ops.global_dir);
    assert(s7.len() == c7);
    let s8 = push_if(s7, ops.global_file, "global_file"@);
    lemma_push_if_len(s7, ops.global_file, "global_file"@);
    let c8 = c7 + one_if(ops.global_file);
    assert(s8.len() == c8);
    let s9 = push_if(s8, ops.multiline, "multiline"@);
    lemma_push_if_len(s8, ops.multiline, "multiline"@);
    let c9 = c8 + one_if(ops.multiline);
    assert(s9.len() == c9);
    let s10 = push_if(s9, ops.node_path is Some, "node_path"@);
    lemma_push_if_len(s9, ops.node_path is Some, "node_path"@);
    let c10 = c9 + one_if(ops.node_path is Some);
    assert(s10.len() == c10);
    let s11 = push_if(s10, ops.placeholder is Some, "placeholder"@);
    lemma_push_if_len(s10, ops.placeholder is Some, "placeholder"@);
    let c11 = c10 + one_if(ops.placeholder is Some);
    assert(s11.len() == c11);
    let s12 = push_if(s11, ops.range is Some, "range"@);
    lemma_push_if_len(s11, ops.range is Some, "range"@);
    let c12 = c11 + one_if(ops.range is Some);
    assert(s12.len() == c12);
    let s13 = push_if(s12, ops.custom_type is Some, "ty"@);
    lemma_push_if_len(s12, ops.custom_type is Some, "ty"@);
    let c13 = c12 + one_if(ops.custom_type is Some);
    assert(s13.len() == c13);
    let s14 = push_if(s13, ops.storage is Some, "storage"@);
    lemma_push_if_len(s13, ops.storage is Some, "storage"@);
    let c14 = c13 + one_if(ops.storage is Some);
    assert(s14.len() == c14);
    let s15 = push_if(s14, ops.custom is Some, "custom"@);
    lemma_push_if_len(s14, ops.custom is Some, "custom"@);
    let c15 = c14 + one_if(ops.custom is Some);
    assert(s15.len() == c15);
    assert(present_options(ops) == s15);
}

} // verus!
