//! Documentation of script classes: the type names shown for properties,
//! arguments and return values, and the documentation records of methods,
//! signals and properties.
use vstd::prelude::*;

use crate::engine_types::{engine_variant_numbering, ClassId, VariantType};
use crate::static_script_registry::{
    props_view, PropDescView, RustScriptMethodDesc, RustScriptPropDesc, RustScriptSignalDesc,
};

verus! {

/// The name under which documentation shows a variant type.
pub open spec fn variant_doc_type(v: VariantType) -> Seq<char> {
    match v {
        VariantType::Nil => "void"@,
        VariantType::Bool => "Bool"@,
        VariantType::Int => "Int"@,
        VariantType::Float => "Float"@,
        VariantType::String => "String"@,
        VariantType::Vector2 => "Vector2"@,
        VariantType::Vector2i => "Vector2i"@,
        VariantType::Rect2 => "Rect2"@,
        VariantType::Rect2i => "Rect2i"@,
        VariantType::Vector3 => "Vector3"@,
        VariantType::Vector3i => "Vector3i"@,
        VariantType::Transform2D => "Transform2D"@,
        VariantType::Vector4 => "Vector4"@,
        VariantType::Vector4i => "Vector4i"@,
        VariantType::Plane => "Plane"@,
        VariantType::Quaternion => "Quaternion"@,
        VariantType::Aabb => "Aabb"@,
        VariantType::Basis => "Basis"@,
        VariantType::Transform3D => "Transform3D"@,
        VariantType::Projection => "Projection"@,
        VariantType::Color => "Color"@,
        VariantType::StringName => "StringName"@,
        VariantType::NodePath => "NodePath"@,
        VariantType::Rid => "Rid"@,
        VariantType::Object => "Object"@,
        VariantType::Callable => "Callable"@,
        VariantType::Signal => "Signal"@,
        VariantType::Dictionary => "Dictionary"@,
        VariantType::Array => "Array"@,
        VariantType::PackedByteArray => "PackedByteArray"@,
        VariantType::PackedInt32Array => "PackedInt32Array"@,
        VariantType::PackedInt64Array => "PackedInt64Array"@,
        VariantType::PackedColorArray => "PackedColorArray"@,
        VariantType::PackedStringArray => "PackedStringArray"@,
        VariantType::PackedVector3Array => "PackedVector3Array"@,
        VariantType::PackedVector2Array => "PackedVector2Array"@,
        VariantType::PackedFloat64Array => "PackedFloat64Array"@,
        VariantType::PackedFloat32Array => "PackedFloat32Array"@,
        VariantType::PackedVector4Array => "UNKNOWN"@,
        VariantType::Max => "UNKNOWN"@,
    }
}

/// The names under which documentation shows the variant types, in the
/// engine's numbering (`engine_variant_numbering`): each type by its own
/// engine name, `Nil` as `void`, and the types that documentation does not
/// know (`PackedVector4Array` and `Max`) as `UNKNOWN`.
pub open spec fn documented_type_names() -> Seq<Seq<char>> {
    seq![
        "void"@, "Bool"@, "Int"@, "Float"@,
        "String"@, "Vector2"@, "Vector2i"@, "Rect2"@,
        "Rect2i"@, "Vector3"@, "Vector3i"@, "Transform2D"@,
        "Vector4"@, "Vector4i"@, "Plane"@, "Quaternion"@,
        "Aabb"@, "Basis"@, "Transform3D"@, "Projection"@,
        "Color"@, "StringName"@, "NodePath"@, "Rid"@,
        "Object"@, "Callable"@, "Signal"@, "Dictionary"@,
        "Array"@, "PackedByteArray"@, "PackedInt32Array"@, "PackedInt64Array"@,
        "PackedFloat32Array"@, "PackedFloat64Array"@, "PackedStringArray"@, "PackedVector2Array"@,
        "PackedVector3Array"@, "PackedColorArray"@, "UNKNOWN"@, "UNKNOWN"@,
    ]
}

/// Documentation shows the variant type numbered `i` by the engine under
/// the `i`-th documented name.
pub proof fn law_doc_types_follow_the_engine_numbering(i: int)
    requires
        0 <= i < 40,
    ensures
        variant_doc_type(engine_variant_numbering()[i]) == documented_type_names()[i],
{
    let t = engine_variant_numbering();
    let d = documented_type_names();
    if i == 0 { assert(variant_doc_type(t[0]) == d[0]); }
    else if i == 1 { assert(variant_doc_type(t[1]) == d[1]); }
    else if i == 2 { assert(variant_doc_type(t[2]) == d[2]); }
    else if i == 3 { assert(variant_doc_type(t[3]) == d[3]); }
    else if i == 4 { assert(variant_doc_type(t[4]) == d[4]); }
    else if i == 5 { assert(variant_doc_type(t[5]) == d[5]); }
    else if i == 6 { assert(variant_doc_type(t[6]) == d[6]); }
    else if i == 7 { assert(variant_doc_type(t[7]) == d[7]); }
    else if i == 8 { assert(variant_doc_type(t[8]) == d[8]); }
    else if i == 9 { assert(variant_doc_type(t[9]) == d[9]); }
    else if i == 10 { assert(variant_doc_type(t[10]) == d[10]); }
    else if i == 11 { assert(variant_doc_type(t[11]) == d[11]); }
    else if i == 12 { assert(variant_doc_type(t[12]) == d[12]); }
    else if i == 13 { assert(variant_doc_type(t[13]) == d[13]); }
    else if i == 14 { assert(variant_doc_type(t[14]) == d[14]); }
    else if i == 15 { assert(variant_doc_type(t[15]) == d[15]); }
    else if i == 16 { assert(variant_doc_type(t[16]) == d[16]); }
    else if i == 17 { assert(variant_doc_type(t[17]) == d[17]); }
    else if i == 18 { assert(variant_doc_type(t[18]) == d[18]); }
    else if i == 19 { assert(variant_doc_type(t[19]) == d[19]); }
    else if i == 20 { assert(variant_doc_type(t[20]) == d[20]); }
    else if i == 21 { assert(variant_doc_type(t[21]) == d[21]); }
    else if i == 22 { assert(variant_doc_type(t[22]) == d[22]); }
    else if i == 23 { assert(variant_doc_type(t[23]) == d[23]); }
    else if i == 24 { assert(variant_doc_type(t[24]) == d[24]); }
    else if i == 25 { assert(variant_doc_type(t[25]) == d[25]); }
    else if i == 26 { assert(variant_doc_type(t[26]) == d[26]); }
    else if i == 27 { assert(variant_doc_type(t[27]) == d[27]); }
    else if i == 28 { assert(variant_doc_type(t[28]) == d[28]); }
    else if i == 29 { assert(variant_doc_type(t[29]) == d[29]); }
    else if i == 30 { assert(variant_doc_type(t[30]) == d[30]); }
    else if i == 31 { assert(variant_doc_type(t[31]) == d[31]); }
    else if i == 32 { assert(variant_doc_type(t[32]) == d[32]); }
    else if i == 33 { assert(variant_doc_type(t[33]) == d[33]); }
    else if i == 34 { assert(variant_doc_type(t[34]) == d[34]); }
    else if i == 35 { assert(variant_doc_type(t[35]) == d[35]); }
    else if i == 36 { assert(variant_doc_type(t[36]) == d[36]); }
    else if i == 37 { assert(variant_doc_type(t[37]) == d[37]); }
    else if i == 38 { assert(variant_doc_type(t[38]) == d[38]); }
    else if i == 39 { assert(variant_doc_type(t[39]) == d[39]); }
}

/// The character at `i` of `s`, or a space past its ends.
spec fn char_at(s: Seq<char>, i: int) -> char {
    if 0 <= i < s.len() {
        s[i]
    } else {
        ' '
    }
}

/// A few features of a name (its length and some of its characters) that
/// already tell the documented names apart.
spec fn name_features(s: Seq<char>) -> (nat, char, char, char, char) {
    (s.len(), char_at(s, 0), char_at(s, 6), char_at(s, s.len() - 2), char_at(s, s.len() - 6))
}

spec fn doc_name_features(v: VariantType) -> (nat, char, char, char, char) {
    match v {
        VariantType::Nil => (4, 'v', ' ', 'i', ' '),
        VariantType::Bool => (4, 'B', ' ', 'o', ' '),
        VariantType::Int => (3, 'I', ' ', 'n', ' '),
        VariantType::Float => (5, 'F', ' ', 'a', ' '),
        VariantType::String => (6, 'S', ' ', 'n', 'S'),
        VariantType::Vector2 => (7, 'V', '2', 'r', 'e'),
        VariantType::Vector2i => (8, 'V', '2', '2', 'c'),
        VariantType::Rect2 => (5, 'R', ' ', 't', ' '),
        VariantType::Rect2i => (6, 'R', ' ', '2', 'R'),
        VariantType::Vector3 => (7, 'V', '3', 'r', 'e'),
        VariantType::Vector3i => (8, 'V', '3', '3', 'c'),
        VariantType::Transform2D => (11, 'T', 'o', '2', 'f'),
        VariantType::Vector4 => (7, 'V', '4', 'r', 'e'),
        VariantType::Vector4i => (8, 'V', '4', '4', 'c'),
        VariantType::Plane => (5, 'P', ' ', 'n', ' '),
        VariantType::Quaternion => (10, 'Q', 'n', 'o', 'e'),
        VariantType::Aabb => (4, 'A', ' ', 'b', ' '),
        VariantType::Basis => (5, 'B', ' ', 'i', ' '),
        VariantType::Transform3D => (11, 'T', 'o', '3', 'f'),
        VariantType::Projection => (10, 'P', 't', 'o', 'e'),
        VariantType::Color => (5, 'C', ' ', 'o', ' '),
        VariantType::StringName => (10, 'S', 'N', 'm', 'n'),
        VariantType::NodePath => (8, 'N', 't', 't', 'd'),
        VariantType::Rid => (3, 'R', ' ', 'i', ' '),
        VariantType::Object => (6, 'O', ' ', 'c', 'O'),
        VariantType::Callable => (8, 'C', 'l', 'l', 'l'),
        VariantType::Signal => (6, 'S', ' ', 'a', 'S'),
        VariantType::Dictionary => (10, 'D', 'n', 'r', 'i'),
        VariantType::Array => (5, 'A', ' ', 'a', ' '),
        VariantType::PackedByteArray => (15, 'P', 'B', 'a', 'e'),
        VariantType::PackedInt32Array => (16, 'P', 'I', 'a', '2'),
        VariantType::PackedInt64Array => (16, 'P', 'I', 'a', '4'),
        VariantType::PackedFloat32Array => (18, 'P', 'F', 'a', '2'),
        VariantType::PackedFloat64Array => (18, 'P', 'F', 'a', '4'),
        VariantType::PackedStringArray => (17, 'P', 'S', 'a', 'g'),
        VariantType::PackedVector2Array => (18, 'P', 'V', 'a', '2'),
        VariantType::PackedVector3Array => (18, 'P', 'V', 'a', '3'),
        VariantType::PackedColorArray => (16, 'P', 'C', 'a', 'r'),
        VariantType::PackedVector4Array => (7, 'U', 'N', 'W', 'N'),
        VariantType::Max => (7, 'U', 'N', 'W', 'N'),
    }
}

proof fn lemma_doc_name_features(v: VariantType)
    ensures
        name_features(variant_doc_type(v)) == doc_name_features(v),
{
    match v {
        VariantType::Nil => {
            reveal_strlit("void");
        },
        VariantType::Bool => {
            reveal_strlit("Bool");
        },
        VariantType::Int => {
            reveal_strlit("Int");
        },
        VariantType::Float => {
            reveal_strlit("Float");
        },
        VariantType::String => {
            reveal_strlit("String");
        },
        VariantType::Vector2 => {
            reveal_strlit("Vector2");
        },
        VariantType::Vector2i => {
            reveal_strlit("Vector2i");
        },
        VariantType::Rect2 => {
            reveal_strlit("Rect2");
        },
        VariantType::Rect2i => {
            reveal_strlit("Rect2i");
        },
        VariantType::Vector3 => {
            reveal_strlit("Vector3");
        },
        VariantType::Vector3i => {
            reveal_strlit("Vector3i");
        },
        VariantType::Transform2D => {
            reveal_strlit("Transform2D");
        },
        VariantType::Vector4 => {
            reveal_strlit("Vector4");
        },
        VariantType::Vector4i => {
            reveal_strlit("Vector4i");
        },
        VariantType::Plane => {
            reveal_strlit("Plane");
        },
        VariantType::Quaternion => {
            reveal_strlit("Quaternion");
        },
        VariantType::Aabb => {
            reveal_strlit("Aabb");
        },
        VariantType::Basis => {
            reveal_strlit("Basis");
        },
        VariantType::Transform3D => {
            reveal_strlit("Transform3D");
        },
        VariantType::Projection => {
            reveal_strlit("Projection");
        },
        VariantType::Color => {
            reveal_strlit("Color");
        },
        VariantType::StringName => {
            reveal_strlit("StringName");
        },
        VariantType::NodePath => {
            reveal_strlit("NodePath");
        },
        VariantType::Rid => {
            reveal_strlit("Rid");
        },
        VariantType::Object => {
            reveal_strlit("Object");
        },
        VariantType::Callable => {
            reveal_strlit("Callable");
        },
        VariantType::Signal => {
            reveal_strlit("Signal");
        },
        VariantType::Dictionary => {
            reveal_strlit("Dictionary");
        },
        VariantType::Array => {
            reveal_strlit("Array");
        },
        VariantType::PackedByteArray => {
            reveal_strlit("PackedByteArray");
        },
        VariantType::PackedInt32Array => {
            reveal_strlit("PackedInt32Array");
        },
        VariantType::PackedInt64Array => {
            reveal_strlit("PackedInt64Array");
        },
        VariantType::PackedFloat32Array => {
            reveal_strlit("PackedFloat32Array");
        },
        VariantType::PackedFloat64Array => {
            reveal_strlit("PackedFloat64Array");
        },
        VariantType::PackedStringArray => {
            reveal_strlit("PackedStringArray");
        },
        VariantType::PackedVector2Array => {
            reveal_strlit("PackedVector2Array");
        },
        VariantType::PackedVector3Array => {
            reveal_strlit("PackedVector3Array");
        },
        VariantType::PackedColorArray => {
            reveal_strlit("PackedColorArray");
        },
        VariantType::PackedVector4Array => {
            reveal_strlit("UNKNOWN");
        },
        VariantType::Max => {
            reveal_strlit("UNKNOWN");
        },
    }
}

/// Documentation tells the variant types apart: two different types that
/// it knows are shown under different names.
pub proof fn law_doc_types_are_distinct(v: VariantType, w: VariantType)
    requires
        v != w,
        variant_doc_type(v) != "UNKNOWN"@,
        variant_doc_type(w) != "UNKNOWN"@,
    ensures
        variant_doc_type(v) != variant_doc_type(w),
{
    lemma_doc_name_features(v);
    lemma_doc_name_features(w);
    reveal_strlit("UNKNOWN");
    if variant_doc_type(v) == variant_doc_type(w) {
        assert(doc_name_features(v) == doc_name_features(w));
        assert(v != VariantType::PackedVector4Array && v != VariantType::Max);
        assert(w != VariantType::PackedVector4Array && w != VariantType::Max);
    }
}

/// The name under which documentation shows a variant type.
pub fn variant_type_to_str(var_type: VariantType) -> (r: &'static str)
    ensures
        r@ == variant_doc_type(var_type),
{
    match var_type {
        VariantType::Nil => "void",
        VariantType::Bool => "Bool",
        VariantType::Int => "Int",
        VariantType::Float => "Float",
        VariantType::String => "String",
        VariantType::Vector2 => "Vector2",
        VariantType::Vector2i => "Vector2i",
        VariantType::Rect2 => "Rect2",
        VariantType::Rect2i => "Rect2i",
        VariantType::Vector3 => "Vector3",
        VariantType::Vector3i => "Vector3i",
        VariantType::Transform2D => "Transform2D",
        VariantType::Vector4 => "Vector4",
        VariantType::Vector4i => "Vector4i",
        VariantType::Plane => "Plane",
        VariantType::Quaternion => "Quaternion",
        VariantType::Aabb => "Aabb",
        VariantType::Basis => "Basis",
        VariantType::Transform3D => "Transform3D",
        VariantType::Projection => "Projection",
        VariantType::Color => "Color",
        VariantType::StringName => "StringName",
        VariantType::NodePath => "NodePath",
        VariantType::Rid => "Rid",
        VariantType::Object => "Object",
        VariantType::Callable => "Callable",
        VariantType::Signal => "Signal",
        VariantType::Dictionary => "Dictionary",
        VariantType::Array => "Array",
        VariantType::PackedByteArray => "PackedByteArray",
        VariantType::PackedInt32Array => "PackedInt32Array",
        VariantType::PackedInt64Array => "PackedInt64Array",
        VariantType::PackedColorArray => "PackedColorArray",
        VariantType::PackedStringArray => "PackedStringArray",
        VariantType::PackedVector3Array => "PackedVector3Array",
        VariantType::PackedVector2Array => "PackedVector2Array",
        VariantType::PackedFloat64Array => "PackedFloat64Array",
        VariantType::PackedFloat32Array => "PackedFloat32Array",
        _ => "UNKNOWN",
    }
}

/// The type name that documentation shows for a value of type `ty`: the
/// class name for objects, the variant type's name otherwise.
pub open spec fn doc_type_of(ty: VariantType, class_name: Seq<char>) -> Seq<char> {
    if ty == VariantType::Object {
        class_name
    } else {
        variant_doc_type(ty)
    }
}

/// Documentation shows an object by its class's name, and any other value
/// by the name of its variant type, whatever class name comes with it.
pub proof fn law_objects_are_documented_by_class(ty: VariantType, class_name: Seq<char>, other: Seq<char>)
    ensures
        doc_type_of(VariantType::Object, class_name) == class_name,
        ty != VariantType::Object ==> doc_type_of(ty, class_name) == doc_type_of(ty, other),
        ty != VariantType::Object ==> doc_type_of(ty, class_name) == variant_doc_type(ty),
{
}

pub fn prop_doc_type(prop_type: VariantType, class_name: &ClassId) -> (r: String)
    ensures
        r@ == doc_type_of(prop_type, class_name@),
{
    match prop_type {
        VariantType::Object => class_name.to_str().to_owned(),
        _ => variant_type_to_str(prop_type).to_owned(),
    }
}

/// A value together with the description written for it.
pub struct Documented<T> {
    pub inner: T,
    pub description: &'static str,
}

impl<T: Clone> Clone for Documented<T> {
    /// A copy with a clone of the value and the same description.
    fn clone(&self) -> (r: Self)
        ensures
            cloned::<T>(self.inner, r.inner),
            r.description == self.description,
    {
        Documented { inner: self.inner.clone(), description: self.description }
    }
}

impl<T> Documented<T> {
    pub fn new(inner: T, description: &'static str) -> (r: Self)
        ensures
            r.inner == inner,
            r.description == description,
    {
        Documented { inner, description }
    }

    /// The documented value.
    pub fn inner(&self) -> (r: &T)
        ensures
            *r == self.inner,
    {
        &self.inner
    }

    pub fn description(&self) -> (r: &'static str)
        ensures
            r == self.description,
    {
        self.description
    }
}

impl Documented<RustScriptPropDesc> {
    /// A property, documented by its own description.
    pub fn from_property(value: RustScriptPropDesc) -> (r: Self)
        ensures
            r.inner@ == value@,
            r.description == value.description,
    {
        let description = value.description;
        Documented { inner: value, description }
    }
}

impl Documented<RustScriptMethodDesc> {
    /// A method, documented by its own description.
    pub fn from_method(value: RustScriptMethodDesc) -> (r: Self)
        ensures
            r.inner@ == value@,
            r.description == value.description,
    {
        let description = value.description;
        Documented { inner: value, description }
    }
}

impl Documented<RustScriptSignalDesc> {
    /// A signal, documented by its own description.
    pub fn from_signal(value: RustScriptSignalDesc) -> (r: Self)
        ensures
            r.inner@ == value@,
            r.description == value.description,
    {
        let description = value.description;
        Documented { inner: value, description }
    }
}

/// The documentation record of a method or signal argument.
pub struct ArgumentDoc {
    pub name: String,
    pub doc_type: String,
    pub description: Option<&'static str>,
}

/// The documentation record of a property.
pub struct PropertyDoc {
    pub name: String,
    pub doc_type: String,
    pub is_deprecated: bool,
    pub is_experimental: bool,
    pub description: Option<&'static str>,
}

/// The documentation record of a method or signal.
pub struct MethodDoc {
    pub name: String,
    pub return_type: String,
    pub is_deprecated: bool,
    pub is_experimental: bool,
    pub arguments: Vec<ArgumentDoc>,
    pub description: Option<&'static str>,
}

/// `doc` documents the argument `arg`, without a description of its own.
pub open spec fn argument_doc_of(doc: ArgumentDoc, arg: PropDescView) -> bool {
    &&& doc.name@ == arg.name
    &&& doc.doc_type@ == doc_type_of(arg.ty, arg.class_name)
    &&& doc.description is None
}

/// `docs` document the arguments `args`, one by one.
pub open spec fn argument_docs_of(docs: Seq<ArgumentDoc>, args: Seq<PropDescView>) -> bool {
    &&& docs.len() == args.len()
    &&& forall|i: int| 0 <= i < docs.len() ==> argument_doc_of(#[trigger] docs[i], args[i])
}

/// The documentation record of an argument.
pub fn to_argument_doc(arg: &RustScriptPropDesc) -> (r: ArgumentDoc)
    ensures
        argument_doc_of(r, arg@),
{
    ArgumentDoc {
        name: arg.name.clone(),
        doc_type: prop_doc_type(arg.ty, &arg.class_name),
        description: None,
    }
}

/// The documentation records of a list of arguments.
pub fn to_argument_docs(args: &Vec<RustScriptPropDesc>) -> (r: Vec<ArgumentDoc>)
    ensures
        argument_docs_of(r@, props_view(args@)),
{
    let mut out: Vec<ArgumentDoc> = Vec::new();
    let mut i: usize = 0;
    while i < args.len()
        invariant
            i <= args.len(),
            out@.len() == i,
            forall|j: int| 0 <= j < i ==> argument_doc_of(#[trigger] out@[j], args@[j]@),
        decreases args.len() - i,
    {
        out.push(to_argument_doc(&args[i]));
        i = i + 1;
    }
    assert(argument_docs_of(out@, props_view(args@)));
    out
}

impl Documented<RustScriptPropDesc> {
    /// The documentation record of the property, with its description.
    pub fn to_property_doc(&self) -> (r: PropertyDoc)
        ensures
            r.name@ == self.inner.name@,
            r.doc_type@ == doc_type_of(self.inner.ty, self.inner.class_name@),
            !r.is_deprecated,
            !r.is_experimental,
            r.description == Some(self.description),
    {
        PropertyDoc {
            name: self.inner.name.clone(),
            doc_type: prop_doc_type(self.inner.ty, &self.inner.class_name),
            is_deprecated: false,
            is_experimental: false,
            description: Some(self.description),
        }
    }

    /// The documentation record of the property as an argument, with its description.
    pub fn to_argument_doc(&self) -> (r: ArgumentDoc)
        ensures
            r.name@ == self.inner.name@,
            r.doc_type@ == doc_type_of(self.inner.ty, self.inner.class_name@),
            r.description == Some(self.description),
    {
        let mut doc = to_argument_doc(&self.inner);
        doc.description = Some(self.description);
        doc
    }
}

impl Documented<RustScriptMethodDesc> {
    /// The documentation record of the method, with its description.
    pub fn to_method_doc(&self) -> (r: MethodDoc)
        ensures
            r.name@ == self.inner.name@,
            r.return_type@ == doc_type_of(self.inner.return_type.ty, self.inner.return_type.class_name@),
            !r.is_deprecated,
            !r.is_experimental,
            argument_docs_of(r.arguments@, props_view(self.inner.arguments@)),
            r.description == Some(self.description),
    {
        MethodDoc {
            name: self.inner.name.to_owned(),
            return_type: prop_doc_type(self.inner.return_type.ty, &self.inner.return_type.class_name),
            is_deprecated: false,
            is_experimental: false,
            arguments: to_argument_docs(&self.inner.arguments),
            description: Some(self.description),
        }
    }
}

impl Documented<RustScriptSignalDesc> {
    /// The documentation record of the signal, with its description; a
    /// signal returns nothing, shown as `void`.
    pub fn to_method_doc(&self) -> (r: MethodDoc)
        ensures
            r.name@ == self.inner.name@,
            r.return_type@ == "void"@,
            !r.is_deprecated,
            !r.is_experimental,
            argument_docs_of(r.arguments@, props_view(self.inner.arguments@)),
            r.description == Some(self.description),
    {
        let none = ClassId::none();
        MethodDoc {
            name: self.inner.name.to_owned(),
            return_type: prop_doc_type(VariantType::Nil, &none),
            is_deprecated: false,
            is_experimental: false,
            arguments: to_argument_docs(&self.inner.arguments),
            description: Some(self.description),
        }
    }
}

} // verus!
