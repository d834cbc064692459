//! Plain-value models of the engine enumerations and identifiers that the
//! script registry stores: variant types, property hints, property usage
//! flags, method flags and class identifiers.
use vstd::prelude::*;

verus! {

/// The type tag of an engine variant, in the engine's numbering.
#[derive(Clone, Copy, Debug, PartialEq, Eq, Structural)]
pub enum VariantType {
    Nil,
    Bool,
    Int,
    Float,
    String,
    Vector2,
    Vector2i,
    Rect2,
    Rect2i,
    Vector3,
    Vector3i,
    Transform2D,
    Vector4,
    Vector4i,
    Plane,
    Quaternion,
    Aabb,
    Basis,
    Transform3D,
    Projection,
    Color,
    StringName,
    NodePath,
    Rid,
    Object,
    Callable,
    Signal,
    Dictionary,
    Array,
    PackedByteArray,
    PackedInt32Array,
    PackedInt64Array,
    PackedFloat32Array,
    PackedFloat64Array,
    PackedStringArray,
    PackedVector2Array,
    PackedVector3Array,
    PackedColorArray,
    PackedVector4Array,
    Max,
}

/// The engine's ordinal of each variant type.
pub open spec fn variant_type_ord(v: VariantType) -> int {
    match v {
        VariantType::Nil => 0,
        VariantType::Bool => 1,
        VariantType::Int => 2,
        VariantType::Float => 3,
        VariantType::String => 4,
        VariantType::Vector2 => 5,
        VariantType::Vector2i => 6,
        VariantType::Rect2 => 7,
        VariantType::Rect2i => 8,
        VariantType::Vector3 => 9,
        VariantType::Vector3i => 10,
        VariantType::Transform2D => 11,
        VariantType::Vector4 => 12,
        VariantType::Vector4i => 13,
        VariantType::Plane => 14,
        VariantType::Quaternion => 15,
        VariantType::Aabb => 16,
        VariantType::Basis => 17,
        VariantType::Transform3D => 18,
        VariantType::Projection => 19,
        VariantType::Color => 20,
        VariantType::StringName => 21,
        VariantType::NodePath => 22,
        VariantType::Rid => 23,
        VariantType::Object => 24,
        VariantType::Callable => 25,
        VariantType::Signal => 26,
        VariantType::Dictionary => 27,
        VariantType::Array => 28,
        VariantType::PackedByteArray => 29,
        VariantType::PackedInt32Array => 30,
        VariantType::PackedInt64Array => 31,
        VariantType::PackedFloat32Array => 32,
        VariantType::PackedFloat64Array => 33,
        VariantType::PackedStringArray => 34,
        VariantType::PackedVector2Array => 35,
        VariantType::PackedVector3Array => 36,
        VariantType::PackedColorArray => 37,
        VariantType::PackedVector4Array => 38,
        VariantType::Max => 39,
    }
}

impl VariantType {
    /// The engine ordinal of this variant type.
    pub fn ord(self) -> (r: i32)
        ensures
            r == variant_type_ord(self),
    {
        match self {
            VariantType::Nil => 0,
            VariantType::Bool => 1,
            VariantType::Int => 2,
            VariantType::Float => 3,
            VariantType::String => 4,
            VariantType::Vector2 => 5,
            VariantType::Vector2i => 6,
            VariantType::Rect2 => 7,
            VariantType::Rect2i => 8,
            VariantType::Vector3 => 9,
            VariantType::Vector3i => 10,
            VariantType::Transform2D => 11,
            VariantType::Vector4 => 12,
            VariantType::Vector4i => 13,
            VariantType::Plane => 14,
            VariantType::Quaternion => 15,
            VariantType::Aabb => 16,
            VariantType::Basis => 17,
            VariantType::Transform3D => 18,
            VariantType::Projection => 19,
            VariantType::Color => 20,
            VariantType::StringName => 21,
            VariantType::NodePath => 22,
            VariantType::Rid => 23,
            VariantType::Object => 24,
            VariantType::Callable => 25,
            VariantType::Signal => 26,
            VariantType::Dictionary => 27,
            VariantType::Array => 28,
            VariantType::PackedByteArray => 29,
            VariantType::PackedInt32Array => 30,
            VariantType::PackedInt64Array => 31,
            VariantType::PackedFloat32Array => 32,
            VariantType::PackedFloat64Array => 33,
            VariantType::PackedStringArray => 34,
            VariantType::PackedVector2Array => 35,
            VariantType::PackedVector3Array => 36,
            VariantType::PackedColorArray => 37,
            VariantType::PackedVector4Array => 38,
            VariantType::Max => 39,
        }
    }

    /// The variant type with the given engine ordinal, if there is one.
    pub fn from_ord(ord: i32) -> (r: Option<VariantType>)
        ensures
            r matches Some(v) ==> variant_type_ord(v) == ord,
            r is None <==> !(0 <= ord <= 39),
    {
        let all: [VariantType; 40] = [
            VariantType::Nil,
            VariantType::Bool,
            VariantType::Int,
            VariantType::Float,
            VariantType::String,
            VariantType::Vector2,
            VariantType::Vector2i,
            VariantType::Rect2,
            VariantType::Rect2i,
            VariantType::Vector3,
            VariantType::Vector3i,
            VariantType::Transform2D,
            VariantType::Vector4,
            VariantType::Vector4i,
            VariantType::Plane,
            VariantType::Quaternion,
            VariantType::Aabb,
            VariantType::Basis,
            VariantType::Transform3D,
            VariantType::Projection,
            VariantType::Color,
            VariantType::StringName,
            VariantType::NodePath,
            VariantType::Rid,
            VariantType::Object,
            VariantType::Callable,
            VariantType::Signal,
            VariantType::Dictionary,
            VariantType::Array,
            VariantType::PackedByteArray,
            VariantType::PackedInt32Array,
            VariantType::PackedInt64Array,
            VariantType::PackedFloat32Array,
            VariantType::PackedFloat64Array,
            VariantType::PackedStringArray,
            VariantType::PackedVector2Array,
            VariantType::PackedVector3Array,
            VariantType::PackedColorArray,
            VariantType::PackedVector4Array,
            VariantType::Max,
        ];
        let mut i: usize = 0;
        while i < 40
            invariant
                i <= 40,
                forall|j: int| 0 <= j < i ==> variant_type_ord(#[trigger] all@[j]) != ord,
                forall|j: int| 0 <= j < 40 ==> variant_type_ord(#[trigger] all@[j]) == j,
            decreases 40 - i,
        {
            if all[i].ord() == ord {
                return Some(all[i]);
            }
            i = i + 1;
        }
        assert(!(0 <= ord <= 39)) by {
            if 0 <= ord <= 39 {
                assert(variant_type_ord(all@[ord as int]) == ord);
            }
        }
        None
    }
}

/// The engine's numbering of the variant types (`GDExtensionVariantType`,
/// `Variant.Type`): the type numbered `i` stands at position `i`.
pub open spec fn engine_variant_numbering() -> Seq<VariantType> {
    seq![
        VariantType::Nil, VariantType::Bool, VariantType::Int, VariantType::Float,
        VariantType::String, VariantType::Vector2, VariantType::Vector2i, VariantType::Rect2,
        VariantType::Rect2i, VariantType::Vector3, VariantType::Vector3i, VariantType::Transform2D,
        VariantType::Vector4, VariantType::Vector4i, VariantType::Plane, VariantType::Quaternion,
        VariantType::Aabb, VariantType::Basis, VariantType::Transform3D, VariantType::Projection,
        VariantType::Color, VariantType::StringName, VariantType::NodePath, VariantType::Rid,
        VariantType::Object, VariantType::Callable, VariantType::Signal, VariantType::Dictionary,
        VariantType::Array, VariantType::PackedByteArray, VariantType::PackedInt32Array, VariantType::PackedInt64Array,
        VariantType::PackedFloat32Array, VariantType::PackedFloat64Array, VariantType::PackedStringArray, VariantType::PackedVector2Array,
        VariantType::PackedVector3Array, VariantType::PackedColorArray, VariantType::PackedVector4Array, VariantType::Max,
    ]
}

/// Every variant type's ordinal is its number in the engine's numbering:
/// `Nil` is 0, `Bool` 1, `Int` 2, `Float` 3, `String` 4, and so on up to
/// `Max`, 39; no two types share a number.
pub proof fn law_variant_ordinals_follow_the_engine(v: VariantType, w: VariantType, i: int)
    ensures
        engine_variant_numbering().len() == 40,
        0 <= variant_type_ord(v) < 40,
        engine_variant_numbering()[variant_type_ord(v)] == v,
        0 <= i < 40 ==> variant_type_ord(engine_variant_numbering()[i]) == i,
        variant_type_ord(v) == variant_type_ord(w) ==> v == w,
{
    let t = engine_variant_numbering();
    assert(t.len() == 40);
    assert(t[variant_type_ord(v)] == v) by {
        match v {
            VariantType::Nil => assert(t[0] == VariantType::Nil),
            VariantType::Bool => assert(t[1] == VariantType::Bool),
            VariantType::Int => assert(t[2] == VariantType::Int),
            VariantType::Float => assert(t[3] == VariantType::Float),
            VariantType::String => assert(t[4] == VariantType::String),
            VariantType::Vector2 => assert(t[5] == VariantType::Vector2),
            VariantType::Vector2i => assert(t[6] == VariantType::Vector2i),
            VariantType::Rect2 => assert(t[7] == VariantType::Rect2),
            VariantType::Rect2i => assert(t[8] == VariantType::Rect2i),
            VariantType::Vector3 => assert(t[9] == VariantType::Vector3),
            VariantType::Vector3i => assert(t[10] == VariantType::Vector3i),
            VariantType::Transform2D => assert(t[11] == VariantType::Transform2D),
            VariantType::Vector4 => assert(t[12] == VariantType::Vector4),
            VariantType::Vector4i => assert(t[13] == VariantType::Vector4i),
            VariantType::Plane => assert(t[14] == VariantType::Plane),
            VariantType::Quaternion => assert(t[15] == VariantType::Quaternion),
            VariantType::Aabb => assert(t[16] == VariantType::Aabb),
            VariantType::Basis => assert(t[17] == VariantType::Basis),
            VariantType::Transform3D => assert(t[18] == VariantType::Transform3D),
            VariantType::Projection => assert(t[19] == VariantType::Projection),
            VariantType::Color => assert(t[20] == VariantType::Color),
            VariantType::StringName => assert(t[21] == VariantType::StringName),
            VariantType::NodePath => assert(t[22] == VariantType::NodePath),
            VariantType::Rid => assert(t[23] == VariantType::Rid),
            VariantType::Object => assert(t[24] == VariantType::Object),
            VariantType::Callable => assert(t[25] == VariantType::Callable),
            VariantType::Signal => assert(t[26] == VariantType::Signal),
            VariantType::Dictionary => assert(t[27] == VariantType::Dictionary),
            VariantType::Array => assert(t[28] == VariantType::Array),
            VariantType::PackedByteArray => assert(t[29] == VariantType::PackedByteArray),
            VariantType::PackedInt32Array => assert(t[30] == VariantType::PackedInt32Array),
            VariantType::PackedInt64Array => assert(t[31] == VariantType::PackedInt64Array),
            VariantType::PackedFloat32Array => assert(t[32] == VariantType::PackedFloat32Array),
            VariantType::PackedFloat64Array => assert(t[33] == VariantType::PackedFloat64Array),
            VariantType::PackedStringArray => assert(t[34] == VariantType::PackedStringArray),
            VariantType::PackedVector2Array => assert(t[35] == VariantType::PackedVector2Array),
            VariantType::PackedVector3Array => assert(t[36] == VariantType::PackedVector3Array),
            VariantType::PackedColorArray => assert(t[37] == VariantType::PackedColorArray),
            VariantType::PackedVector4Array => assert(t[38] == VariantType::PackedVector4Array),
            VariantType::Max => assert(t[39] == VariantType::Max),
        }
    }
    assert(t[variant_type_ord(w)] == w) by {
        match w {
            VariantType::Nil => assert(t[0] == VariantType::Nil),
            VariantType::Bool => assert(t[1] == VariantType::Bool),
            VariantType::Int => assert(t[2] == VariantType::Int),
            VariantType::Float => assert(t[3] == VariantType::Float),
            VariantType::String => assert(t[4] == VariantType::String),
            VariantType::Vector2 => assert(t[5] == VariantType::Vector2),
            VariantType::Vector2i => assert(t[6] == VariantType::Vector2i),
            VariantType::Rect2 => assert(t[7] == VariantType::Rect2),
            VariantType::Rect2i => assert(t[8] == VariantType::Rect2i),
            VariantType::Vector3 => assert(t[9] == VariantType::Vector3),
            VariantType::Vector3i => assert(t[10] == VariantType::Vector3i),
            VariantType::Transform2D => assert(t[11] == VariantType::Transform2D),
            VariantType::Vector4 => assert(t[12] == VariantType::Vector4),
            VariantType::Vector4i => assert(t[13] == VariantType::Vector4i),
            VariantType::Plane => assert(t[14] == VariantType::Plane),
            VariantType::Quaternion => assert(t[15] == VariantType::Quaternion),
            VariantType::Aabb => assert(t[16] == VariantType::Aabb),
            VariantType::Basis => assert(t[17] == VariantType::Basis),
            VariantType::Transform3D => assert(t[18] == VariantType::Transform3D),
            VariantType::Projection => assert(t[19] == VariantType::Projection),
            VariantType::Color => assert(t[20] == VariantType::Color),
            VariantType::StringName => assert(t[21] == VariantType::StringName),
            VariantType::NodePath => assert(t[22] == VariantType::NodePath),
            VariantType::Rid => assert(t[23] == VariantType::Rid),
            VariantType::Object => assert(t[24] == VariantType::Object),
            VariantType::Callable => assert(t[25] == VariantType::Callable),
            VariantType::Signal => assert(t[26] == VariantType::Signal),
            VariantType::Dictionary => assert(t[27] == VariantType::Dictionary),
            VariantType::Array => assert(t[28] == VariantType::Array),
            VariantType::PackedByteArray => assert(t[29] == VariantType::PackedByteArray),
            VariantType::PackedInt32Array => assert(t[30] == VariantType::PackedInt32Array),
            VariantType::PackedInt64Array => assert(t[31] == VariantType::PackedInt64Array),
            VariantType::PackedFloat32Array => assert(t[32] == VariantType::PackedFloat32Array),
            VariantType::PackedFloat64Array => assert(t[33] == VariantType::PackedFloat64Array),
            VariantType::PackedStringArray => assert(t[34] == VariantType::PackedStringArray),
            VariantType::PackedVector2Array => assert(t[35] == VariantType::PackedVector2Array),
            VariantType::PackedVector3Array => assert(t[36] == VariantType::PackedVector3Array),
            VariantType::PackedColorArray => assert(t[37] == VariantType::PackedColorArray),
            VariantType::PackedVector4Array => assert(t[38] == VariantType::PackedVector4Array),
            VariantType::Max => assert(t[39] == VariantType::Max),
        }
    }
    if 0 <= i < 40 {
        if i == 0 { assert(variant_type_ord(t[0]) == 0); }
        else if i == 1 { assert(variant_type_ord(t[1]) == 1); }
        else if i == 2 { assert(variant_type_ord(t[2]) == 2); }
        else if i == 3 { assert(variant_type_ord(t[3]) == 3); }
        else if i == 4 { assert(variant_type_ord(t[4]) == 4); }
        else if i == 5 { assert(variant_type_ord(t[5]) == 5); }
        else if i == 6 { assert(variant_type_ord(t[6]) == 6); }
        else if i == 7 { assert(variant_type_ord(t[7]) == 7); }
        else if i == 8 { assert(variant_type_ord(t[8]) == 8); }
        else if i == 9 { assert(variant_type_ord(t[9]) == 9); }
        else if i == 10 { assert(variant_type_ord(t[10]) == 10); }
        else if i == 11 { assert(variant_type_ord(t[11]) == 11); }
        else if i == 12 { assert(variant_type_ord(t[12]) == 12); }
        else if i == 13 { assert(variant_type_ord(t[13]) == 13); }
        else if i == 14 { assert(variant_type_ord(t[14]) == 14); }
        else if i == 15 { assert(variant_type_ord(t[15]) == 15); }
        else if i == 16 { assert(variant_type_ord(t[16]) == 16); }
        else if i == 17 { assert(variant_type_ord(t[17]) == 17); }
        else if i == 18 { assert(variant_type_ord(t[18]) == 18); }
        else if i == 19 { assert(variant_type_ord(t[19]) == 19); }
        else if i == 20 { assert(variant_type_ord(t[20]) == 20); }
        else if i == 21 { assert(variant_type_ord(t[21]) == 21); }
        else if i == 22 { assert(variant_type_ord(t[22]) == 22); }
        else if i == 23 { assert(variant_type_ord(t[23]) == 23); }
        else if i == 24 { assert(variant_type_ord(t[24]) == 24); }
        else if i == 25 { assert(variant_type_ord(t[25]) == 25); }
        else if i == 26 { assert(variant_type_ord(t[26]) == 26); }
        else if i == 27 { assert(variant_type_ord(t[27]) == 27); }
        else if i == 28 { assert(variant_type_ord(t[28]) == 28); }
        else if i == 29 { assert(variant_type_ord(t[29]) == 29); }
        else if i == 30 { assert(variant_type_ord(t[30]) == 30); }
        else if i == 31 { assert(variant_type_ord(t[31]) == 31); }
        else if i == 32 { assert(variant_type_ord(t[32]) == 32); }
        else if i == 33 { assert(variant_type_ord(t[33]) == 33); }
        else if i == 34 { assert(variant_type_ord(t[34]) == 34); }
        else if i == 35 { assert(variant_type_ord(t[35]) == 35); }
        else if i == 36 { assert(variant_type_ord(t[36]) == 36); }
        else if i == 37 { assert(variant_type_ord(t[37]) == 37); }
        else if i == 38 { assert(variant_type_ord(t[38]) == 38); }
        else if i == 39 { assert(variant_type_ord(t[39]) == 39); }
    }
}

/// A property hint, held by its engine ordinal.
#[derive(Clone, Copy, Debug, PartialEq, Eq, Structural)]
pub struct PropertyHint {
    pub ord: i32,
}

/// Engine ordinals of the property hints that this library produces.
pub open spec fn hint_none() -> i32 { 0 }
pub open spec fn hint_range() -> i32 { 1 }
pub open spec fn hint_enum() -> i32 { 2 }
pub open spec fn hint_exp_easing() -> i32 { 4 }
pub open spec fn hint_flags() -> i32 { 6 }
pub open spec fn hint_file() -> i32 { 13 }
pub open spec fn hint_dir() -> i32 { 14 }
pub open spec fn hint_global_file() -> i32 { 15 }
pub open spec fn hint_global_dir() -> i32 { 16 }
pub open spec fn hint_resource_type() -> i32 { 17 }
pub open spec fn hint_multiline_text() -> i32 { 18 }
pub open spec fn hint_placeholder_text() -> i32 { 20 }
pub open spec fn hint_color_no_alpha() -> i32 { 21 }
pub open spec fn hint_node_path_valid_types() -> i32 { 26 }
pub open spec fn hint_array_type() -> i32 { 31 }
pub open spec fn hint_node_type() -> i32 { 34 }
pub open spec fn hint_group_enable() -> i32 { 42 }

impl PropertyHint {
    pub fn none() -> (r: Self)
        ensures r.ord == hint_none(),
    {
        PropertyHint { ord: 0 }
    }

    pub fn range() -> (r: Self)
        ensures r.ord == hint_range(),
    {
        PropertyHint { ord: 1 }
    }

    pub fn enum_() -> (r: Self)
        ensures r.ord == hint_enum(),
    {
        PropertyHint { ord: 2 }
    }

    pub fn exp_easing() -> (r: Self)
        ensures r.ord == hint_exp_easing(),
    {
        PropertyHint { ord: 4 }
    }

    pub fn flags() -> (r: Self)
        ensures r.ord == hint_flags(),
    {
        PropertyHint { ord: 6 }
    }

    pub fn file() -> (r: Self)
        ensures r.ord == hint_file(),
    {
        PropertyHint { ord: 13 }
    }

    pub fn dir() -> (r: Self)
        ensures r.ord == hint_dir(),
    {
        PropertyHint { ord: 14 }
    }

    pub fn global_file() -> (r: Self)
        ensures r.ord == hint_global_file(),
    {
        PropertyHint { ord: 15 }
    }

    pub fn global_dir() -> (r: Self)
        ensures r.ord == hint_global_dir(),
    {
        PropertyHint { ord: 16 }
    }

    pub fn resource_type() -> (r: Self)
        ensures r.ord == hint_resource_type(),
    {
        PropertyHint { ord: 17 }
    }

    pub fn multiline_text() -> (r: Self)
        ensures r.ord == hint_multiline_text(),
    {
        PropertyHint { ord: 18 }
    }

    pub fn placeholder_text() -> (r: Self)
        ensures r.ord == hint_placeholder_text(),
    {
        PropertyHint { ord: 20 }
    }

    pub fn color_no_alpha() -> (r: Self)
        ensures r.ord == hint_color_no_alpha(),
    {
        PropertyHint { ord: 21 }
    }

    pub fn node_path_valid_types() -> (r: Self)
        ensures r.ord == hint_node_path_valid_types(),
    {
        PropertyHint { ord: 26 }
    }

    pub fn array_type() -> (r: Self)
        ensures r.ord == hint_array_type(),
    {
        PropertyHint { ord: 31 }
    }

    pub fn node_type() -> (r: Self)
        ensures r.ord == hint_node_type(),
    {
        PropertyHint { ord: 34 }
    }

    pub fn group_enable() -> (r: Self)
        ensures r.ord == hint_group_enable(),
    {
        PropertyHint { ord: 42 }
    }
}

/// A set of property usage flags, held as the engine's bit mask.
#[derive(Clone, Copy, Debug, PartialEq, Eq, Structural)]
pub struct PropertyUsageFlags {
    pub bits: u64,
}

pub open spec fn usage_none() -> u64 { 0 }
pub open spec fn usage_storage() -> u64 { 2 }
pub open spec fn usage_editor() -> u64 { 4 }
pub open spec fn usage_group() -> u64 { 64 }
pub open spec fn usage_subgroup() -> u64 { 256 }
pub open spec fn usage_script_variable() -> u64 { 4096 }
/// `SCRIPT_VARIABLE | EDITOR | STORAGE`, the usage of an ordinary exported script property.
pub open spec fn usage_exported() -> u64 { 4102 }

impl PropertyUsageFlags {
    pub fn none() -> (r: Self)
        ensures r.bits == usage_none(),
    {
        PropertyUsageFlags { bits: 0 }
    }

    pub fn storage() -> (r: Self)
        ensures r.bits == usage_storage(),
    {
        PropertyUsageFlags { bits: 2 }
    }

    pub fn editor() -> (r: Self)
        ensures r.bits == usage_editor(),
    {
        PropertyUsageFlags { bits: 4 }
    }

    pub fn group() -> (r: Self)
        ensures r.bits == usage_group(),
    {
        PropertyUsageFlags { bits: 64 }
    }

    pub fn subgroup() -> (r: Self)
        ensures r.bits == usage_subgroup(),
    {
        PropertyUsageFlags { bits: 256 }
    }

    pub fn script_variable() -> (r: Self)
        ensures r.bits == usage_script_variable(),
    {
        PropertyUsageFlags { bits: 4096 }
    }

    /// The union of two flag sets.
    pub fn union(self, other: Self) -> (r: Self)
        ensures r.bits == self.bits | other.bits,
    {
        PropertyUsageFlags { bits: self.bits | other.bits }
    }

    /// Whether every flag of `other` is also set here.
    pub fn contains(self, other: Self) -> (r: bool)
        ensures r == (self.bits & other.bits == other.bits),
    {
        self.bits & other.bits == other.bits
    }

    /// The usage of an ordinary exported script property: `SCRIPT_VARIABLE | EDITOR | STORAGE`.
    pub fn exported() -> (r: Self)
        ensures r.bits == usage_exported(),
    {
        let r = Self::script_variable().union(Self::editor()).union(Self::storage());
        assert(4096u64 | 4u64 | 2u64 == 4102u64) by (bit_vector);
        r
    }
}

/// A set of method flags, held as the engine's bit mask.
#[derive(Clone, Copy, Debug, PartialEq, Eq, Structural)]
pub struct MethodFlags {
    pub bits: u64,
}

pub open spec fn method_normal() -> u64 { 1 }
pub open spec fn method_static() -> u64 { 32 }

impl MethodFlags {
    pub fn normal() -> (r: Self)
        ensures r.bits == method_normal(),
    {
        MethodFlags { bits: 1 }
    }

    pub fn static_() -> (r: Self)
        ensures r.bits == method_static(),
    {
        MethodFlags { bits: 32 }
    }
}

/// The identifier of an engine class, held by the class's name. The empty
/// name stands for "no class".
#[derive(Debug)]
pub struct ClassId {
    name: String,
}

impl View for ClassId {
    type V = Seq<char>;

    open spec fn view(&self) -> Seq<char> {
        self.spec_name()
    }
}

impl ClassId {
    pub closed spec fn spec_name(&self) -> Seq<char> {
        self.name@
    }

    /// The identifier that names no class.
    pub fn none() -> (r: Self)
        ensures r@ == Seq::<char>::empty(),
    {
        ClassId { name: String::new() }
    }

    /// The identifier of the class with the given name.
    pub fn from_name(name: &str) -> (r: Self)
        ensures r@ == name@,
    {
        ClassId { name: name.to_owned() }
    }

    /// The class's name.
    pub fn to_str(&self) -> (r: &str)
        ensures r@ == self@,
    {
        self.name.as_str()
    }

    pub fn duplicate(&self) -> (r: Self)
        ensures r@ == self@,
    {
        ClassId { name: self.name.clone() }
    }
}

/// Two identifiers are equal when they name the same class.
impl PartialEq for ClassId {
    fn eq(&self, other: &Self) -> (r: bool) {
        crate::text::str_eq(self.name.as_str(), other.name.as_str())
    }
}

impl vstd::std_specs::cmp::PartialEqSpecImpl for ClassId {
    open spec fn obeys_eq_spec() -> bool {
        true
    }

    open spec fn eq_spec(&self, other: &Self) -> bool {
        self@ == other@
    }
}

/// The property hints, usage flags and method flags that this library
/// produces carry the engine's numbers for them (`PropertyHint`,
/// `PropertyUsageFlags`, `MethodFlags`), and the usage of an exported
/// property is the union of `SCRIPT_VARIABLE`, `EDITOR` and `STORAGE`.
pub proof fn law_hints_and_flags_use_the_engine_numbers()
    ensures
        hint_none() == 0 && hint_range() == 1 && hint_enum() == 2 && hint_exp_easing() == 4,
        hint_flags() == 6 && hint_file() == 13 && hint_dir() == 14 && hint_global_file() == 15,
        hint_global_dir() == 16 && hint_resource_type() == 17 && hint_multiline_text() == 18,
        hint_placeholder_text() == 20 && hint_color_no_alpha() == 21 && hint_node_path_valid_types() == 26,
        hint_array_type() == 31 && hint_node_type() == 34 && hint_group_enable() == 42,
        usage_none() == 0 && usage_storage() == 2 && usage_editor() == 4 && usage_group() == 64,
        usage_subgroup() == 256 && usage_script_variable() == 4096,
        usage_exported() == usage_script_variable() | usage_editor() | usage_storage(),
        method_normal() == 1 && method_static() == 32,
{
    assert(4096u64 | 4u64 | 2u64 == 4102u64) by (bit_vector);
}

} // verus!
