//! The two names a type has in generated code: the label that users of the
//! bindings read, and the canonical name from which the names of helper
//! functions are built.

use crate::interface::{Primitive, Type, TypeView};
use crate::oracle::{class_name_text, KotlinLanguageOracle};
use vstd::prelude::*;
use vstd::string::*;

verus! {

/// The Kotlin type of a primitive type.
pub open spec fn primitive_label_text(primitive: Primitive) -> Seq<char> {
    match primitive {
        Primitive::UInt8 => "UByte"@,
        Primitive::Int8 => "Byte"@,
        Primitive::UInt16 => "UShort"@,
        Primitive::Int16 => "Short"@,
        Primitive::UInt32 => "UInt"@,
        Primitive::Int32 => "Int"@,
        Primitive::UInt64 => "ULong"@,
        Primitive::Int64 => "Long"@,
        Primitive::Float32 => "Float"@,
        Primitive::Float64 => "Double"@,
        Primitive::Boolean => "Boolean"@,
        Primitive::String => "String"@,
        Primitive::Timestamp => "java.time.Instant"@,
        Primitive::Duration => "java.time.Duration"@,
    }
}

/// The canonical name of a primitive type.
pub open spec fn primitive_canonical_text(primitive: Primitive) -> Seq<char> {
    match primitive {
        Primitive::UInt8 => "UInt8"@,
        Primitive::Int8 => "Int8"@,
        Primitive::UInt16 => "UInt16"@,
        Primitive::Int16 => "Int16"@,
        Primitive::UInt32 => "UInt32"@,
        Primitive::Int32 => "Int32"@,
        Primitive::UInt64 => "UInt64"@,
        Primitive::Int64 => "Int64"@,
        Primitive::Float32 => "Float32"@,
        Primitive::Float64 => "Float64"@,
        Primitive::Boolean => "Boolean"@,
        Primitive::String => "String"@,
        Primitive::Timestamp => "Timestamp"@,
        Primitive::Duration => "Duration"@,
    }
}

/// The label of a type: a primitive has Kotlin's own type, a declared type
/// its class name, an optional type the label of its inner type with `?`, and
/// a collection the Kotlin collection of its inner labels.
pub open spec fn type_label_text(type_: TypeView) -> Seq<char>
    decreases type_,
{
    match type_ {
        TypeView::Primitive(primitive) => primitive_label_text(primitive),
        TypeView::Record(id) => class_name_text(id),
        TypeView::Enum(id) => class_name_text(id),
        TypeView::Object(id) => class_name_text(id),
        TypeView::CallbackInterface(id) => class_name_text(id),
        TypeView::Optional(inner) => type_label_text(*inner) + "?"@,
        TypeView::Sequence(inner) => "List<"@ + type_label_text(*inner) + ">"@,
        TypeView::Mapping(key, value) => "Map<"@ + type_label_text(*key) + ", "@ + type_label_text(
            *value,
        ) + ">"@,
        TypeView::External { name, crate_name } => class_name_text(name),
    }
}

/// The canonical name of a type: the kind of the type, followed by the class
/// name of a declared type or by the canonical names of the inner types.
pub open spec fn canonical_name_text(type_: TypeView) -> Seq<char>
    decreases type_,
{
    match type_ {
        TypeView::Primitive(primitive) => primitive_canonical_text(primitive),
        TypeView::Record(id) => "Record"@ + class_name_text(id),
        TypeView::Enum(id) => "Enum"@ + class_name_text(id),
        TypeView::Object(id) => "Object"@ + class_name_text(id),
        TypeView::CallbackInterface(id) => "CallbackInterface"@ + class_name_text(id),
        TypeView::Optional(inner) => "Optional"@ + canonical_name_text(*inner),
        TypeView::Sequence(inner) => "Sequence"@ + canonical_name_text(*inner),
        TypeView::Mapping(key, value) => "Map"@ + canonical_name_text(*key) + canonical_name_text(
            *value,
        ),
        TypeView::External { name, crate_name } => "External"@ + class_name_text(name),
    }
}

/// The Kotlin type of a primitive type.
pub fn primitive_label(primitive: Primitive) -> (r: &'static str)
    ensures
        r@ == primitive_label_text(primitive),
{
    match primitive {
        Primitive::UInt8 => "UByte",
        Primitive::Int8 => "Byte",
        Primitive::UInt16 => "UShort",
        Primitive::Int16 => "Short",
        Primitive::UInt32 => "UInt",
        Primitive::Int32 => "Int",
        Primitive::UInt64 => "ULong",
        Primitive::Int64 => "Long",
        Primitive::Float32 => "Float",
        Primitive::Float64 => "Double",
        Primitive::Boolean => "Boolean",
        Primitive::String => "String",
        Primitive::Timestamp => "java.time.Instant",
        Primitive::Duration => "java.time.Duration",
    }
}

/// The canonical name of a primitive type.
pub fn primitive_canonical_name(primitive: Primitive) -> (r: &'static str)
    ensures
        r@ == primitive_canonical_text(primitive),
{
    match primitive {
        Primitive::UInt8 => "UInt8",
        Primitive::Int8 => "Int8",
        Primitive::UInt16 => "UInt16",
        Primitive::Int16 => "Int16",
        Primitive::UInt32 => "UInt32",
        Primitive::Int32 => "Int32",
        Primitive::UInt64 => "UInt64",
        Primitive::Int64 => "Int64",
        Primitive::Float32 => "Float32",
        Primitive::Float64 => "Float64",
        Primitive::Boolean => "Boolean",
        Primitive::String => "String",
        Primitive::Timestamp => "Timestamp",
        Primitive::Duration => "Duration",
    }
}

/// Renders the label of a type.
pub fn type_label(type_: &Type, oracle: &KotlinLanguageOracle) -> (r: String)
    ensures
        r@ == type_label_text(type_@),
    decreases type_,
{
    match type_ {
        Type::Primitive(primitive) => String::from_str(primitive_label(*primitive)),
        Type::Record(id) => oracle.class_name(id.as_str()),
        Type::Enum(id) => oracle.class_name(id.as_str()),
        Type::Object(id) => oracle.class_name(id.as_str()),
        Type::CallbackInterface(id) => oracle.class_name(id.as_str()),
        Type::Optional(inner) => type_label(&**inner, oracle).concat("?"),
        Type::Sequence(inner) => String::from_str("List<").concat(
            type_label(&**inner, oracle).as_str(),
        ).concat(">"),
        Type::Mapping(key, value) => String::from_str("Map<").concat(
            type_label(&**key, oracle).as_str(),
        ).concat(", ").concat(type_label(&**value, oracle).as_str()).concat(">"),
        Type::External { name, crate_name } => oracle.class_name(name.as_str()),
    }
}

/// Renders the canonical name of a type.
pub fn canonical_name(type_: &Type, oracle: &KotlinLanguageOracle) -> (r: String)
    ensures
        r@ == canonical_name_text(type_@),
    decreases type_,
{
    match type_ {
        Type::Primitive(primitive) => String::from_str(primitive_canonical_name(*primitive)),
        Type::Record(id) => String::from_str("Record").concat(oracle.class_name(id.as_str()).as_str()),
        Type::Enum(id) => String::from_str("Enum").concat(oracle.class_name(id.as_str()).as_str()),
        Type::Object(id) => String::from_str("Object").concat(oracle.class_name(id.as_str()).as_str()),
        Type::CallbackInterface(id) => String::from_str("CallbackInterface").concat(
            oracle.class_name(id.as_str()).as_str(),
        ),
        Type::Optional(inner) => String::from_str("Optional").concat(
            canonical_name(&**inner, oracle).as_str(),
        ),
        Type::Sequence(inner) => String::from_str("Sequence").concat(
            canonical_name(&**inner, oracle).as_str(),
        ),
        Type::Mapping(key, value) => String::from_str("Map").concat(
            canonical_name(&**key, oracle).as_str(),
        ).concat(canonical_name(&**value, oracle).as_str()),
        Type::External { name, crate_name } => String::from_str("External").concat(
            oracle.class_name(name.as_str()).as_str(),
        ),
    }
}

} // verus!
