//! Constants in Kotlin syntax.

use crate::interface::{Literal, LiteralView, Primitive, Radix, Type, TypeView};
use crate::labels::{type_label, type_label_text};
use crate::oracle::{enum_variant_text, KotlinLanguageOracle};
use crate::text::{
    concat3, decimal_text, hex_text, render_signed_decimal, render_signed_hex,
    render_unsigned_decimal, render_unsigned_hex, signed_decimal_text, twos_complement_64,
};
use vstd::prelude::*;
use vstd::string::*;

verus! {

/// What follows the digits of a number of the given type. Kotlin infers
/// `Byte`, `Short` and `Int` from the context; the other types are marked.
pub open spec fn number_suffix_text(primitive: Primitive) -> Seq<char> {
    match primitive {
        Primitive::Int64 => "L"@,
        Primitive::UInt8 | Primitive::UInt16 | Primitive::UInt32 => "u"@,
        Primitive::UInt64 => "uL"@,
        Primitive::Float32 => "f"@,
        _ => Seq::empty(),
    }
}

/// A number of the given type: its digits, then the type's suffix.
pub open spec fn typed_number_text(type_: TypeView, number: Seq<char>) -> Seq<char> {
    match type_ {
        TypeView::Primitive(primitive) => number + number_suffix_text(primitive),
        _ => number,
    }
}

/// The digits of an unsigned integer. Kotlin has no octal literals, so what
/// was written in octal is rendered in hexadecimal.
pub open spec fn unsigned_number_text(value: u64, radix: Radix) -> Seq<char> {
    match radix {
        Radix::Decimal => decimal_text(value as nat),
        _ => hex_text(value as nat),
    }
}

/// The digits of a signed integer. In hexadecimal a negative number is
/// rendered as its 64-bit pattern in two's complement.
pub open spec fn signed_number_text(value: i64, radix: Radix) -> Seq<char> {
    match radix {
        Radix::Decimal => signed_decimal_text(value as int),
        _ => hex_text(twos_complement_64(value as int)),
    }
}

/// A variant of an enum: the enum's label, a dot, and the variant's name.
pub open spec fn enum_literal_text(label: Seq<char>, variant: Seq<char>) -> Seq<char> {
    label + "."@ + enum_variant_text(variant)
}

/// A constant in Kotlin syntax. A string is put between double quotes as it is.
pub open spec fn literal_text(literal: LiteralView) -> Seq<char> {
    match literal {
        LiteralView::Boolean(b) => if b {
            "true"@
        } else {
            "false"@
        },
        LiteralView::String(text) => "\""@ + text + "\""@,
        LiteralView::UInt(value, radix, type_) => typed_number_text(
            type_,
            unsigned_number_text(value, radix),
        ),
        LiteralView::Int(value, radix, type_) => typed_number_text(
            type_,
            signed_number_text(value, radix),
        ),
        LiteralView::Float(text, type_) => typed_number_text(type_, text),
        LiteralView::Enum(variant, type_) => enum_literal_text(type_label_text(type_), variant),
        LiteralView::EmptySequence => "listOf()"@,
        LiteralView::EmptyMap => "mapOf()"@,
        LiteralView::Null => "null"@,
    }
}

/// Appends the suffix of the given type to the digits of a number. The type
/// has to be one that a number can have.
pub fn typed_number(type_: &Type, number: String) -> (r: String)
    requires
        type_@.is_numeric(),
    ensures
        r@ == typed_number_text(type_@, number@),
{
    match type_ {
        Type::Primitive(primitive) => match primitive {
            Primitive::Int64 => number.concat("L"),
            Primitive::UInt8 | Primitive::UInt16 | Primitive::UInt32 => number.concat("u"),
            Primitive::UInt64 => number.concat("uL"),
            Primitive::Float32 => number.concat("f"),
            _ => {
                assert(number@ + Seq::<char>::empty() =~= number@);
                number
            },
        },
        _ => number,
    }
}

/// Renders the digits of an unsigned integer.
pub fn unsigned_number(value: u64, radix: Radix) -> (r: String)
    ensures
        r@ == unsigned_number_text(value, radix),
{
    match radix {
        Radix::Decimal => render_unsigned_decimal(value),
        _ => render_unsigned_hex(value),
    }
}

/// Renders the digits of a signed integer.
pub fn signed_number(value: i64, radix: Radix) -> (r: String)
    ensures
        r@ == signed_number_text(value, radix),
{
    match radix {
        Radix::Decimal => render_signed_decimal(value),
        _ => render_signed_hex(value),
    }
}

/// Renders a variant of an enum, given the enum's label.
pub fn enum_literal(label: &str, variant: &str, oracle: &KotlinLanguageOracle) -> (r: String)
    ensures
        r@ == enum_literal_text(label@, variant@),
{
    concat3(label, ".", oracle.enum_variant(variant).as_str())
}

/// Renders a constant in Kotlin syntax. The constant has to fit the type it
/// is declared against: `Literal::is_well_typed` tells whether it does.
pub fn render_literal(literal: &Literal, oracle: &KotlinLanguageOracle) -> (r: String)
    requires
        literal@.well_typed(),
    ensures
        r@ == literal_text(literal@),
{
    match literal {
        Literal::Boolean(b) => if *b {
            String::from_str("true")
        } else {
            String::from_str("false")
        },
        Literal::String(text) => concat3("\"", text.as_str(), "\""),
        Literal::UInt(value, radix, type_) => typed_number(type_, unsigned_number(*value, *radix)),
        Literal::Int(value, radix, type_) => typed_number(type_, signed_number(*value, *radix)),
        Literal::Float(text, type_) => typed_number(type_, text.clone()),
        Literal::Enum(variant, type_) => enum_literal(
            type_label(type_, oracle).as_str(),
            variant.as_str(),
            oracle,
        ),
        Literal::EmptySequence => String::from_str("listOf()"),
        Literal::EmptyMap => String::from_str("mapOf()"),
        Literal::Null => String::from_str("null"),
    }
}

} // verus!
