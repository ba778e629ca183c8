//! The functions that a template calls while it is expanded. Each one finds
//! the strategy of a type and asks it for one text; none decides anything
//! itself.

use crate::code_type::{
    lemma_strategy_names_agree, lemma_typed_literal_has_strategy, optional_code, strategy_for,
};
use crate::interface::{FFIType, Literal, Type};
use crate::labels::type_label_text;
use crate::literal::{literal_text, render_literal};
use crate::naming::exception_name_text;
use crate::oracle::{
    class_name_text, enum_variant_text, ffi_type_label_text, fn_name_text, var_name_text,
    KotlinLanguageOracle,
};
use vstd::prelude::*;
use vstd::string::*;

verus! {

/// The oracle that the filters consult.
pub fn oracle() -> (r: KotlinLanguageOracle)
    ensures
        r == KotlinLanguageOracle,
{
    KotlinLanguageOracle
}

/// The text that stands for the supporting declarations of a type, if it has any.
pub fn definition_code(type_: &Type) -> (r: Option<String>)
    ensures
        optional_code(r) == strategy_for(type_@).helper_code(),
{
    let oracle = oracle();
    oracle.find(type_).helper_code(&oracle)
}

/// The Kotlin type for a type of the interface.
pub fn type_kt(type_: &Type) -> (r: String)
    ensures
        r@ == type_label_text(type_@),
{
    proof {
        lemma_strategy_names_agree(type_@);
    }
    let oracle = oracle();
    oracle.find(type_).type_label(&oracle)
}

/// The expression that lowers the value in the variable `nm`.
pub fn lower_kt(nm: &str, type_: &Type) -> (r: String)
    ensures
        r@ == strategy_for(type_@).lower(nm@),
{
    let oracle = oracle();
    oracle.find(type_).lower(&oracle, nm)
}

/// The statement that writes the value in the variable `nm` into the buffer `target`.
pub fn write_kt(nm: &str, target: &str, type_: &Type) -> (r: String)
    ensures
        r@ == strategy_for(type_@).write(nm@, target@),
{
    let oracle = oracle();
    oracle.find(type_).write(&oracle, nm, target)
}

/// The expression that lifts `nm` to a value of the type.
pub fn lift_kt(nm: &str, type_: &Type) -> (r: String)
    ensures
        r@ == strategy_for(type_@).lift(nm@),
{
    let oracle = oracle();
    oracle.find(type_).lift(&oracle, nm)
}

/// A constant in Kotlin syntax. A constant that carries a type is rendered by
/// the strategy of that type, so it has to fit the type:
/// `Literal::is_well_typed` tells whether it does.
pub fn literal_kt(literal: &Literal) -> (r: String)
    requires
        literal@.well_typed(),
    ensures
        r@ == literal_text(literal@),
{
    let oracle = oracle();
    match literal.declared_type() {
        Some(type_) => {
            proof {
                lemma_typed_literal_has_strategy(literal@, type_@);
            }
            oracle.find(type_).literal(&oracle, literal)
        },
        None => render_literal(literal, &oracle),
    }
}

/// The expression that reads a value of the type from the buffer `nm`.
pub fn read_kt(nm: &str, type_: &Type) -> (r: String)
    ensures
        r@ == strategy_for(type_@).read(nm@),
{
    let oracle = oracle();
    oracle.find(type_).read(&oracle, nm)
}

/// The Kotlin type for a scalar that crosses the boundary.
pub fn type_ffi(type_: &FFIType) -> (r: String)
    ensures
        r@ == ffi_type_label_text(*type_),
{
    oracle().ffi_type_label(type_)
}

/// The idiomatic Kotlin rendering of a class name.
pub fn class_name_kt(nm: &str) -> (r: String)
    ensures
        r@ == class_name_text(nm@),
{
    oracle().class_name(nm)
}

/// The idiomatic Kotlin rendering of a function name.
pub fn fn_name_kt(nm: &str) -> (r: String)
    ensures
        r@ == fn_name_text(nm@),
{
    oracle().fn_name(nm)
}

/// The idiomatic Kotlin rendering of a variable name.
pub fn var_name_kt(nm: &str) -> (r: String)
    ensures
        r@ == var_name_text(nm@),
{
    oracle().var_name(nm)
}

/// The idiomatic Kotlin rendering of an enum variant's name.
pub fn enum_variant_kt(nm: &str) -> (r: String)
    ensures
        r@ == enum_variant_text(nm@),
{
    oracle().enum_variant(nm)
}

/// The idiomatic Kotlin rendering of a failure type's name.
pub fn exception_name_kt(nm: &str) -> (r: String)
    ensures
        r@ == exception_name_text(nm@),
{
    oracle().exception_name(nm)
}

} // verus!
