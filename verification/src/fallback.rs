//! The strategy for the types that need none of their own: primitives,
//! records, optional types, collections and types of other components.
//!
//! A value of a plain type lowers, lifts, reads and writes itself through
//! methods of its Kotlin type. An optional type or a collection has no class
//! to carry such methods, so it goes through helper functions, which are
//! named after the operation and the type's canonical name.

use crate::interface::{Literal, Type, TypeView};
use crate::labels::{canonical_name, canonical_name_text, type_label, type_label_text};
use crate::literal::{literal_text, render_literal};
use crate::oracle::{var_name_text, KotlinLanguageOracle};
use crate::text::{
    apply1, apply1_text, apply2, apply2_text, call0, call0_text, call1, call1_text, concat2,
};
use vstd::prelude::*;
use vstd::string::*;

verus! {

impl TypeView {
    /// Whether the type is an optional type or a collection.
    pub open spec fn is_compound(self) -> bool {
        self is Optional || self is Sequence || self is Mapping
    }
}

impl Type {
    /// Tells whether the type is an optional type or a collection.
    pub fn is_compound(&self) -> (b: bool)
        ensures
            b == self@.is_compound(),
    {
        match self {
            Type::Optional(_) | Type::Sequence(_) | Type::Mapping(_, _) => true,
            _ => false,
        }
    }
}

/// The name of the helper function that does `operation` for a compound type.
pub open spec fn helper_name_text(operation: Seq<char>, type_: TypeView) -> Seq<char> {
    operation + canonical_name_text(type_)
}

/// The expression that lowers the value in the variable `nm`.
pub open spec fn fallback_lower_text(type_: TypeView, nm: Seq<char>) -> Seq<char> {
    if type_.is_compound() {
        apply1_text(helper_name_text("lower"@, type_), var_name_text(nm))
    } else {
        call0_text(var_name_text(nm), "lower"@)
    }
}

/// The statement that writes the value in the variable `nm` into `target`.
pub open spec fn fallback_write_text(type_: TypeView, nm: Seq<char>, target: Seq<char>) -> Seq<
    char,
> {
    if type_.is_compound() {
        apply2_text(helper_name_text("write"@, type_), var_name_text(nm), target)
    } else {
        call1_text(var_name_text(nm), "write"@, target)
    }
}

/// The expression that lifts `nm` to a value of the type.
pub open spec fn fallback_lift_text(type_: TypeView, nm: Seq<char>) -> Seq<char> {
    if type_.is_compound() {
        apply1_text(helper_name_text("lift"@, type_), nm)
    } else {
        call1_text(type_label_text(type_), "lift"@, nm)
    }
}

/// The expression that reads a value of the type from the buffer `nm`.
pub open spec fn fallback_read_text(type_: TypeView, nm: Seq<char>) -> Seq<char> {
    if type_.is_compound() {
        apply1_text(helper_name_text("read"@, type_), nm)
    } else {
        call1_text(type_label_text(type_), "read"@, nm)
    }
}

/// The strategy for a type without one of its own.
pub struct FallbackCodeType {
    type_: Type,
}

impl View for FallbackCodeType {
    type V = TypeView;

    /// The type that the strategy renders.
    closed spec fn view(&self) -> TypeView {
        self.type_@
    }
}

impl FallbackCodeType {
    pub fn new(type_: Type) -> (r: FallbackCodeType)
        ensures
            r@ == type_@,
    {
        FallbackCodeType { type_ }
    }

    /// The name of the helper function that does `operation` for the type.
    fn helper_name(&self, oracle: &KotlinLanguageOracle, operation: &str) -> (r: String)
        ensures
            r@ == helper_name_text(operation@, self@),
    {
        concat2(operation, canonical_name(&self.type_, oracle).as_str())
    }

    pub fn type_label(&self, oracle: &KotlinLanguageOracle) -> (r: String)
        ensures
            r@ == type_label_text(self@),
    {
        type_label(&self.type_, oracle)
    }

    pub fn canonical_name(&self, oracle: &KotlinLanguageOracle) -> (r: String)
        ensures
            r@ == canonical_name_text(self@),
    {
        canonical_name(&self.type_, oracle)
    }

    /// Renders a constant. The constant has to fit the type it is declared against.
    pub fn literal(&self, oracle: &KotlinLanguageOracle, literal: &Literal) -> (r: String)
        requires
            literal@.well_typed(),
        ensures
            r@ == literal_text(literal@),
    {
        render_literal(literal, oracle)
    }

    pub fn lower(&self, oracle: &KotlinLanguageOracle, nm: &str) -> (r: String)
        ensures
            r@ == fallback_lower_text(self@, nm@),
    {
        let nm = oracle.var_name(nm);
        if self.type_.is_compound() {
            apply1(self.helper_name(oracle, "lower").as_str(), nm.as_str())
        } else {
            call0(nm.as_str(), "lower")
        }
    }

    pub fn write(&self, oracle: &KotlinLanguageOracle, nm: &str, target: &str) -> (r: String)
        ensures
            r@ == fallback_write_text(self@, nm@, target@),
    {
        let nm = oracle.var_name(nm);
        if self.type_.is_compound() {
            apply2(self.helper_name(oracle, "write").as_str(), nm.as_str(), target)
        } else {
            call1(nm.as_str(), "write", target)
        }
    }

    pub fn lift(&self, oracle: &KotlinLanguageOracle, nm: &str) -> (r: String)
        ensures
            r@ == fallback_lift_text(self@, nm@),
    {
        if self.type_.is_compound() {
            apply1(self.helper_name(oracle, "lift").as_str(), nm)
        } else {
            call1(self.type_label(oracle).as_str(), "lift", nm)
        }
    }

    pub fn read(&self, oracle: &KotlinLanguageOracle, nm: &str) -> (r: String)
        ensures
            r@ == fallback_read_text(self@, nm@),
    {
        if self.type_.is_compound() {
            apply1(self.helper_name(oracle, "read").as_str(), nm)
        } else {
            call1(self.type_label(oracle).as_str(), "read", nm)
        }
    }

    /// These types bring no helper code of their own.
    pub fn helper_code(&self, oracle: &KotlinLanguageOracle) -> (r: Option<String>)
        ensures
            r is None,
    {
        None
    }

    /// These types import nothing.
    pub fn import_code(&self, oracle: &KotlinLanguageOracle) -> (r: Option<Vec<String>>)
        ensures
            r is None,
    {
        None
    }
}

} // verus!
