//! Enums: a declared enum becomes a Kotlin enum class, and its variants are
//! named in Kotlin's convention for constants.

use crate::interface::{Literal, LiteralView};
use crate::literal::{enum_literal, enum_literal_text};
use crate::oracle::{class_name_text, var_name_text, KotlinLanguageOracle};
use crate::text::{call0, call0_text, call1, call1_text, concat3};
use vstd::prelude::*;
use vstd::string::*;

verus! {

/// The label of the enum named `id`.
pub open spec fn enum_type_label_text(id: Seq<char>) -> Seq<char> {
    class_name_text(id)
}

/// The canonical name of the enum named `id`.
pub open spec fn enum_canonical_name_text(id: Seq<char>) -> Seq<char> {
    "Enum"@ + enum_type_label_text(id)
}

/// The expression that lowers the enum value in the variable `nm`.
pub open spec fn enum_lower_text(nm: Seq<char>) -> Seq<char> {
    call0_text(var_name_text(nm), "lower"@)
}

/// The statement that writes the enum value in the variable `nm` into `target`.
pub open spec fn enum_write_text(nm: Seq<char>, target: Seq<char>) -> Seq<char> {
    call1_text(var_name_text(nm), "write"@, target)
}

/// The expression that lifts `nm` to a value of the enum named `id`.
pub open spec fn enum_lift_text(id: Seq<char>, nm: Seq<char>) -> Seq<char> {
    call1_text(enum_type_label_text(id), "lift"@, nm)
}

/// The expression that reads a value of the enum named `id` from the buffer `nm`.
pub open spec fn enum_read_text(id: Seq<char>, nm: Seq<char>) -> Seq<char> {
    call1_text(enum_type_label_text(id), "read"@, nm)
}

/// The note that stands where the helper code of the enum named `id` would.
pub open spec fn enum_helper_code_text(id: Seq<char>) -> Seq<char> {
    "// Helper code for "@ + enum_type_label_text(id) + " enum is found in EnumTemplate.kt"@
}

/// The strategy for a declared enum.
pub struct EnumCodeType {
    id: String,
}

impl View for EnumCodeType {
    type V = Seq<char>;

    /// The enum's name, as declared.
    closed spec fn view(&self) -> Seq<char> {
        self.id@
    }
}

impl EnumCodeType {
    pub fn new(id: String) -> (r: EnumCodeType)
        ensures
            r@ == id@,
    {
        EnumCodeType { id }
    }

    pub fn type_label(&self, oracle: &KotlinLanguageOracle) -> (r: String)
        ensures
            r@ == enum_type_label_text(self@),
    {
        oracle.class_name(self.id.as_str())
    }

    pub fn canonical_name(&self, oracle: &KotlinLanguageOracle) -> (r: String)
        ensures
            r@ == enum_canonical_name_text(self@),
    {
        String::from_str("Enum").concat(self.type_label(oracle).as_str())
    }

    /// Renders one of the enum's variants. Only a variant is a constant of an
    /// enum, so the literal has to be one.
    pub fn literal(&self, oracle: &KotlinLanguageOracle, literal: &Literal) -> (r: String)
        requires
            literal@ is Enum,
        ensures
            literal@ matches LiteralView::Enum(variant, _) && r@ == enum_literal_text(
                enum_type_label_text(self@),
                variant,
            ),
    {
        match literal {
            Literal::Enum(variant, _) => enum_literal(
                self.type_label(oracle).as_str(),
                variant.as_str(),
                oracle,
            ),
            _ => unreached(),
        }
    }

    pub fn lower(&self, oracle: &KotlinLanguageOracle, nm: &str) -> (r: String)
        ensures
            r@ == enum_lower_text(nm@),
    {
        call0(oracle.var_name(nm).as_str(), "lower")
    }

    pub fn write(&self, oracle: &KotlinLanguageOracle, nm: &str, target: &str) -> (r: String)
        ensures
            r@ == enum_write_text(nm@, target@),
    {
        call1(oracle.var_name(nm).as_str(), "write", target)
    }

    pub fn lift(&self, oracle: &KotlinLanguageOracle, nm: &str) -> (r: String)
        ensures
            r@ == enum_lift_text(self@, nm@),
    {
        call1(self.type_label(oracle).as_str(), "lift", nm)
    }

    pub fn read(&self, oracle: &KotlinLanguageOracle, nm: &str) -> (r: String)
        ensures
            r@ == enum_read_text(self@, nm@),
    {
        call1(self.type_label(oracle).as_str(), "read", nm)
    }

    pub fn helper_code(&self, oracle: &KotlinLanguageOracle) -> (r: Option<String>)
        ensures
            r matches Some(code) && code@ == enum_helper_code_text(self@),
    {
        Some(
            concat3(
                "// Helper code for ",
                self.type_label(oracle).as_str(),
                " enum is found in EnumTemplate.kt",
            ),
        )
    }

    /// A reference to an enum imports nothing.
    pub fn import_code(&self, oracle: &KotlinLanguageOracle) -> (r: Option<Vec<String>>)
        ensures
            r is None,
    {
        None
    }
}

} // verus!
