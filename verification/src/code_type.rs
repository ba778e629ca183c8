//! The strategy of a type: what the generator needs to render for it. There
//! is one kind of strategy for each kind of declared type that has code of its
//! own, and one for all the others.

use crate::callback_interface::{
    callback_canonical_name_text, callback_internals_text, callback_helper_code_text, callback_lift_text,
    callback_lower_text, callback_read_text, callback_type_label_text, callback_write_text,
    CallbackInterfaceCodeType,
};
use crate::enum_::{
    enum_canonical_name_text, enum_helper_code_text, enum_lift_text, enum_lower_text,
    enum_read_text, enum_type_label_text, enum_write_text, EnumCodeType,
};
use crate::fallback::{
    fallback_lift_text, fallback_lower_text, fallback_read_text, fallback_write_text,
    FallbackCodeType,
};
use crate::interface::{Literal, LiteralView, Type, TypeView};
use crate::labels::{canonical_name_text, type_label_text};
use crate::literal::{enum_literal_text, literal_text};
use crate::object::{
    object_canonical_name_text, object_helper_code_text, object_import_texts, object_lift_text,
    object_lower_text, object_read_text, object_type_label_text, object_write_text,
    ObjectCodeType,
};
use crate::oracle::{var_name_text, KotlinLanguageOracle};
use crate::text::{apply1_text, apply2_text, call0_text, call1_text, call2_text, text_views};
use vstd::prelude::*;
use vstd::string::*;

verus! {

/// The strategy of a type.
pub enum CodeType {
    Enum(EnumCodeType),
    Object(ObjectCodeType),
    CallbackInterface(CallbackInterfaceCodeType),
    Fallback(FallbackCodeType),
}

/// What a `CodeType` stands for: its kind, and the name or the type it is for.
pub enum CodeTypeView {
    Enum(Seq<char>),
    Object(Seq<char>),
    CallbackInterface(Seq<char>),
    Fallback(TypeView),
}

impl View for CodeType {
    type V = CodeTypeView;

    open spec fn view(&self) -> CodeTypeView {
        match self {
            CodeType::Enum(strategy) => CodeTypeView::Enum(strategy@),
            CodeType::Object(strategy) => CodeTypeView::Object(strategy@),
            CodeType::CallbackInterface(strategy) => CodeTypeView::CallbackInterface(strategy@),
            CodeType::Fallback(strategy) => CodeTypeView::Fallback(strategy@),
        }
    }
}

/// The one strategy of a type: an enum, an object and a callback interface
/// have their own, every other type has the fallback.
pub open spec fn strategy_for(type_: TypeView) -> CodeTypeView {
    match type_ {
        TypeView::Enum(id) => CodeTypeView::Enum(id),
        TypeView::Object(id) => CodeTypeView::Object(id),
        TypeView::CallbackInterface(id) => CodeTypeView::CallbackInterface(id),
        _ => CodeTypeView::Fallback(type_),
    }
}

impl CodeTypeView {
    /// The name of the type as users of the bindings read it.
    pub open spec fn type_label(self) -> Seq<char> {
        match self {
            CodeTypeView::Enum(id) => enum_type_label_text(id),
            CodeTypeView::Object(id) => object_type_label_text(id),
            CodeTypeView::CallbackInterface(id) => callback_type_label_text(id),
            CodeTypeView::Fallback(type_) => type_label_text(type_),
        }
    }

    /// The name of the type inside the generated code.
    pub open spec fn canonical_name(self) -> Seq<char> {
        match self {
            CodeTypeView::Enum(id) => enum_canonical_name_text(id),
            CodeTypeView::Object(id) => object_canonical_name_text(id),
            CodeTypeView::CallbackInterface(id) => callback_canonical_name_text(id),
            CodeTypeView::Fallback(type_) => canonical_name_text(type_),
        }
    }

    /// The expression that turns the Kotlin value in the variable `nm` into
    /// what crosses the boundary.
    pub open spec fn lower(self, nm: Seq<char>) -> Seq<char> {
        match self {
            CodeTypeView::Enum(id) => enum_lower_text(nm),
            CodeTypeView::Object(id) => object_lower_text(nm),
            CodeTypeView::CallbackInterface(id) => callback_lower_text(id, nm),
            CodeTypeView::Fallback(type_) => fallback_lower_text(type_, nm),
        }
    }

    /// The statement that writes the Kotlin value in the variable `nm` into
    /// the buffer `target`.
    pub open spec fn write(self, nm: Seq<char>, target: Seq<char>) -> Seq<char> {
        match self {
            CodeTypeView::Enum(id) => enum_write_text(nm, target),
            CodeTypeView::Object(id) => object_write_text(nm, target),
            CodeTypeView::CallbackInterface(id) => callback_write_text(id, nm, target),
            CodeTypeView::Fallback(type_) => fallback_write_text(type_, nm, target),
        }
    }

    /// The expression that turns `nm`, which crossed the boundary, into a
    /// Kotlin value.
    pub open spec fn lift(self, nm: Seq<char>) -> Seq<char> {
        match self {
            CodeTypeView::Enum(id) => enum_lift_text(id, nm),
            CodeTypeView::Object(id) => object_lift_text(id, nm),
            CodeTypeView::CallbackInterface(id) => callback_lift_text(id, nm),
            CodeTypeView::Fallback(type_) => fallback_lift_text(type_, nm),
        }
    }

    /// The expression that reads a Kotlin value from the buffer `nm`.
    pub open spec fn read(self, nm: Seq<char>) -> Seq<char> {
        match self {
            CodeTypeView::Enum(id) => enum_read_text(id, nm),
            CodeTypeView::Object(id) => object_read_text(id, nm),
            CodeTypeView::CallbackInterface(id) => callback_read_text(id, nm),
            CodeTypeView::Fallback(type_) => fallback_read_text(type_, nm),
        }
    }

    /// Whether the strategy can render the constant: an enum renders its
    /// variants, the fallback renders a constant that fits its declared type,
    /// and an object or a callback interface has no constants.
    pub open spec fn has_literal(self, literal: LiteralView) -> bool {
        match self {
            CodeTypeView::Enum(id) => literal is Enum,
            CodeTypeView::Object(id) => false,
            CodeTypeView::CallbackInterface(id) => false,
            CodeTypeView::Fallback(type_) => literal.well_typed(),
        }
    }

    /// The constant in Kotlin syntax, where the strategy can render it.
    pub open spec fn literal(self, literal: LiteralView) -> Seq<char>
        recommends
            self.has_literal(literal),
    {
        match self {
            CodeTypeView::Enum(id) => enum_literal_text(
                enum_type_label_text(id),
                literal->Enum_0,
            ),
            _ => literal_text(literal),
        }
    }

    /// The text that stands for the type's supporting declarations, if it has any.
    pub open spec fn helper_code(self) -> Option<Seq<char>> {
        match self {
            CodeTypeView::Enum(id) => Some(enum_helper_code_text(id)),
            CodeTypeView::Object(id) => Some(object_helper_code_text(id)),
            CodeTypeView::CallbackInterface(id) => Some(callback_helper_code_text(id)),
            CodeTypeView::Fallback(type_) => None,
        }
    }

    /// What a reference to the type imports, if anything.
    pub open spec fn import_code(self) -> Option<Seq<Seq<char>>> {
        match self {
            CodeTypeView::Object(id) => Some(object_import_texts()),
            _ => None,
        }
    }
}

/// The view of an optional text.
pub open spec fn optional_code(code: Option<String>) -> Option<Seq<char>> {
    match code {
        Some(text) => Some(text@),
        None => None,
    }
}

/// The view of an optional list of texts.
pub open spec fn optional_imports(imports: Option<Vec<String>>) -> Option<Seq<Seq<char>>> {
    match imports {
        Some(list) => Some(text_views(list@)),
        None => None,
    }
}

impl CodeType {
    pub fn type_label(&self, oracle: &KotlinLanguageOracle) -> (r: String)
        ensures
            r@ == self@.type_label(),
    {
        match self {
            CodeType::Enum(strategy) => strategy.type_label(oracle),
            CodeType::Object(strategy) => strategy.type_label(oracle),
            CodeType::CallbackInterface(strategy) => strategy.type_label(oracle),
            CodeType::Fallback(strategy) => strategy.type_label(oracle),
        }
    }

    pub fn canonical_name(&self, oracle: &KotlinLanguageOracle) -> (r: String)
        ensures
            r@ == self@.canonical_name(),
    {
        match self {
            CodeType::Enum(strategy) => strategy.canonical_name(oracle),
            CodeType::Object(strategy) => strategy.canonical_name(oracle),
            CodeType::CallbackInterface(strategy) => strategy.canonical_name(oracle),
            CodeType::Fallback(strategy) => strategy.canonical_name(oracle),
        }
    }

    /// Renders a constant. To ask for a constant of a type that has none is a
    /// defect of the caller: `can_render` tells beforehand.
    pub fn literal(&self, oracle: &KotlinLanguageOracle, literal: &Literal) -> (r: String)
        requires
            self@.has_literal(literal@),
        ensures
            r@ == self@.literal(literal@),
    {
        match self {
            CodeType::Enum(strategy) => strategy.literal(oracle, literal),
            CodeType::Fallback(strategy) => strategy.literal(oracle, literal),
            _ => unreached(),
        }
    }

    /// Tells whether the strategy can render the constant.
    pub fn can_render(&self, literal: &Literal) -> (b: bool)
        ensures
            b == self@.has_literal(literal@),
    {
        match self {
            CodeType::Enum(_) => match literal {
                Literal::Enum(_, _) => true,
                _ => false,
            },
            CodeType::Fallback(_) => literal.is_well_typed(),
            _ => false,
        }
    }

    pub fn lower(&self, oracle: &KotlinLanguageOracle, nm: &str) -> (r: String)
        ensures
            r@ == self@.lower(nm@),
    {
        match self {
            CodeType::Enum(strategy) => strategy.lower(oracle, nm),
            CodeType::Object(strategy) => strategy.lower(oracle, nm),
            CodeType::CallbackInterface(strategy) => strategy.lower(oracle, nm),
            CodeType::Fallback(strategy) => strategy.lower(oracle, nm),
        }
    }

    pub fn write(&self, oracle: &KotlinLanguageOracle, nm: &str, target: &str) -> (r: String)
        ensures
            r@ == self@.write(nm@, target@),
    {
        match self {
            CodeType::Enum(strategy) => strategy.write(oracle, nm, target),
            CodeType::Object(strategy) => strategy.write(oracle, nm, target),
            CodeType::CallbackInterface(strategy) => strategy.write(oracle, nm, target),
            CodeType::Fallback(strategy) => strategy.write(oracle, nm, target),
        }
    }

    pub fn lift(&self, oracle: &KotlinLanguageOracle, nm: &str) -> (r: String)
        ensures
            r@ == self@.lift(nm@),
    {
        match self {
            CodeType::Enum(strategy) => strategy.lift(oracle, nm),
            CodeType::Object(strategy) => strategy.lift(oracle, nm),
            CodeType::CallbackInterface(strategy) => strategy.lift(oracle, nm),
            CodeType::Fallback(strategy) => strategy.lift(oracle, nm),
        }
    }

    pub fn read(&self, oracle: &KotlinLanguageOracle, nm: &str) -> (r: String)
        ensures
            r@ == self@.read(nm@),
    {
        match self {
            CodeType::Enum(strategy) => strategy.read(oracle, nm),
            CodeType::Object(strategy) => strategy.read(oracle, nm),
            CodeType::CallbackInterface(strategy) => strategy.read(oracle, nm),
            CodeType::Fallback(strategy) => strategy.read(oracle, nm),
        }
    }

    pub fn helper_code(&self, oracle: &KotlinLanguageOracle) -> (r: Option<String>)
        ensures
            optional_code(r) == self@.helper_code(),
    {
        match self {
            CodeType::Enum(strategy) => strategy.helper_code(oracle),
            CodeType::Object(strategy) => strategy.helper_code(oracle),
            CodeType::CallbackInterface(strategy) => strategy.helper_code(oracle),
            CodeType::Fallback(strategy) => strategy.helper_code(oracle),
        }
    }

    pub fn import_code(&self, oracle: &KotlinLanguageOracle) -> (r: Option<Vec<String>>)
        ensures
            optional_imports(r) == self@.import_code(),
    {
        match self {
            CodeType::Enum(strategy) => strategy.import_code(oracle),
            CodeType::Object(strategy) => strategy.import_code(oracle),
            CodeType::CallbackInterface(strategy) => strategy.import_code(oracle),
            CodeType::Fallback(strategy) => strategy.import_code(oracle),
        }
    }
}

/// Whichever strategy a type has, its two names are the ones that the type
/// has inside an optional type or a collection.
pub proof fn lemma_strategy_names_agree(type_: TypeView)
    ensures
        strategy_for(type_).type_label() == type_label_text(type_),
        strategy_for(type_).canonical_name() == canonical_name_text(type_),
{
}

/// The four operations of a type address the same thing. A callback
/// interface goes through the object that holds its table, in all four. An
/// optional type or a collection goes through four helper functions that
/// carry its canonical name. Every other type lowers and writes the value
/// itself, and lifts and reads through the class that its label names.
pub proof fn lemma_operations_address_one_type(
    type_: TypeView,
    nm: Seq<char>,
    target: Seq<char>,
)
    ensures
        type_ matches TypeView::CallbackInterface(id) ==> {
            let table = callback_internals_text(id);
            let label = type_label_text(type_);
            &&& strategy_for(type_).lower(nm) == call1_text(table, "lower"@, var_name_text(nm))
            &&& strategy_for(type_).write(nm, target) == call2_text(
                table,
                "write"@,
                var_name_text(nm),
                target,
            )
            &&& strategy_for(type_).lift(nm) == call2_text(table, "lift"@, label, nm)
            &&& strategy_for(type_).read(nm) == call2_text(table, "read"@, label, nm)
        },
        type_.is_compound() ==> {
            let name = canonical_name_text(type_);
            &&& strategy_for(type_).lower(nm) == apply1_text("lower"@ + name, var_name_text(nm))
            &&& strategy_for(type_).write(nm, target) == apply2_text(
                "write"@ + name,
                var_name_text(nm),
                target,
            )
            &&& strategy_for(type_).lift(nm) == apply1_text("lift"@ + name, nm)
            &&& strategy_for(type_).read(nm) == apply1_text("read"@ + name, nm)
        },
        !(type_ is CallbackInterface) && !type_.is_compound() ==> {
            let label = type_label_text(type_);
            &&& strategy_for(type_).lower(nm) == call0_text(var_name_text(nm), "lower"@)
            &&& strategy_for(type_).write(nm, target) == call1_text(
                var_name_text(nm),
                "write"@,
                target,
            )
            &&& strategy_for(type_).lift(nm) == call1_text(label, "lift"@, nm)
            &&& strategy_for(type_).read(nm) == call1_text(label, "read"@, nm)
        },
{
}

/// A constant that fits the type it is declared against can be rendered by
/// the strategy of that type, and is rendered as `literal_text` says.
pub proof fn lemma_typed_literal_has_strategy(literal: LiteralView, type_: TypeView)
    requires
        literal.well_typed(),
        literal.declared_type() == Some(type_),
    ensures
        strategy_for(type_).has_literal(literal),
        strategy_for(type_).literal(literal) == literal_text(literal),
{
}

/// Two identifiers that are equal as types have the same strategy, and so
/// every text rendered for one is the text rendered for the other.
pub proof fn lemma_equal_identifiers_render_alike(
    first: Type,
    second: Type,
    nm: Seq<char>,
    target: Seq<char>,
)
    requires
        first@ == second@,
    ensures
        strategy_for(first@) == strategy_for(second@),
        strategy_for(first@).type_label() == strategy_for(second@).type_label(),
        strategy_for(first@).canonical_name() == strategy_for(second@).canonical_name(),
        strategy_for(first@).lower(nm) == strategy_for(second@).lower(nm),
        strategy_for(first@).write(nm, target) == strategy_for(second@).write(nm, target),
        strategy_for(first@).lift(nm) == strategy_for(second@).lift(nm),
        strategy_for(first@).read(nm) == strategy_for(second@).read(nm),
        strategy_for(first@).helper_code() == strategy_for(second@).helper_code(),
        strategy_for(first@).import_code() == strategy_for(second@).import_code(),
{
}

} // verus!
