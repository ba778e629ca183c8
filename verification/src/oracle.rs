//! The oracle: what the generator knows about Kotlin as a target. It names
//! identifiers in Kotlin's conventions, maps the scalars that cross the
//! boundary to Kotlin's scalar types, reports the concurrency primitives that
//! generated code relies on, and finds the strategy for a type.

use crate::callback_interface::CallbackInterfaceCodeType;
use crate::code_type::{strategy_for, CodeType};
use crate::enum_::EnumCodeType;
use crate::fallback::FallbackCodeType;
use crate::interface::{FFIType, Type};
use crate::object::ObjectCodeType;
use crate::naming::{
    camel_case, exception_name, exception_name_text, mixed_case, shouty_snake_case, to_camel_case,
    to_mixed_case, to_shouty_snake_case,
};
use vstd::prelude::*;
use vstd::string::*;

verus! {

/// The name of a class (an enum, a record, an object, a failure type) in Kotlin.
pub open spec fn class_name_text(name: Seq<char>) -> Seq<char> {
    camel_case(name)
}

/// The name of a function in Kotlin.
pub open spec fn fn_name_text(name: Seq<char>) -> Seq<char> {
    mixed_case(name)
}

/// The name of a variable in Kotlin.
pub open spec fn var_name_text(name: Seq<char>) -> Seq<char> {
    mixed_case(name)
}

/// The name of an enum's variant in Kotlin.
pub open spec fn enum_variant_text(name: Seq<char>) -> Seq<char> {
    shouty_snake_case(name)
}

/// The Kotlin type for a scalar that crosses the boundary. `java.nio.ByteBuffer`
/// has no unsigned accessors, so an unsigned integer crosses as the signed type
/// of its width, and the caller reads the bits anew.
pub open spec fn ffi_type_label_text(ffi_type: FFIType) -> Seq<char> {
    match ffi_type {
        FFIType::Int8 | FFIType::UInt8 => "Byte"@,
        FFIType::Int16 | FFIType::UInt16 => "Short"@,
        FFIType::Int32 | FFIType::UInt32 => "Int"@,
        FFIType::Int64 | FFIType::UInt64 => "Long"@,
        FFIType::Float32 => "Float"@,
        FFIType::Float64 => "Double"@,
        FFIType::RustArcPtr => "Pointer"@,
        FFIType::RustBuffer => "RustBuffer.ByValue"@,
        FFIType::ForeignBytes => "ForeignBytes.ByValue"@,
        FFIType::ForeignCallback => "ForeignCallback"@,
    }
}

/// The signed scalar of the same width as an integer scalar; any other scalar
/// is returned as it is.
pub open spec fn signed_counterpart(ffi_type: FFIType) -> FFIType {
    match ffi_type {
        FFIType::UInt8 => FFIType::Int8,
        FFIType::UInt16 => FFIType::Int16,
        FFIType::UInt32 => FFIType::Int32,
        FFIType::UInt64 => FFIType::Int64,
        other => other,
    }
}

/// An unsigned scalar has the label of the signed scalar of its width.
pub proof fn lemma_unsigned_label_is_signed_label(ffi_type: FFIType)
    ensures
        ffi_type_label_text(ffi_type) == ffi_type_label_text(signed_counterpart(ffi_type)),
{
}

/// Whether a name is already in the convention for classes: naming a class
/// after it gives the name itself.
pub open spec fn is_class_name(name: Seq<char>) -> bool {
    class_name_text(name) == name
}

/// Whether a name is already in the convention for functions.
pub open spec fn is_fn_name(name: Seq<char>) -> bool {
    fn_name_text(name) == name
}

/// Whether a name is already in the convention for variables.
pub open spec fn is_var_name(name: Seq<char>) -> bool {
    var_name_text(name) == name
}

/// Whether a name is already in the convention for enum variants.
pub open spec fn is_enum_variant_name(name: Seq<char>) -> bool {
    enum_variant_text(name) == name
}

/// A name that is already in the convention it is converted to stays as it
/// is, however often the conversion is applied.
pub proof fn lemma_conventional_names_are_kept(name: Seq<char>)
    ensures
        is_class_name(name) ==> class_name_text(class_name_text(name)) == name,
        is_fn_name(name) ==> fn_name_text(fn_name_text(name)) == name,
        is_var_name(name) ==> var_name_text(var_name_text(name)) == name,
        is_enum_variant_name(name) ==> enum_variant_text(enum_variant_text(name)) == name,
{
}

/// The class of the counter that a generated object handle keeps of its calls in flight.
pub open spec fn atomic_counter_class() -> Seq<char> {
    "java.util.concurrent.atomic.AtomicLong"@
}

/// The class of the flag that a generated object handle sets, in one
/// indivisible step, when it is destroyed.
pub open spec fn atomic_flag_class() -> Seq<char> {
    "java.util.concurrent.atomic.AtomicBoolean"@
}

/// The class of the lock that guards a generated table of callbacks.
pub open spec fn lock_class() -> Seq<char> {
    "java.util.concurrent.locks.ReentrantLock"@
}

/// The function that runs a block while holding such a lock.
pub open spec fn lock_scope_function() -> Seq<char> {
    "kotlin.concurrent.withLock"@
}

/// The oracle for Kotlin. It holds no state.
#[derive(Clone, Copy, Debug)]
pub struct KotlinLanguageOracle;

impl Default for KotlinLanguageOracle {
    fn default() -> (r: KotlinLanguageOracle)
        ensures
            r == KotlinLanguageOracle,
    {
        KotlinLanguageOracle
    }
}

impl KotlinLanguageOracle {
    /// Makes the strategy of a type.
    pub fn create_code_type(&self, type_: Type) -> (r: CodeType)
        ensures
            r@ == strategy_for(type_@),
    {
        match type_ {
            Type::Enum(id) => CodeType::Enum(EnumCodeType::new(id)),
            Type::Object(id) => CodeType::Object(ObjectCodeType::new(id)),
            Type::CallbackInterface(id) => CodeType::CallbackInterface(
                CallbackInterfaceCodeType::new(id),
            ),
            other => CodeType::Fallback(FallbackCodeType::new(other)),
        }
    }

    /// Finds the strategy of a type. Every type has one, and the same type
    /// always has the same.
    pub fn find(&self, type_: &Type) -> (r: CodeType)
        ensures
            r@ == strategy_for(type_@),
    {
        self.create_code_type(type_.clone())
    }

    /// The idiomatic Kotlin rendering of a class name.
    pub fn class_name(&self, nm: &str) -> (r: String)
        ensures
            r@ == class_name_text(nm@),
    {
        to_camel_case(nm)
    }

    /// The idiomatic Kotlin rendering of a function name.
    pub fn fn_name(&self, nm: &str) -> (r: String)
        ensures
            r@ == fn_name_text(nm@),
    {
        to_mixed_case(nm)
    }

    /// The idiomatic Kotlin rendering of a variable name.
    pub fn var_name(&self, nm: &str) -> (r: String)
        ensures
            r@ == var_name_text(nm@),
    {
        to_mixed_case(nm)
    }

    /// The idiomatic Kotlin rendering of an enum variant's name.
    pub fn enum_variant(&self, nm: &str) -> (r: String)
        ensures
            r@ == enum_variant_text(nm@),
    {
        to_shouty_snake_case(nm)
    }

    /// The idiomatic Kotlin rendering of a failure type's name: a trailing
    /// `Error` is replaced by `Exception`.
    pub fn exception_name(&self, nm: &str) -> (r: String)
        ensures
            r@ == exception_name_text(nm@),
    {
        exception_name(nm)
    }

    /// The Kotlin type for a scalar that crosses the boundary.
    pub fn ffi_type_label(&self, ffi_type: &FFIType) -> (r: String)
        ensures
            r@ == ffi_type_label_text(*ffi_type),
    {
        match ffi_type {
            FFIType::Int8 | FFIType::UInt8 => String::from_str("Byte"),
            FFIType::Int16 | FFIType::UInt16 => String::from_str("Short"),
            FFIType::Int32 | FFIType::UInt32 => String::from_str("Int"),
            FFIType::Int64 | FFIType::UInt64 => String::from_str("Long"),
            FFIType::Float32 => String::from_str("Float"),
            FFIType::Float64 => String::from_str("Double"),
            FFIType::RustArcPtr => String::from_str("Pointer"),
            FFIType::RustBuffer => String::from_str("RustBuffer.ByValue"),
            FFIType::ForeignBytes => String::from_str("ForeignBytes.ByValue"),
            FFIType::ForeignCallback => String::from_str("ForeignCallback"),
        }
    }

    /// The class of an atomic counter.
    pub fn atomic_counter_class(&self) -> (r: String)
        ensures
            r@ == atomic_counter_class(),
    {
        String::from_str("java.util.concurrent.atomic.AtomicLong")
    }

    /// The class of an atomic flag.
    pub fn atomic_flag_class(&self) -> (r: String)
        ensures
            r@ == atomic_flag_class(),
    {
        String::from_str("java.util.concurrent.atomic.AtomicBoolean")
    }

    /// The class of a lock that one thread can take more than once.
    pub fn lock_class(&self) -> (r: String)
        ensures
            r@ == lock_class(),
    {
        String::from_str("java.util.concurrent.locks.ReentrantLock")
    }

    /// The function that runs a block while holding a lock.
    pub fn lock_scope_function(&self) -> (r: String)
        ensures
            r@ == lock_scope_function(),
    {
        String::from_str("kotlin.concurrent.withLock")
    }
}

} // verus!
