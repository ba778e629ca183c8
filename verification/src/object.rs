//! Objects: handles to resources that the native side owns. An object crosses
//! the boundary as a raw pointer; on the Kotlin side a handle class wraps it.
//! The handle destroys the native resource once, however many times and from
//! whichever threads its disposal is asked for: it sets an atomic flag and
//! only the caller that set it makes the native call. The classes it needs
//! for that are what a reference to an object imports.

use crate::imports::{append_texts, collect_imports, referenced_imports};
use crate::interface::{DeclarationView, Object, Type, TypeView};
use crate::oracle::{
    atomic_counter_class, atomic_flag_class, class_name_text, var_name_text, KotlinLanguageOracle,
};
use crate::text::{call0, call0_text, call1, call1_text, concat3, pair_of, text_views};
use vstd::prelude::*;
use vstd::string::*;

verus! {

/// The label of the object named `id`.
pub open spec fn object_type_label_text(id: Seq<char>) -> Seq<char> {
    class_name_text(id)
}

/// The canonical name of the object named `id`.
pub open spec fn object_canonical_name_text(id: Seq<char>) -> Seq<char> {
    "Object"@ + object_type_label_text(id)
}

/// The expression that lowers the object in the variable `nm` to its raw pointer.
pub open spec fn object_lower_text(nm: Seq<char>) -> Seq<char> {
    call0_text(var_name_text(nm), "lower"@)
}

/// The statement that writes the object in the variable `nm` into `target`.
pub open spec fn object_write_text(nm: Seq<char>, target: Seq<char>) -> Seq<char> {
    call1_text(var_name_text(nm), "write"@, target)
}

/// The expression that wraps the raw pointer `nm` in a handle of the object named `id`.
pub open spec fn object_lift_text(id: Seq<char>, nm: Seq<char>) -> Seq<char> {
    call1_text(object_type_label_text(id), "lift"@, nm)
}

/// The expression that reads an object named `id` from the buffer `nm`.
pub open spec fn object_read_text(id: Seq<char>, nm: Seq<char>) -> Seq<char> {
    call1_text(object_type_label_text(id), "read"@, nm)
}

/// The note that stands where the helper code of the object named `id` would.
pub open spec fn object_helper_code_text(id: Seq<char>) -> Seq<char> {
    "// Helper code for "@ + object_type_label_text(id)
        + " class is found in ObjectTemplate.kt"@
}

/// What a reference to an object imports.
pub open spec fn object_import_texts() -> Seq<Seq<char>> {
    seq![atomic_counter_class(), atomic_flag_class()]
}

/// The strategy for a declared object.
pub struct ObjectCodeType {
    id: String,
}

impl View for ObjectCodeType {
    type V = Seq<char>;

    /// The object's name, as declared.
    closed spec fn view(&self) -> Seq<char> {
        self.id@
    }
}

impl ObjectCodeType {
    pub fn new(id: String) -> (r: ObjectCodeType)
        ensures
            r@ == id@,
    {
        ObjectCodeType { id }
    }

    pub fn type_label(&self, oracle: &KotlinLanguageOracle) -> (r: String)
        ensures
            r@ == object_type_label_text(self@),
    {
        oracle.class_name(self.id.as_str())
    }

    pub fn canonical_name(&self, oracle: &KotlinLanguageOracle) -> (r: String)
        ensures
            r@ == object_canonical_name_text(self@),
    {
        String::from_str("Object").concat(self.type_label(oracle).as_str())
    }

    pub fn lower(&self, oracle: &KotlinLanguageOracle, nm: &str) -> (r: String)
        ensures
            r@ == object_lower_text(nm@),
    {
        call0(oracle.var_name(nm).as_str(), "lower")
    }

    pub fn write(&self, oracle: &KotlinLanguageOracle, nm: &str, target: &str) -> (r: String)
        ensures
            r@ == object_write_text(nm@, target@),
    {
        call1(oracle.var_name(nm).as_str(), "write", target)
    }

    pub fn lift(&self, oracle: &KotlinLanguageOracle, nm: &str) -> (r: String)
        ensures
            r@ == object_lift_text(self@, nm@),
    {
        call1(self.type_label(oracle).as_str(), "lift", nm)
    }

    pub fn read(&self, oracle: &KotlinLanguageOracle, nm: &str) -> (r: String)
        ensures
            r@ == object_read_text(self@, nm@),
    {
        call1(self.type_label(oracle).as_str(), "read", nm)
    }

    pub fn helper_code(&self, oracle: &KotlinLanguageOracle) -> (r: Option<String>)
        ensures
            r matches Some(code) && code@ == object_helper_code_text(self@),
    {
        Some(
            concat3(
                "// Helper code for ",
                self.type_label(oracle).as_str(),
                " class is found in ObjectTemplate.kt",
            ),
        )
    }

    pub fn import_code(&self, oracle: &KotlinLanguageOracle) -> (r: Option<Vec<String>>)
        ensures
            r matches Some(imports) && text_views(imports@) == object_import_texts(),
    {
        Some(pair_of(oracle.atomic_counter_class(), oracle.atomic_flag_class()))
    }
}

/// The declaration of an object, made ready for one generation pass.
pub struct KotlinObject {
    inner: Object,
    contains_unsigned_types: bool,
}

impl View for KotlinObject {
    type V = DeclarationView;

    /// The declared object.
    closed spec fn view(&self) -> DeclarationView {
        self.inner@
    }
}

impl KotlinObject {
    #[verifier::type_invariant]
    spec fn flag_is_current(self) -> bool {
        self.contains_unsigned_types == self.inner@.contains_unsigned()
    }

    pub fn new(inner: Object) -> (r: KotlinObject)
        ensures
            r@ == inner@,
    {
        let contains_unsigned_types = inner.contains_unsigned_types();
        KotlinObject { inner, contains_unsigned_types }
    }

    pub fn inner(&self) -> (r: &Object)
        ensures
            r@ == self@,
    {
        &self.inner
    }

    /// Whether an unsigned integer type occurs in the object's signatures.
    pub fn contains_unsigned_types(&self) -> (b: bool)
        ensures
            b == self@.contains_unsigned(),
    {
        proof {
            use_type_invariant(self);
        }
        self.contains_unsigned_types
    }

    /// The type that refers to this object.
    pub fn type_identifier(&self) -> (r: Type)
        ensures
            r@ == TypeView::Object(self@.name),
    {
        Type::Object(String::from_str(self.inner.name()))
    }

    /// Every import of the declaration: what the handle class itself needs,
    /// then what the types in the object's signatures need.
    pub fn imports(&self, oracle: &KotlinLanguageOracle) -> (r: Vec<String>)
        ensures
            text_views(r@) == object_import_texts() + referenced_imports(self@.types),
    {
        let mut r = pair_of(oracle.atomic_counter_class(), oracle.atomic_flag_class());
        let referenced = collect_imports(self.inner.types(), oracle);
        append_texts(&mut r, &referenced);
        r
    }
}

} // verus!
