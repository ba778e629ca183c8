//! Callback interfaces: capabilities that Kotlin code implements and the
//! native side calls. For each one the generated code keeps a table from
//! handles to implementations, behind an object named after the interface
//! with the ending `Internals`. The native side may look an implementation up
//! from a thread of its own while the application registers or drops another,
//! so the table is guarded by a lock, and the declaration imports the lock's
//! class. The table is registered with the native library once, when the
//! component is initialised.

use crate::imports::{append_texts, collect_imports, referenced_imports};
use crate::interface::{CallbackInterface, DeclarationView, Type, TypeView};
use crate::oracle::{
    class_name_text, lock_class, lock_scope_function, var_name_text, KotlinLanguageOracle,
};
use crate::text::{call1, call1_text, call2, call2_text, concat3, pair_of, text_views};
use vstd::prelude::*;
use vstd::string::*;

verus! {

/// The label of the callback interface named `id`.
pub open spec fn callback_type_label_text(id: Seq<char>) -> Seq<char> {
    class_name_text(id)
}

/// The canonical name of the callback interface named `id`.
pub open spec fn callback_canonical_name_text(id: Seq<char>) -> Seq<char> {
    "CallbackInterface"@ + callback_type_label_text(id)
}

/// The name of the object that holds the table of the callback interface named `id`.
pub open spec fn callback_internals_text(id: Seq<char>) -> Seq<char> {
    callback_canonical_name_text(id) + "Internals"@
}

/// The expression that lowers the implementation in the variable `nm` to its handle.
pub open spec fn callback_lower_text(id: Seq<char>, nm: Seq<char>) -> Seq<char> {
    call1_text(callback_internals_text(id), "lower"@, var_name_text(nm))
}

/// The statement that writes the implementation in the variable `nm` into `target`.
pub open spec fn callback_write_text(id: Seq<char>, nm: Seq<char>, target: Seq<char>) -> Seq<
    char,
> {
    call2_text(callback_internals_text(id), "write"@, var_name_text(nm), target)
}

/// The expression that finds the implementation for the handle `nm`.
pub open spec fn callback_lift_text(id: Seq<char>, nm: Seq<char>) -> Seq<char> {
    call2_text(callback_internals_text(id), "lift"@, callback_type_label_text(id), nm)
}

/// The expression that reads an implementation from the buffer `nm`.
pub open spec fn callback_read_text(id: Seq<char>, nm: Seq<char>) -> Seq<char> {
    call2_text(callback_internals_text(id), "read"@, callback_type_label_text(id), nm)
}

/// The note that stands where the helper code of the callback interface named `id` would.
pub open spec fn callback_helper_code_text(id: Seq<char>) -> Seq<char> {
    "// Helper code for "@ + callback_type_label_text(id)
        + " callback interface is found in CallbackInterfaceTemplate.kt"@
}

/// The statement that registers the table of the callback interface named
/// `id` with the native library.
pub open spec fn callback_initialization_text(id: Seq<char>) -> Seq<char> {
    call1_text(callback_internals_text(id), "register"@, "lib"@)
}

/// What the declaration of a callback interface imports.
pub open spec fn callback_import_texts() -> Seq<Seq<char>> {
    seq![lock_class(), lock_scope_function()]
}

/// The strategy for a declared callback interface.
pub struct CallbackInterfaceCodeType {
    id: String,
}

impl View for CallbackInterfaceCodeType {
    type V = Seq<char>;

    /// The interface's name, as declared.
    closed spec fn view(&self) -> Seq<char> {
        self.id@
    }
}

impl CallbackInterfaceCodeType {
    pub fn new(id: String) -> (r: CallbackInterfaceCodeType)
        ensures
            r@ == id@,
    {
        CallbackInterfaceCodeType { id }
    }

    /// The name of the object that holds the interface's table.
    pub fn internals(&self, oracle: &KotlinLanguageOracle) -> (r: String)
        ensures
            r@ == callback_internals_text(self@),
    {
        self.canonical_name(oracle).concat("Internals")
    }

    pub fn type_label(&self, oracle: &KotlinLanguageOracle) -> (r: String)
        ensures
            r@ == callback_type_label_text(self@),
    {
        oracle.class_name(self.id.as_str())
    }

    pub fn canonical_name(&self, oracle: &KotlinLanguageOracle) -> (r: String)
        ensures
            r@ == callback_canonical_name_text(self@),
    {
        String::from_str("CallbackInterface").concat(self.type_label(oracle).as_str())
    }

    pub fn lower(&self, oracle: &KotlinLanguageOracle, nm: &str) -> (r: String)
        ensures
            r@ == callback_lower_text(self@, nm@),
    {
        call1(self.internals(oracle).as_str(), "lower", oracle.var_name(nm).as_str())
    }

    pub fn write(&self, oracle: &KotlinLanguageOracle, nm: &str, target: &str) -> (r: String)
        ensures
            r@ == callback_write_text(self@, nm@, target@),
    {
        call2(
            self.internals(oracle).as_str(),
            "write",
            oracle.var_name(nm).as_str(),
            target,
        )
    }

    pub fn lift(&self, oracle: &KotlinLanguageOracle, nm: &str) -> (r: String)
        ensures
            r@ == callback_lift_text(self@, nm@),
    {
        call2(
            self.internals(oracle).as_str(),
            "lift",
            self.type_label(oracle).as_str(),
            nm,
        )
    }

    pub fn read(&self, oracle: &KotlinLanguageOracle, nm: &str) -> (r: String)
        ensures
            r@ == callback_read_text(self@, nm@),
    {
        call2(
            self.internals(oracle).as_str(),
            "read",
            self.type_label(oracle).as_str(),
            nm,
        )
    }

    pub fn helper_code(&self, oracle: &KotlinLanguageOracle) -> (r: Option<String>)
        ensures
            r matches Some(code) && code@ == callback_helper_code_text(self@),
    {
        Some(
            concat3(
                "// Helper code for ",
                self.type_label(oracle).as_str(),
                " callback interface is found in CallbackInterfaceTemplate.kt",
            ),
        )
    }

    /// A reference to a callback interface imports nothing by itself.
    pub fn import_code(&self, oracle: &KotlinLanguageOracle) -> (r: Option<Vec<String>>)
        ensures
            r is None,
    {
        None
    }
}

/// The declaration of a callback interface, made ready for one generation pass.
pub struct KotlinCallbackInterface {
    inner: CallbackInterface,
    contains_unsigned_types: bool,
}

impl View for KotlinCallbackInterface {
    type V = DeclarationView;

    /// The declared callback interface.
    closed spec fn view(&self) -> DeclarationView {
        self.inner@
    }
}

impl KotlinCallbackInterface {
    #[verifier::type_invariant]
    spec fn flag_is_current(self) -> bool {
        self.contains_unsigned_types == self.inner@.contains_unsigned()
    }

    pub fn new(inner: CallbackInterface) -> (r: KotlinCallbackInterface)
        ensures
            r@ == inner@,
    {
        let contains_unsigned_types = inner.contains_unsigned_types();
        KotlinCallbackInterface { inner, contains_unsigned_types }
    }

    pub fn inner(&self) -> (r: &CallbackInterface)
        ensures
            r@ == self@,
    {
        &self.inner
    }

    /// Whether an unsigned integer type occurs in the interface's signatures.
    pub fn contains_unsigned_types(&self) -> (b: bool)
        ensures
            b == self@.contains_unsigned(),
    {
        proof {
            use_type_invariant(self);
        }
        self.contains_unsigned_types
    }

    /// The type that refers to this callback interface.
    pub fn type_identifier(&self) -> (r: Type)
        ensures
            r@ == TypeView::CallbackInterface(self@.name),
    {
        Type::CallbackInterface(String::from_str(self.inner.name()))
    }

    /// The statement that registers the interface's table with the native
    /// library. It runs once, when the component is initialised.
    pub fn initialization_code(&self, oracle: &KotlinLanguageOracle) -> (r: Option<String>)
        ensures
            r matches Some(code) && code@ == callback_initialization_text(self@.name),
    {
        let code_type = CallbackInterfaceCodeType::new(String::from_str(self.inner.name()));
        Some(call1(code_type.internals(oracle).as_str(), "register", "lib"))
    }

    /// What the declaration imports: the lock that guards the table, and the
    /// function that runs a block while holding it.
    pub fn import_code(&self, oracle: &KotlinLanguageOracle) -> (r: Option<Vec<String>>)
        ensures
            r matches Some(imports) && text_views(imports@) == callback_import_texts(),
    {
        Some(pair_of(oracle.lock_class(), oracle.lock_scope_function()))
    }

    /// Every import of the declaration: what the declaration itself needs,
    /// then what the types in the interface's signatures need.
    pub fn imports(&self, oracle: &KotlinLanguageOracle) -> (r: Vec<String>)
        ensures
            text_views(r@) == callback_import_texts() + referenced_imports(self@.types),
    {
        let mut r = pair_of(oracle.lock_class(), oracle.lock_scope_function());
        let referenced = collect_imports(self.inner.types(), oracle);
        append_texts(&mut r, &referenced);
        r
    }
}

} // verus!
