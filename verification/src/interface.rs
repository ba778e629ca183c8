//! The description of a component that the generator reads: its types, the
//! scalars that cross the boundary, literals, and the declared objects and
//! callback interfaces.

use vstd::prelude::*;
use vstd::string::*;

verus! {

/// A type that needs no declaration.
#[derive(Clone, Copy, Debug, PartialEq, Eq, Structural)]
pub enum Primitive {
    UInt8,
    Int8,
    UInt16,
    Int16,
    UInt32,
    Int32,
    UInt64,
    Int64,
    Float32,
    Float64,
    Boolean,
    String,
    Timestamp,
    Duration,
}

impl Primitive {
    /// Whether this is one of the four unsigned integer types.
    pub open spec fn is_unsigned(self) -> bool {
        self is UInt8 || self is UInt16 || self is UInt32 || self is UInt64
    }

    /// Whether a numeric literal can be declared against this type.
    pub open spec fn is_numeric(self) -> bool {
        !(self is Boolean || self is String || self is Timestamp || self is Duration)
    }

    /// Tells whether this is one of the four unsigned integer types.
    pub fn unsigned(self) -> (b: bool)
        ensures
            b == self.is_unsigned(),
    {
        match self {
            Primitive::UInt8 | Primitive::UInt16 | Primitive::UInt32 | Primitive::UInt64 => true,
            _ => false,
        }
    }

    /// Tells whether a numeric literal can be declared against this type.
    pub fn numeric(self) -> (b: bool)
        ensures
            b == self.is_numeric(),
    {
        match self {
            Primitive::Boolean | Primitive::String | Primitive::Timestamp | Primitive::Duration => {
                false
            },
            _ => true,
        }
    }
}

/// A scalar that can cross the boundary. Nothing crosses it in another form.
#[derive(Clone, Copy, Debug, PartialEq, Eq, Structural)]
pub enum FFIType {
    Int8,
    UInt8,
    Int16,
    UInt16,
    Int32,
    UInt32,
    Int64,
    UInt64,
    Float32,
    Float64,
    /// A pointer to an object that the native side owns.
    RustArcPtr,
    /// A growable buffer.
    RustBuffer,
    /// A span of bytes that the foreign side owns.
    ForeignBytes,
    /// A pointer to a callback of the foreign side.
    ForeignCallback,
}

/// The identifier of a type in a component's interface.
#[derive(Debug, PartialEq, Eq)]
pub enum Type {
    Primitive(Primitive),
    Record(String),
    Enum(String),
    Object(String),
    CallbackInterface(String),
    Optional(Box<Type>),
    Sequence(Box<Type>),
    Mapping(Box<Type>, Box<Type>),
    /// A type that another component declares.
    External { name: String, crate_name: String },
}

/// What a `Type` stands for: the same shape, with names as character sequences.
pub enum TypeView {
    Primitive(Primitive),
    Record(Seq<char>),
    Enum(Seq<char>),
    Object(Seq<char>),
    CallbackInterface(Seq<char>),
    Optional(Box<TypeView>),
    Sequence(Box<TypeView>),
    Mapping(Box<TypeView>, Box<TypeView>),
    External { name: Seq<char>, crate_name: Seq<char> },
}

impl View for Type {
    type V = TypeView;

    open spec fn view(&self) -> TypeView
        decreases self,
    {
        match self {
            Type::Primitive(p) => TypeView::Primitive(*p),
            Type::Record(id) => TypeView::Record(id@),
            Type::Enum(id) => TypeView::Enum(id@),
            Type::Object(id) => TypeView::Object(id@),
            Type::CallbackInterface(id) => TypeView::CallbackInterface(id@),
            Type::Optional(inner) => TypeView::Optional(Box::new((**inner).view())),
            Type::Sequence(inner) => TypeView::Sequence(Box::new((**inner).view())),
            Type::Mapping(key, value) => TypeView::Mapping(
                Box::new((**key).view()),
                Box::new((**value).view()),
            ),
            Type::External { name, crate_name } => TypeView::External {
                name: name@,
                crate_name: crate_name@,
            },
        }
    }
}

impl TypeView {
    /// Whether an unsigned integer type occurs in this type.
    pub open spec fn contains_unsigned(self) -> bool
        decreases self,
    {
        match self {
            TypeView::Primitive(p) => p.is_unsigned(),
            TypeView::Optional(inner) => inner.contains_unsigned(),
            TypeView::Sequence(inner) => inner.contains_unsigned(),
            TypeView::Mapping(key, value) => key.contains_unsigned() || value.contains_unsigned(),
            _ => false,
        }
    }
}

impl Clone for Type {
    fn clone(&self) -> (r: Type)
        ensures
            r@ == self@,
        decreases self,
    {
        match self {
            Type::Primitive(p) => Type::Primitive(*p),
            Type::Record(id) => Type::Record(id.clone()),
            Type::Enum(id) => Type::Enum(id.clone()),
            Type::Object(id) => Type::Object(id.clone()),
            Type::CallbackInterface(id) => Type::CallbackInterface(id.clone()),
            Type::Optional(inner) => Type::Optional(Box::new((**inner).clone())),
            Type::Sequence(inner) => Type::Sequence(Box::new((**inner).clone())),
            Type::Mapping(key, value) => Type::Mapping(
                Box::new((**key).clone()),
                Box::new((**value).clone()),
            ),
            Type::External { name, crate_name } => Type::External {
                name: name.clone(),
                crate_name: crate_name.clone(),
            },
        }
    }
}

impl Type {
    /// Tells whether an unsigned integer type occurs in this type.
    pub fn contains_unsigned_types(&self) -> (b: bool)
        ensures
            b == self@.contains_unsigned(),
        decreases self,
    {
        match self {
            Type::Primitive(p) => p.unsigned(),
            Type::Optional(inner) => (**inner).contains_unsigned_types(),
            Type::Sequence(inner) => (**inner).contains_unsigned_types(),
            Type::Mapping(key, value) => (**key).contains_unsigned_types()
                || (**value).contains_unsigned_types(),
            _ => false,
        }
    }
}


/// The base in which an integer literal was written.
#[derive(Clone, Copy, Debug, PartialEq, Eq, Structural)]
pub enum Radix {
    Decimal,
    Octal,
    Hexadecimal,
}

/// A constant of the interface, with the type it is declared against where
/// its rendering depends on that type.
#[derive(Debug, PartialEq, Eq)]
pub enum Literal {
    Boolean(bool),
    String(String),
    UInt(u64, Radix, Type),
    Int(i64, Radix, Type),
    /// A floating-point constant, kept as the text it was written with.
    Float(String, Type),
    /// A variant's name and the enum that declares it.
    Enum(String, Type),
    EmptySequence,
    EmptyMap,
    Null,
}

/// What a `Literal` stands for.
pub enum LiteralView {
    Boolean(bool),
    String(Seq<char>),
    UInt(u64, Radix, TypeView),
    Int(i64, Radix, TypeView),
    Float(Seq<char>, TypeView),
    Enum(Seq<char>, TypeView),
    EmptySequence,
    EmptyMap,
    Null,
}

impl View for Literal {
    type V = LiteralView;

    open spec fn view(&self) -> LiteralView {
        match self {
            Literal::Boolean(b) => LiteralView::Boolean(*b),
            Literal::String(text) => LiteralView::String(text@),
            Literal::UInt(value, radix, type_) => LiteralView::UInt(*value, *radix, type_@),
            Literal::Int(value, radix, type_) => LiteralView::Int(*value, *radix, type_@),
            Literal::Float(text, type_) => LiteralView::Float(text@, type_@),
            Literal::Enum(variant, type_) => LiteralView::Enum(variant@, type_@),
            Literal::EmptySequence => LiteralView::EmptySequence,
            Literal::EmptyMap => LiteralView::EmptyMap,
            Literal::Null => LiteralView::Null,
        }
    }
}

impl TypeView {
    /// Whether this is a primitive type that a numeric literal can have.
    pub open spec fn is_numeric(self) -> bool {
        self matches TypeView::Primitive(p) && p.is_numeric()
    }
}

impl LiteralView {
    /// The type that the literal is declared against, where it carries one.
    pub open spec fn declared_type(self) -> Option<TypeView> {
        match self {
            LiteralView::UInt(_, _, type_) => Some(type_),
            LiteralView::Int(_, _, type_) => Some(type_),
            LiteralView::Float(_, type_) => Some(type_),
            LiteralView::Enum(_, type_) => Some(type_),
            _ => None,
        }
    }

    /// Whether the literal's tag fits the type it is declared against: a
    /// number needs a numeric primitive type, a variant needs an enum. The
    /// other literals carry no type and always fit.
    pub open spec fn well_typed(self) -> bool {
        match self {
            LiteralView::UInt(_, _, type_) => type_.is_numeric(),
            LiteralView::Int(_, _, type_) => type_.is_numeric(),
            LiteralView::Float(_, type_) => type_.is_numeric(),
            LiteralView::Enum(_, type_) => type_ is Enum,
            _ => true,
        }
    }
}

impl Type {
    /// Tells whether this is a primitive type that a numeric literal can have.
    pub fn is_numeric(&self) -> (b: bool)
        ensures
            b == self@.is_numeric(),
    {
        match self {
            Type::Primitive(p) => p.numeric(),
            _ => false,
        }
    }
}

impl Literal {
    /// The type that the literal is declared against, where it carries one.
    pub fn declared_type(&self) -> (r: Option<&Type>)
        ensures
            match r {
                Some(type_) => self@.declared_type() == Some(type_@),
                None => self@.declared_type() is None,
            },
    {
        match self {
            Literal::UInt(_, _, type_) => Some(type_),
            Literal::Int(_, _, type_) => Some(type_),
            Literal::Float(_, type_) => Some(type_),
            Literal::Enum(_, type_) => Some(type_),
            _ => None,
        }
    }

    /// Tells whether the literal's tag fits the type it is declared against.
    pub fn is_well_typed(&self) -> (b: bool)
        ensures
            b == self@.well_typed(),
    {
        match self {
            Literal::UInt(_, _, type_) => type_.is_numeric(),
            Literal::Int(_, _, type_) => type_.is_numeric(),
            Literal::Float(_, type_) => type_.is_numeric(),
            Literal::Enum(_, type_) => match type_ {
                Type::Enum(_) => true,
                _ => false,
            },
            _ => true,
        }
    }
}

/// The views of a list of types, in order.
pub open spec fn type_views(types: Seq<Type>) -> Seq<TypeView> {
    Seq::new(types.len(), |i: int| types[i]@)
}

/// Whether an unsigned integer type occurs in one of the types.
pub open spec fn any_contains_unsigned(types: Seq<TypeView>) -> bool {
    exists|i: int| 0 <= i < types.len() && (#[trigger] types[i]).contains_unsigned()
}

/// Tells whether an unsigned integer type occurs in one of the types.
pub fn uses_unsigned_types(types: &Vec<Type>) -> (b: bool)
    ensures
        b == any_contains_unsigned(type_views(types@)),
{
    let mut i: usize = 0;
    while i < types.len()
        invariant
            i <= types.len(),
            forall|j: int| 0 <= j < i ==> !(#[trigger] type_views(types@)[j]).contains_unsigned(),
        decreases types.len() - i,
    {
        if types[i].contains_unsigned_types() {
            assert(type_views(types@)[i as int].contains_unsigned());
            return true;
        }
        i += 1;
    }
    false
}

/// A copy of a list of types.
pub fn clone_types(types: &Vec<Type>) -> (r: Vec<Type>)
    ensures
        type_views(r@) == type_views(types@),
{
    let mut r: Vec<Type> = Vec::new();
    let mut i: usize = 0;
    while i < types.len()
        invariant
            i <= types.len(),
            r.len() == i,
            forall|j: int| 0 <= j < i ==> (#[trigger] r@[j])@ == types@[j]@,
        decreases types.len() - i,
    {
        r.push(types[i].clone());
        i += 1;
    }
    assert(type_views(r@) =~= type_views(types@));
    r
}

/// A declared object and the types that its constructors and methods take
/// and return, with the types those reach.
#[derive(Debug)]
pub struct Object {
    name: String,
    types: Vec<Type>,
}

/// What an `Object` or a `CallbackInterface` stands for.
pub struct DeclarationView {
    pub name: Seq<char>,
    pub types: Seq<TypeView>,
}

impl DeclarationView {
    /// Whether an unsigned integer type occurs in the declaration's signatures.
    pub open spec fn contains_unsigned(self) -> bool {
        any_contains_unsigned(self.types)
    }
}

impl View for Object {
    type V = DeclarationView;

    closed spec fn view(&self) -> DeclarationView {
        DeclarationView { name: self.name@, types: type_views(self.types@) }
    }
}

impl Clone for Object {
    fn clone(&self) -> (r: Object)
        ensures
            r@ == self@,
    {
        Object { name: self.name.clone(), types: clone_types(&self.types) }
    }
}

impl Object {
    pub fn new(name: String, types: Vec<Type>) -> (r: Object)
        ensures
            r@.name == name@,
            r@.types == type_views(types@),
    {
        Object { name, types }
    }

    pub fn name(&self) -> (r: &str)
        ensures
            r@ == self@.name,
    {
        self.name.as_str()
    }

    pub fn types(&self) -> (r: &Vec<Type>)
        ensures
            type_views(r@) == self@.types,
    {
        &self.types
    }

    /// Tells whether an unsigned integer type occurs in the object's signatures.
    pub fn contains_unsigned_types(&self) -> (b: bool)
        ensures
            b == self@.contains_unsigned(),
    {
        uses_unsigned_types(&self.types)
    }
}

/// A declared callback interface and the types that its methods take and
/// return, with the types those reach.
#[derive(Debug)]
pub struct CallbackInterface {
    name: String,
    types: Vec<Type>,
}

impl View for CallbackInterface {
    type V = DeclarationView;

    closed spec fn view(&self) -> DeclarationView {
        DeclarationView { name: self.name@, types: type_views(self.types@) }
    }
}

impl Clone for CallbackInterface {
    fn clone(&self) -> (r: CallbackInterface)
        ensures
            r@ == self@,
    {
        CallbackInterface { name: self.name.clone(), types: clone_types(&self.types) }
    }
}

impl CallbackInterface {
    pub fn new(name: String, types: Vec<Type>) -> (r: CallbackInterface)
        ensures
            r@.name == name@,
            r@.types == type_views(types@),
    {
        CallbackInterface { name, types }
    }

    pub fn name(&self) -> (r: &str)
        ensures
            r@ == self@.name,
    {
        self.name.as_str()
    }

    pub fn types(&self) -> (r: &Vec<Type>)
        ensures
            type_views(r@) == self@.types,
    {
        &self.types
    }

    /// Tells whether an unsigned integer type occurs in the interface's signatures.
    pub fn contains_unsigned_types(&self) -> (b: bool)
        ensures
            b == self@.contains_unsigned(),
    {
        uses_unsigned_types(&self.types)
    }
}

/// A component's interface, as far as the generator reads it.
#[derive(Debug)]
pub struct ComponentInterface {
    namespace: String,
    objects: Vec<Object>,
    callback_interfaces: Vec<CallbackInterface>,
}

impl ComponentInterface {
    /// The component's namespace, as a sequence of characters.
    pub closed spec fn namespace_text(&self) -> Seq<char> {
        self.namespace@
    }

    /// The declared objects, in the order of their declaration.
    pub closed spec fn object_list(&self) -> Seq<Object> {
        self.objects@
    }

    /// The declared callback interfaces, in the order of their declaration.
    pub closed spec fn callback_interface_list(&self) -> Seq<CallbackInterface> {
        self.callback_interfaces@
    }

    pub fn new(
        namespace: String,
        objects: Vec<Object>,
        callback_interfaces: Vec<CallbackInterface>,
    ) -> (r: ComponentInterface)
        ensures
            r.namespace_text() == namespace@,
            r.object_list() == objects@,
            r.callback_interface_list() == callback_interfaces@,
    {
        ComponentInterface { namespace, objects, callback_interfaces }
    }

    pub fn namespace(&self) -> (r: &str)
        ensures
            r@ == self.namespace_text(),
    {
        self.namespace.as_str()
    }

    pub fn objects(&self) -> (r: &Vec<Object>)
        ensures
            r@ == self.object_list(),
    {
        &self.objects
    }

    pub fn callback_interfaces(&self) -> (r: &Vec<CallbackInterface>)
        ensures
            r@ == self.callback_interface_list(),
    {
        &self.callback_interfaces
    }
}

} // verus!
