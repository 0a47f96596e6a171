use vstd::prelude::*;

verus! {

/// Original position of an element in the source text (both one-based).
#[derive(Clone, Copy, Debug, PartialEq, Eq, Structural)]
pub struct Pos {
    pub line: usize,
    pub column: usize,
}

/// A type reference: a named type, a list of a type, or a non-null type.
#[derive(Debug)]
pub enum Type {
    NamedType(String),
    ListType(Box<Type>),
    NonNullType(Box<Type>),
}

/// The mathematical form of a type reference, with names as character sequences.
pub enum TypeView {
    NamedType(Seq<char>),
    ListType(Box<TypeView>),
    NonNullType(Box<TypeView>),
}

impl View for Type {
    type V = TypeView;

    open spec fn view(&self) -> TypeView
        decreases self,
    {
        match self {
            Type::NamedType(name) => TypeView::NamedType(name@),
            Type::ListType(inner) => TypeView::ListType(Box::new((**inner).view())),
            Type::NonNullType(inner) => TypeView::NonNullType(Box::new((**inner).view())),
        }
    }
}

/// An input value written in a document.
///
/// A float is held by the text that Rust's `Display` writes for it (the
/// shortest text that reads back as the same number), so that the library
/// needs no floating point; an object holds its fields in ascending key order.
#[derive(Debug)]
pub enum Value {
    Variable(String),
    Int(i64),
    Float(String),
    String(String),
    Boolean(bool),
    Null,
    Enum(String),
    List(Vec<Value>),
    Object(Vec<(String, Value)>),
}

/// A directive applied to a node, such as `@skip(if: true)`.
#[derive(Debug)]
pub struct Directive {
    pub position: Pos,
    pub name: String,
    pub arguments: Vec<(String, Value)>,
}

} // verus!
