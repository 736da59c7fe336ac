//! How a caller declares the shape of a type to be described.
use vstd::prelude::*;

verus! {

/// The declared type of a member, of an array element or of a pointee.
#[derive(Debug)]
pub enum TypeRef {
    /// A type given by name: one of the primitives, or a declared type.
    Named(String),
    /// A fixed-size array. The length is `None` where the declaration does
    /// not give it as an integer literal.
    Array(Box<TypeRef>, Option<usize>),
    /// A pointer to the given type; the flag tells whether the pointee is
    /// read-only through it.
    Pointer(Box<TypeRef>, bool),
    /// Any other type (a slice, a tuple, a reference, ...), written out for
    /// diagnostics.
    Unsupported(String),
}

/// The mathematical value of a `TypeRef`.
pub enum TypeRefView {
    Named(Seq<char>),
    Array(Box<TypeRefView>, Option<nat>),
    Pointer(Box<TypeRefView>, bool),
    Unsupported(Seq<char>),
}

impl TypeRef {
    pub open spec fn view(&self) -> TypeRefView
        decreases self,
    {
        match self {
            TypeRef::Named(n) => TypeRefView::Named(n@),
            TypeRef::Array(e, len) => TypeRefView::Array(
                Box::new(e.view()),
                match len {
                    Some(l) => Some(*l as nat),
                    None => None,
                },
            ),
            TypeRef::Pointer(t, c) => TypeRefView::Pointer(Box::new(t.view()), *c),
            TypeRef::Unsupported(s) => TypeRefView::Unsupported(s@),
        }
    }

    /// A copy of this type reference.
    pub fn duplicate(&self) -> (r: TypeRef)
        ensures
            r.view() == self.view(),
        decreases self,
    {
        match self {
            TypeRef::Named(n) => TypeRef::Named(n.clone()),
            TypeRef::Array(e, len) => TypeRef::Array(Box::new(e.duplicate()), *len),
            TypeRef::Pointer(t, c) => TypeRef::Pointer(Box::new(t.duplicate()), *c),
            TypeRef::Unsupported(s) => TypeRef::Unsupported(s.clone()),
        }
    }
}

/// A member of a record or union. A positional member has no name.
#[derive(Debug)]
pub struct Member {
    pub name: Option<String>,
    pub ty: TypeRef,
}

/// A variant of an enumeration with its discriminant, if one was written.
#[derive(Debug)]
pub struct Variant {
    pub name: String,
    pub discriminant: Option<i128>,
}

/// What a type is made of.
#[derive(Debug)]
pub enum DeclBody {
    Struct(Vec<Member>),
    Union(Vec<Member>),
    Enum(Vec<Variant>),
}

/// The declaration of a type: its name, the argument of its layout
/// annotation (`C`, `transparent`, `u8`, ...; `None` when there is none),
/// the size and alignment the host computed for it, and its members.
#[derive(Debug)]
pub struct TypeDecl {
    pub name: String,
    pub repr: Option<String>,
    pub size: usize,
    pub align: usize,
    pub body: DeclBody,
}

} // verus!
