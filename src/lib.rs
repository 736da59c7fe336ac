//! Structural descriptions of the binary layout of C-compatible types.
//!
//! A caller declares the shape of a type (its layout annotation, its members
//! or variants, and the size and alignment the host computed for it), and a
//! `Registry` derives a tree of descriptors from that declaration, rejecting
//! shapes without a portable layout. Pointers are described without
//! resolving their pointee, so types may point to themselves or to each other.
pub mod decl;
pub mod descriptor;
pub mod layout;
pub mod lemmas;
pub mod names;
pub mod resolve;

pub use decl::{DeclBody, Member, TypeDecl, TypeRef, TypeRefView, Variant};
pub use descriptor::{
    Desc, FfiArray, FfiEnum, FfiEnumItem, FfiEnumUnderlyingType, FfiPointer, FfiPrimitive,
    FfiStruct, FfiStructField, FfiType,
};
pub use layout::Repr;
pub use resolve::{ErrorView, ReflectError, ReflectErrorKind, Registry};
