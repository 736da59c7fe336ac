//! Recognition of primitive type names and of layout annotations.
use vstd::prelude::*;

use crate::descriptor::{FfiEnumUnderlyingType, FfiPrimitive};

verus! {

/// A layout annotation that the library knows.
#[derive(Clone, Copy, Debug, PartialEq, Eq, Structural)]
pub enum Repr {
    /// Fields in declaration order, laid out by the host's C rules.
    C,
    /// A single field, laid out as that field alone.
    Transparent,
    /// An enumeration stored as the given integer type.
    Int(FfiEnumUnderlyingType),
}

/// The primitive that a type name denotes, if any.
pub open spec fn primitive_named(n: Seq<char>) -> Option<FfiPrimitive> {
    if n == "bool"@ {
        Some(FfiPrimitive::BOOL)
    } else if n == "u8"@ {
        Some(FfiPrimitive::U8)
    } else if n == "u16"@ {
        Some(FfiPrimitive::U16)
    } else if n == "u32"@ {
        Some(FfiPrimitive::U32)
    } else if n == "u64"@ {
        Some(FfiPrimitive::U64)
    } else if n == "i8"@ {
        Some(FfiPrimitive::I8)
    } else if n == "i16"@ {
        Some(FfiPrimitive::I16)
    } else if n == "i32"@ {
        Some(FfiPrimitive::I32)
    } else if n == "i64"@ {
        Some(FfiPrimitive::I64)
    } else if n == "f32"@ {
        Some(FfiPrimitive::F32)
    } else if n == "f64"@ {
        Some(FfiPrimitive::F64)
    } else {
        None
    }
}

/// The name of a primitive type.
pub open spec fn primitive_name(p: FfiPrimitive) -> Seq<char> {
    match p {
        FfiPrimitive::BOOL => "bool"@,
        FfiPrimitive::U8 => "u8"@,
        FfiPrimitive::U16 => "u16"@,
        FfiPrimitive::U32 => "u32"@,
        FfiPrimitive::U64 => "u64"@,
        FfiPrimitive::I8 => "i8"@,
        FfiPrimitive::I16 => "i16"@,
        FfiPrimitive::I32 => "i32"@,
        FfiPrimitive::I64 => "i64"@,
        FfiPrimitive::F32 => "f32"@,
        FfiPrimitive::F64 => "f64"@,
    }
}

/// The layout annotation that an annotation argument denotes, if any.
pub open spec fn repr_named(n: Seq<char>) -> Option<Repr> {
    if n == "C"@ {
        Some(Repr::C)
    } else if n == "transparent"@ {
        Some(Repr::Transparent)
    } else if n == "u8"@ {
        Some(Repr::Int(FfiEnumUnderlyingType::U8))
    } else if n == "u16"@ {
        Some(Repr::Int(FfiEnumUnderlyingType::U16))
    } else if n == "u32"@ {
        Some(Repr::Int(FfiEnumUnderlyingType::U32))
    } else if n == "u64"@ {
        Some(Repr::Int(FfiEnumUnderlyingType::U64))
    } else if n == "i8"@ {
        Some(Repr::Int(FfiEnumUnderlyingType::I8))
    } else if n == "i16"@ {
        Some(Repr::Int(FfiEnumUnderlyingType::I16))
    } else if n == "i32"@ {
        Some(Repr::Int(FfiEnumUnderlyingType::I32))
    } else if n == "i64"@ {
        Some(Repr::Int(FfiEnumUnderlyingType::I64))
    } else {
        None
    }
}

fn text_is(s: &String, lit: &str) -> (r: bool)
    ensures
        r == (s@ == lit@),
{
    let l = String::from_str(lit);
    *s == l
}

/// The primitive that the type name `n` denotes, if any.
pub fn primitive_of(n: &String) -> (r: Option<FfiPrimitive>)
    ensures
        r == primitive_named(n@),
{
    if text_is(n, "bool") {
        Some(FfiPrimitive::BOOL)
    } else if text_is(n, "u8") {
        Some(FfiPrimitive::U8)
    } else if text_is(n, "u16") {
        Some(FfiPrimitive::U16)
    } else if text_is(n, "u32") {
        Some(FfiPrimitive::U32)
    } else if text_is(n, "u64") {
        Some(FfiPrimitive::U64)
    } else if text_is(n, "i8") {
        Some(FfiPrimitive::I8)
    } else if text_is(n, "i16") {
        Some(FfiPrimitive::I16)
    } else if text_is(n, "i32") {
        Some(FfiPrimitive::I32)
    } else if text_is(n, "i64") {
        Some(FfiPrimitive::I64)
    } else if text_is(n, "f32") {
        Some(FfiPrimitive::F32)
    } else if text_is(n, "f64") {
        Some(FfiPrimitive::F64)
    } else {
        None
    }
}

/// The layout annotation that the annotation argument `n` denotes, if any.
pub fn repr_of(n: &String) -> (r: Option<Repr>)
    ensures
        r == repr_named(n@),
{
    if text_is(n, "C") {
        Some(Repr::C)
    } else if text_is(n, "transparent") {
        Some(Repr::Transparent)
    } else if text_is(n, "u8") {
        Some(Repr::Int(FfiEnumUnderlyingType::U8))
    } else if text_is(n, "u16") {
        Some(Repr::Int(FfiEnumUnderlyingType::U16))
    } else if text_is(n, "u32") {
        Some(Repr::Int(FfiEnumUnderlyingType::U32))
    } else if text_is(n, "u64") {
        Some(Repr::Int(FfiEnumUnderlyingType::U64))
    } else if text_is(n, "i8") {
        Some(Repr::Int(FfiEnumUnderlyingType::I8))
    } else if text_is(n, "i16") {
        Some(Repr::Int(FfiEnumUnderlyingType::I16))
    } else if text_is(n, "i32") {
        Some(Repr::Int(FfiEnumUnderlyingType::I32))
    } else if text_is(n, "i64") {
        Some(Repr::Int(FfiEnumUnderlyingType::I64))
    } else {
        None
    }
}

/// Each primitive is recognised by its own name.
pub proof fn lemma_primitive_name_round_trip(p: FfiPrimitive)
    ensures
        primitive_named(primitive_name(p)) == Some(p),
{
    reveal_strlit("bool");
    reveal_strlit("u8");
    reveal_strlit("u16");
    reveal_strlit("u32");
    reveal_strlit("u64");
    reveal_strlit("i8");
    reveal_strlit("i16");
    reveal_strlit("i32");
    reveal_strlit("i64");
    reveal_strlit("f32");
    reveal_strlit("f64");
    assert("bool"@.len() == 4 && "bool"@[0] == 'b' && "bool"@[1] == 'o' && "bool"@[2] == 'o' && "bool"@[3] == 'l');
    assert("u8"@.len() == 2 && "u8"@[0] == 'u' && "u8"@[1] == '8');
    assert("u16"@.len() == 3 && "u16"@[0] == 'u' && "u16"@[1] == '1' && "u16"@[2] == '6');
    assert("u32"@.len() == 3 && "u32"@[0] == 'u' && "u32"@[1] == '3' && "u32"@[2] == '2');
    assert("u64"@.len() == 3 && "u64"@[0] == 'u' && "u64"@[1] == '6' && "u64"@[2] == '4');
    assert("i8"@.len() == 2 && "i8"@[0] == 'i' && "i8"@[1] == '8');
    assert("i16"@.len() == 3 && "i16"@[0] == 'i' && "i16"@[1] == '1' && "i16"@[2] == '6');
    assert("i32"@.len() == 3 && "i32"@[0] == 'i' && "i32"@[1] == '3' && "i32"@[2] == '2');
    assert("i64"@.len() == 3 && "i64"@[0] == 'i' && "i64"@[1] == '6' && "i64"@[2] == '4');
    assert("f32"@.len() == 3 && "f32"@[0] == 'f' && "f32"@[1] == '3' && "f32"@[2] == '2');
    assert("f64"@.len() == 3 && "f64"@[0] == 'f' && "f64"@[1] == '6' && "f64"@[2] == '4');
}

} // verus!
