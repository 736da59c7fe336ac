//! The descriptor tree: what a derivation produces.
use vstd::prelude::*;

use crate::decl::{TypeRef, TypeRefView};

verus! {

/// One of the eleven primitive types.
#[derive(Clone, Copy, Debug, PartialEq, Eq, Structural)]
pub enum FfiPrimitive {
    BOOL,
    U8,
    U16,
    U32,
    U64,
    I8,
    I16,
    I32,
    I64,
    F32,
    F64,
}

/// The integer representation that backs an enumeration.
#[derive(Clone, Copy, Debug, PartialEq, Eq, Structural)]
pub enum FfiEnumUnderlyingType {
    U8,
    U16,
    U32,
    U64,
    I8,
    I16,
    I32,
    I64,
}

/// A supported type: the node of a descriptor tree.
#[derive(Debug)]
pub enum FfiType {
    Primitive(FfiPrimitive),
    Enum(FfiEnum),
    Struct(FfiStruct),
    Union(FfiStruct),
    Array(FfiArray),
    Pointer(FfiPointer),
}

/// An enumeration with an explicit integer representation.
#[derive(Debug)]
pub struct FfiEnum {
    pub name: String,
    pub underlying_type: FfiEnumUnderlyingType,
    pub values: Vec<FfiEnumItem>,
}

/// A variant of an enumeration with its discriminant rendered as text.
#[derive(Debug)]
pub struct FfiEnumItem {
    pub name: String,
    pub value: String,
}

/// A record, or a union whose members all start at offset zero.
#[derive(Debug)]
pub struct FfiStruct {
    pub name: String,
    pub size: usize,
    pub align: usize,
    pub fields: Vec<FfiStructField>,
}

/// A member of a record or union.
#[derive(Debug)]
pub struct FfiStructField {
    pub field_name: String,
    pub field_type: Box<FfiType>,
}

/// A fixed-size array.
#[derive(Debug)]
pub struct FfiArray {
    pub name: String,
    pub item_type: Box<FfiType>,
    pub item_count: usize,
}

/// A pointer. The pointee is not resolved when the pointer is described:
/// it is kept as a type reference and resolved on demand (see
/// `FfiPointer::get_type`), which is what lets a type point to itself.
#[derive(Debug)]
pub struct FfiPointer {
    pub target: TypeRef,
    pub is_const: bool,
}

/// The mathematical value of a descriptor tree.
pub enum Desc {
    Prim(FfiPrimitive),
    Enum { name: Seq<char>, repr: FfiEnumUnderlyingType, items: Seq<(Seq<char>, Seq<char>)> },
    Record {
        is_union: bool,
        name: Seq<char>,
        size: nat,
        align: nat,
        fields: Seq<(Seq<char>, Desc)>,
    },
    Array { name: Seq<char>, item: Box<Desc>, count: nat },
    Pointer { target: TypeRefView, is_const: bool },
}

impl FfiStruct {
    pub open spec fn fields_view(&self) -> Seq<(Seq<char>, Desc)>
        decreases self,
        via Self::fields_view_decreases
    {
        Seq::new(
            self.fields@.len(),
            |i: int|
                if 0 <= i < self.fields@.len() {
                    (self.fields@[i].field_name@, self.fields@[i].field_type.view())
                } else {
                    (Seq::empty(), Desc::Prim(FfiPrimitive::BOOL))
                },
        )
    }

    /// The mathematical value of a sequence of members.
    pub open spec fn fields_of(fields: Seq<FfiStructField>) -> Seq<(Seq<char>, Desc)> {
        fields.map_values(|f: FfiStructField| (f.field_name@, f.field_type.view()))
    }

    pub proof fn lemma_fields_view(&self)
        ensures
            self.fields_view() == Self::fields_of(self.fields@),
    {
        assert(self.fields_view() =~= Self::fields_of(self.fields@));
    }

    #[via_fn]
    proof fn fields_view_decreases(&self) {
        assert forall|i: int| 0 <= i < self.fields@.len() implies decreases_to!(
            self => self.fields@[i].field_type
        ) by {
            assert(decreases_to!(self => self.fields));
            assert(decreases_to!(self.fields => self.fields@));
            assert(decreases_to!(self.fields@ => self.fields@[i]));
            assert(decreases_to!(self.fields@[i] => self.fields@[i].field_type));
        }
    }

    /// A copy of this record descriptor and of all it owns.
    pub fn duplicate(&self) -> (r: FfiStruct)
        ensures
            r.name@ == self.name@,
            r.size == self.size,
            r.align == self.align,
            r.fields_view() == self.fields_view(),
        decreases self,
    {
        let mut fields: Vec<FfiStructField> = Vec::new();
        let mut i: usize = 0;
        while i < self.fields.len()
            invariant
                0 <= i <= self.fields@.len(),
                fields@.len() == i,
                forall|j: int|
                    0 <= j < i ==> {
                        &&& fields@[j].field_name@ == self.fields@[j].field_name@
                        &&& fields@[j].field_type.view() == self.fields@[j].field_type.view()
                    },
            decreases self.fields@.len() - i,
        {
            let f = &self.fields[i];
            proof {
                assert(decreases_to!(self => self.fields));
                assert(decreases_to!(self.fields => self.fields@));
                assert(decreases_to!(self.fields@ => self.fields@[i as int]));
                assert(decreases_to!(self.fields@[i as int] => self.fields@[i as int].field_type));
            }
            let t = f.field_type.duplicate();
            fields.push(FfiStructField { field_name: f.field_name.clone(), field_type: Box::new(t) });
            i += 1;
        }
        let r = FfiStruct {
            name: self.name.clone(),
            size: self.size,
            align: self.align,
            fields,
        };
        assert(r.fields_view() =~= self.fields_view());
        r
    }
}

impl FfiType {
    /// The descriptor as a mathematical value.
    pub open spec fn view(&self) -> Desc
        decreases self,
    {
        match self {
            FfiType::Primitive(p) => Desc::Prim(*p),
            FfiType::Enum(e) => Desc::Enum {
                name: e.name@,
                repr: e.underlying_type,
                items: e.values@.map_values(|v: FfiEnumItem| (v.name@, v.value@)),
            },
            FfiType::Struct(s) => Desc::Record {
                is_union: false,
                name: s.name@,
                size: s.size as nat,
                align: s.align as nat,
                fields: s.fields_view(),
            },
            FfiType::Union(s) => Desc::Record {
                is_union: true,
                name: s.name@,
                size: s.size as nat,
                align: s.align as nat,
                fields: s.fields_view(),
            },
            FfiType::Array(a) => Desc::Array {
                name: a.name@,
                item: Box::new(a.item_type.view()),
                count: a.item_count as nat,
            },
            FfiType::Pointer(p) => Desc::Pointer { target: p.target.view(), is_const: p.is_const },
        }
    }

    /// A copy of this descriptor and of all it owns.
    pub fn duplicate(&self) -> (r: FfiType)
        ensures
            r.view() == self.view(),
        decreases self,
    {
        match self {
            FfiType::Primitive(p) => FfiType::Primitive(*p),
            FfiType::Enum(e) => {
                let mut values: Vec<FfiEnumItem> = Vec::new();
                let mut i: usize = 0;
                while i < e.values.len()
                    invariant
                        0 <= i <= e.values@.len(),
                        values@.len() == i,
                        forall|j: int|
                            0 <= j < i ==> {
                                &&& values@[j].name@ == e.values@[j].name@
                                &&& values@[j].value@ == e.values@[j].value@
                            },
                    decreases e.values@.len() - i,
                {
                    let v = &e.values[i];
                    values.push(FfiEnumItem { name: v.name.clone(), value: v.value.clone() });
                    i += 1;
                }
                assert(values@.map_values(|v: FfiEnumItem| (v.name@, v.value@)) =~= e.values@.map_values(
                    |v: FfiEnumItem| (v.name@, v.value@),
                ));
                let r = FfiType::Enum(
                    FfiEnum { name: e.name.clone(), underlying_type: e.underlying_type, values },
                );
                r
            },
            FfiType::Struct(s) => FfiType::Struct(s.duplicate()),
            FfiType::Union(s) => FfiType::Union(s.duplicate()),
            FfiType::Array(a) => FfiType::Array(
                FfiArray {
                    name: a.name.clone(),
                    item_type: Box::new(a.item_type.duplicate()),
                    item_count: a.item_count,
                },
            ),
            FfiType::Pointer(p) => FfiType::Pointer(
                FfiPointer { target: p.target.duplicate(), is_const: p.is_const },
            ),
        }
    }
}

} // verus!
