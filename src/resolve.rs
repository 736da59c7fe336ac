//! Derivation of descriptors from declarations, against a registry of the
//! descriptors derived so far.
use vstd::prelude::*;

use crate::decl::{DeclBody, Member, TypeDecl, TypeRef, TypeRefView, Variant};
use crate::descriptor::{
    Desc, FfiArray, FfiEnum, FfiEnumItem, FfiEnumUnderlyingType, FfiPointer, FfiStruct,
    FfiStructField, FfiType,
};
use crate::layout::{primitive_named, primitive_of, repr_named, repr_of, Repr};
use crate::names::{
    array_name_text, array_type_name, member_name, member_name_text, signed_decimal,
    signed_decimal_text,
};

verus! {

/// Why a declaration cannot be described.
#[derive(Clone, Copy, Debug, PartialEq, Eq, Structural)]
pub enum ReflectErrorKind {
    /// The layout annotation is missing or not one that the kind of type allows.
    UnreflectableLayout,
    /// A transparent wrapper has more than one member, or a non-primitive one.
    InvalidTransparentWrapper,
    /// A record or union has no members.
    EmptyComposite,
    /// An enumeration variant has no explicit discriminant.
    MissingDiscriminant,
    /// A member's type is neither a primitive, a fixed array, a pointer nor
    /// a type that has been described.
    UnsupportedMemberType,
    /// An array's length is not an integer literal.
    MalformedArrayLength,
}

/// A failed derivation: the kind of failure, the type being described and
/// the offending member or variant, where there is one.
#[derive(Debug)]
pub struct ReflectError {
    pub kind: ReflectErrorKind,
    pub offending_type: String,
    pub member: Option<String>,
}

/// The mathematical value of a `ReflectError`.
pub struct ErrorView {
    pub kind: ReflectErrorKind,
    pub offending_type: Seq<char>,
    pub member: Option<Seq<char>>,
}

impl View for ReflectError {
    type V = ErrorView;

    open spec fn view(&self) -> ErrorView {
        ErrorView {
            kind: self.kind,
            offending_type: self.offending_type@,
            member: match self.member {
                Some(m) => Some(m@),
                None => None,
            },
        }
    }
}

/// The contents of a registry: each described type's name with its descriptor.
pub type RegistryView = Seq<(Seq<char>, Desc)>;

/// What a kind of failure means, in words.
pub open spec fn kind_text(k: ReflectErrorKind) -> Seq<char> {
    match k {
        ReflectErrorKind::UnreflectableLayout => "the layout annotation is missing or not allowed for this kind of type"@,
        ReflectErrorKind::InvalidTransparentWrapper => "a transparent wrapper must hold exactly one primitive member"@,
        ReflectErrorKind::EmptyComposite => "a record or union must have at least one member"@,
        ReflectErrorKind::MissingDiscriminant => "every enumeration variant needs an explicit discriminant"@,
        ReflectErrorKind::UnsupportedMemberType => "the member's type cannot be described"@,
        ReflectErrorKind::MalformedArrayLength => "an array length must be an integer literal"@,
    }
}

/// The human-readable message of a failure: what went wrong, then the type
/// and, where there is one, the member or variant.
pub open spec fn error_message(e: ErrorView) -> Seq<char> {
    kind_text(e.kind) + " (type `"@ + e.offending_type + match e.member {
        Some(m) => "`, member `"@ + m + "`)"@,
        None => "`)"@,
    }
}

fn kind_str(k: ReflectErrorKind) -> (r: &'static str)
    ensures
        r@ == kind_text(k),
{
    match k {
        ReflectErrorKind::UnreflectableLayout => "the layout annotation is missing or not allowed for this kind of type",
        ReflectErrorKind::InvalidTransparentWrapper => "a transparent wrapper must hold exactly one primitive member",
        ReflectErrorKind::EmptyComposite => "a record or union must have at least one member",
        ReflectErrorKind::MissingDiscriminant => "every enumeration variant needs an explicit discriminant",
        ReflectErrorKind::UnsupportedMemberType => "the member's type cannot be described",
        ReflectErrorKind::MalformedArrayLength => "an array length must be an integer literal",
    }
}

impl ReflectError {
    /// The failure as a message (see `error_message`).
    pub fn message(&self) -> (r: String)
        ensures
            r@ == error_message(self@),
    {
        let mut s = String::from_str(kind_str(self.kind));
        s.append(" (type `");
        s.append(self.offending_type.as_str());
        match &self.member {
            Some(m) => {
                s.append("`, member `");
                s.append(m.as_str());
                s.append("`)");
            },
            None => {
                s.append("`)");
            },
        }
        assert(s@ =~= error_message(self@));
        s
    }
}

/// A descriptor result as a mathematical value.
pub open spec fn type_result(r: Result<FfiType, ReflectErrorKind>) -> Result<Desc, ReflectErrorKind> {
    match r {
        Ok(t) => Ok(t.view()),
        Err(k) => Err(k),
    }
}

/// A derivation result as a mathematical value.
pub open spec fn derive_result(r: Result<FfiType, ReflectError>) -> Result<Desc, ErrorView> {
    match r {
        Ok(t) => Ok(t.view()),
        Err(e) => Err(e@),
    }
}

/// The descriptor registered under `name`: the first entry with that name.
pub open spec fn lookup_in(reg: RegistryView, name: Seq<char>) -> Option<Desc>
    decreases reg.len(),
{
    if reg.len() == 0 {
        None
    } else if reg[0].0 == name {
        Some(reg[0].1)
    } else {
        lookup_in(reg.drop_first(), name)
    }
}

/// The descriptor of a member type: a primitive directly, a described type
/// from the registry, an array with its element resolved in turn, and a
/// pointer with its pointee left unresolved.
pub open spec fn resolve_spec(reg: RegistryView, t: TypeRefView) -> Result<Desc, ReflectErrorKind>
    decreases t,
{
    match t {
        TypeRefView::Named(n) => match primitive_named(n) {
            Some(p) => Ok(Desc::Prim(p)),
            None => match lookup_in(reg, n) {
                Some(d) => Ok(d),
                None => Err(ReflectErrorKind::UnsupportedMemberType),
            },
        },
        TypeRefView::Array(_, None) => Err(ReflectErrorKind::MalformedArrayLength),
        TypeRefView::Array(e, Some(len)) => match resolve_spec(reg, *e) {
            Ok(d) => Ok(Desc::Array { name: array_name_text(*e, len), item: Box::new(d), count: len }),
            Err(k) => Err(k),
        },
        TypeRefView::Pointer(p, c) => Ok(Desc::Pointer { target: *p, is_const: c }),
        TypeRefView::Unsupported(_) => Err(ReflectErrorKind::UnsupportedMemberType),
    }
}

/// The name of member `i` of a record or union.
pub open spec fn member_label(m: Member, i: nat) -> Seq<char> {
    member_name_text(
        match m.name {
            Some(n) => Some(n@),
            None => None,
        },
        i,
    )
}

/// The descriptors of the first `n` members, in declaration order, or the
/// name of the first member that cannot be described with the reason.
pub open spec fn fields_spec(reg: RegistryView, ms: Seq<Member>, n: nat) -> Result<
    Seq<(Seq<char>, Desc)>,
    (Seq<char>, ReflectErrorKind),
>
    decreases n,
{
    if n == 0 {
        Ok(Seq::empty())
    } else {
        match fields_spec(reg, ms, (n - 1) as nat) {
            Err(e) => Err(e),
            Ok(fs) => match resolve_spec(reg, ms[n - 1].ty.view()) {
                Ok(d) => Ok(fs.push((member_label(ms[n - 1], (n - 1) as nat), d))),
                Err(k) => Err((member_label(ms[n - 1], (n - 1) as nat), k)),
            },
        }
    }
}

/// The first `n` variants with their discriminants as text, or the name of
/// the first variant without a discriminant.
pub open spec fn items_spec(vs: Seq<Variant>, n: nat) -> Result<Seq<(Seq<char>, Seq<char>)>, Seq<char>>
    decreases n,
{
    if n == 0 {
        Ok(Seq::empty())
    } else {
        match items_spec(vs, (n - 1) as nat) {
            Err(v) => Err(v),
            Ok(items) => match vs[n - 1].discriminant {
                Some(d) => Ok(items.push((vs[n - 1].name@, signed_decimal_text(d as int)))),
                None => Err(vs[n - 1].name@),
            },
        }
    }
}

/// The layout annotation of a declaration, where it is one the library knows.
pub open spec fn decl_repr(decl: TypeDecl) -> Option<Repr> {
    match decl.repr {
        Some(r) => repr_named(r@),
        None => None,
    }
}

pub open spec fn decl_error(decl: TypeDecl, kind: ReflectErrorKind, member: Option<Seq<char>>) -> ErrorView {
    ErrorView { kind, offending_type: decl.name@, member }
}

/// The descriptor of a sequential record or union.
pub open spec fn record_spec(reg: RegistryView, decl: TypeDecl, ms: Seq<Member>, is_union: bool) -> Result<Desc, ErrorView> {
    if ms.len() == 0 {
        Err(decl_error(decl, ReflectErrorKind::EmptyComposite, None))
    } else {
        match fields_spec(reg, ms, ms.len()) {
            Ok(fields) => Ok(
                Desc::Record {
                    is_union,
                    name: decl.name@,
                    size: decl.size as nat,
                    align: decl.align as nat,
                    fields,
                },
            ),
            Err((m, k)) => Err(decl_error(decl, k, Some(m))),
        }
    }
}

/// The descriptor of a transparent wrapper: that of its single primitive member.
pub open spec fn transparent_spec(decl: TypeDecl, ms: Seq<Member>) -> Result<Desc, ErrorView> {
    if ms.len() == 1 && ms[0].ty.view() is Named && primitive_named(ms[0].ty.view()->Named_0) is Some {
        Ok(Desc::Prim(primitive_named(ms[0].ty.view()->Named_0)->Some_0))
    } else {
        Err(decl_error(decl, ReflectErrorKind::InvalidTransparentWrapper, None))
    }
}

/// The descriptor of an enumeration backed by the integer type `u`.
pub open spec fn enum_spec(decl: TypeDecl, u: FfiEnumUnderlyingType, vs: Seq<Variant>) -> Result<Desc, ErrorView> {
    match items_spec(vs, vs.len()) {
        Ok(items) => Ok(Desc::Enum { name: decl.name@, repr: u, items }),
        Err(v) => Err(decl_error(decl, ReflectErrorKind::MissingDiscriminant, Some(v))),
    }
}

/// The descriptor derived from a declaration, against the types in `reg`.
/// A record may be sequential or transparent, a union only sequential, and
/// an enumeration must name its integer representation.
pub open spec fn derive_spec(reg: RegistryView, decl: TypeDecl) -> Result<Desc, ErrorView> {
    match decl.body {
        DeclBody::Struct(ms) => match decl_repr(decl) {
            Some(Repr::C) => record_spec(reg, decl, ms@, false),
            Some(Repr::Transparent) => transparent_spec(decl, ms@),
            _ => Err(decl_error(decl, ReflectErrorKind::UnreflectableLayout, None)),
        },
        DeclBody::Union(ms) => match decl_repr(decl) {
            Some(Repr::C) => record_spec(reg, decl, ms@, true),
            _ => Err(decl_error(decl, ReflectErrorKind::UnreflectableLayout, None)),
        },
        DeclBody::Enum(vs) => match decl_repr(decl) {
            Some(Repr::Int(u)) => enum_spec(decl, u, vs@),
            _ => Err(decl_error(decl, ReflectErrorKind::UnreflectableLayout, None)),
        },
    }
}

/// The registry after registering `decl`, with the result of the
/// registration. A name already registered keeps its descriptor, which is
/// returned; otherwise the derived descriptor is added on success.
pub open spec fn register_spec(reg: RegistryView, decl: TypeDecl) -> (RegistryView, Result<Desc, ErrorView>) {
    match lookup_in(reg, decl.name@) {
        Some(d) => (reg, Ok(d)),
        None => match derive_spec(reg, decl) {
            Ok(d) => (reg.push((decl.name@, d)), Ok(d)),
            Err(e) => (reg, Err(e)),
        },
    }
}

/// Once a member fails, the members after it do not change the outcome.
proof fn lemma_fields_error_persists(reg: RegistryView, ms: Seq<Member>, i: nat, n: nat)
    requires
        i <= n,
        fields_spec(reg, ms, i) is Err,
    ensures
        fields_spec(reg, ms, n) == fields_spec(reg, ms, i),
    decreases n - i,
{
    if i < n {
        lemma_fields_error_persists(reg, ms, i, (n - 1) as nat);
    }
}

/// Once a variant fails, the variants after it do not change the outcome.
pub(crate) proof fn lemma_items_error_persists(vs: Seq<Variant>, i: nat, n: nat)
    requires
        i <= n,
        items_spec(vs, i) is Err,
    ensures
        items_spec(vs, n) == items_spec(vs, i),
    decreases n - i,
{
    if i < n {
        lemma_items_error_persists(vs, i, (n - 1) as nat);
    }
}

/// A registry of described types, each under its name.
pub struct Registry {
    entries: Vec<(String, FfiType)>,
}

impl Registry {
    pub closed spec fn view(&self) -> RegistryView {
        self.entries@.map_values(|e: (String, FfiType)| (e.0@, e.1.view()))
    }

    /// An empty registry.
    pub fn new() -> (r: Registry)
        ensures
            r.view() == Seq::<(Seq<char>, Desc)>::empty(),
    {
        let r = Registry { entries: Vec::new() };
        assert(r.view() =~= Seq::<(Seq<char>, Desc)>::empty());
        r
    }

    /// The descriptor registered under `name`, if any.
    pub fn lookup(&self, name: &String) -> (r: Option<FfiType>)
        ensures
            match r {
                Some(t) => lookup_in(self.view(), name@) == Some(t.view()),
                None => lookup_in(self.view(), name@).is_none(),
            },
    {
        let mut i: usize = 0;
        assert(self.view().subrange(0, self.view().len() as int) =~= self.view());
        while i < self.entries.len()
            invariant
                0 <= i <= self.entries@.len(),
                self.view().len() == self.entries@.len(),
                lookup_in(self.view(), name@) == lookup_in(self.view().subrange(i as int, self.view().len() as int), name@),
            decreases self.entries@.len() - i,
        {
            let ghost rest = self.view().subrange(i as int, self.view().len() as int);
            assert(rest.drop_first() =~= self.view().subrange(i + 1, self.view().len() as int));
            if self.entries[i].0 == *name {
                return Some(self.entries[i].1.duplicate());
            }
            i += 1;
        }
        None
    }

    /// The descriptor of the member type `t` (see `resolve_spec`).
    pub fn resolve_type(&self, t: &TypeRef) -> (r: Result<FfiType, ReflectErrorKind>)
        ensures
            type_result(r) == resolve_spec(self.view(), t.view()),
        decreases t,
    {
        match t {
            TypeRef::Named(n) => match primitive_of(n) {
                Some(p) => Ok(FfiType::Primitive(p)),
                None => match self.lookup(n) {
                    Some(d) => Ok(d),
                    None => Err(ReflectErrorKind::UnsupportedMemberType),
                },
            },
            TypeRef::Array(_, None) => Err(ReflectErrorKind::MalformedArrayLength),
            TypeRef::Array(e, Some(len)) => {
                let item = self.resolve_type(e)?;
                let name = array_type_name(e, *len);
                Ok(FfiType::Array(FfiArray { name, item_type: Box::new(item), item_count: *len }))
            },
            TypeRef::Pointer(p, c) => Ok(
                FfiType::Pointer(FfiPointer { target: p.duplicate(), is_const: *c }),
            ),
            TypeRef::Unsupported(_) => Err(ReflectErrorKind::UnsupportedMemberType),
        }
    }

    /// The descriptors of the members `ms`, in declaration order.
    fn derive_fields(&self, ms: &Vec<Member>) -> (r: Result<Vec<FfiStructField>, (String, ReflectErrorKind)>)
        ensures
            match r {
                Ok(fields) => fields_spec(self.view(), ms@, ms@.len()) == Ok::<_, (Seq<char>, ReflectErrorKind)>(
                    FfiStruct::fields_of(fields@),
                ),
                Err((m, k)) => fields_spec(self.view(), ms@, ms@.len()) == Err::<Seq<(Seq<char>, Desc)>, _>((m@, k)),
            },
    {
        let mut fields: Vec<FfiStructField> = Vec::new();
        let mut i: usize = 0;
        assert(FfiStruct::fields_of(fields@) =~= Seq::empty());
        while i < ms.len()
            invariant
                0 <= i <= ms@.len(),
                fields_spec(self.view(), ms@, i as nat) == Ok::<_, (Seq<char>, ReflectErrorKind)>(
                    FfiStruct::fields_of(fields@),
                ),
            decreases ms@.len() - i,
        {
            let m = &ms[i];
            let name = member_name(&m.name, i);
            match self.resolve_type(&m.ty) {
                Ok(t) => {
                    let ghost before = fields@;
                    fields.push(FfiStructField { field_name: name, field_type: Box::new(t) });
                    assert(FfiStruct::fields_of(fields@) =~= FfiStruct::fields_of(before).push(
                        (member_label(ms@[i as int], i as nat), t.view()),
                    ));
                },
                Err(k) => {
                    proof {
                        lemma_fields_error_persists(self.view(), ms@, (i + 1) as nat, ms@.len());
                    }
                    return Err((name, k));
                },
            }
            i += 1;
        }
        assert(ms@.len() == i);
        Ok(fields)
    }

    /// The variants `vs` with their discriminants as text, in declaration order.
    fn derive_items(vs: &Vec<Variant>) -> (r: Result<Vec<FfiEnumItem>, String>)
        ensures
            match r {
                Ok(items) => items_spec(vs@, vs@.len()) == Ok::<_, Seq<char>>(
                    items@.map_values(|v: FfiEnumItem| (v.name@, v.value@)),
                ),
                Err(v) => items_spec(vs@, vs@.len()) == Err::<Seq<(Seq<char>, Seq<char>)>, _>(v@),
            },
    {
        let mut items: Vec<FfiEnumItem> = Vec::new();
        let mut i: usize = 0;
        assert(items@.map_values(|v: FfiEnumItem| (v.name@, v.value@)) =~= Seq::empty());
        while i < vs.len()
            invariant
                0 <= i <= vs@.len(),
                items_spec(vs@, i as nat) == Ok::<_, Seq<char>>(
                    items@.map_values(|v: FfiEnumItem| (v.name@, v.value@)),
                ),
            decreases vs@.len() - i,
        {
            let v = &vs[i];
            match v.discriminant {
                Some(d) => {
                    let ghost before = items@;
                    items.push(FfiEnumItem { name: v.name.clone(), value: signed_decimal(d) });
                    assert(items@.map_values(|v: FfiEnumItem| (v.name@, v.value@)) =~= before.map_values(
                        |v: FfiEnumItem| (v.name@, v.value@),
                    ).push((vs@[i as int].name@, signed_decimal_text(d as int))));
                },
                None => {
                    proof {
                        lemma_items_error_persists(vs@, (i + 1) as nat, vs@.len());
                    }
                    return Err(v.name.clone());
                },
            }
            i += 1;
        }
        Ok(items)
    }

    fn error(decl: &TypeDecl, kind: ReflectErrorKind, member: Option<String>) -> (r: ReflectError)
        ensures
            r@ == decl_error(
                *decl,
                kind,
                match member {
                    Some(m) => Some(m@),
                    None => None,
                },
            ),
    {
        ReflectError { kind, offending_type: decl.name.clone(), member }
    }

    fn derive_record(&self, decl: &TypeDecl, ms: &Vec<Member>, is_union: bool) -> (r: Result<FfiType, ReflectError>)
        ensures
            derive_result(r) == record_spec(self.view(), *decl, ms@, is_union),
    {
        if ms.len() == 0 {
            return Err(Self::error(decl, ReflectErrorKind::EmptyComposite, None));
        }
        match self.derive_fields(ms) {
            Ok(fields) => {
                let s = FfiStruct { name: decl.name.clone(), size: decl.size, align: decl.align, fields };
                proof {
                    s.lemma_fields_view();
                }
                if is_union {
                    Ok(FfiType::Union(s))
                } else {
                    Ok(FfiType::Struct(s))
                }
            },
            Err((m, k)) => Err(Self::error(decl, k, Some(m))),
        }
    }

    /// The descriptor of `decl`, derived against the types registered so
    /// far (see `derive_spec`). The registry is not changed.
    pub fn derive(&self, decl: &TypeDecl) -> (r: Result<FfiType, ReflectError>)
        ensures
            derive_result(r) == derive_spec(self.view(), *decl),
    {
        let repr = match &decl.repr {
            Some(r) => repr_of(r),
            None => None,
        };
        match &decl.body {
            DeclBody::Struct(ms) => match repr {
                Some(Repr::C) => self.derive_record(decl, ms, false),
                Some(Repr::Transparent) => {
                    if ms.len() == 1 {
                        if let TypeRef::Named(n) = &ms[0].ty {
                            if let Some(p) = primitive_of(n) {
                                return Ok(FfiType::Primitive(p));
                            }
                        }
                    }
                    Err(Self::error(decl, ReflectErrorKind::InvalidTransparentWrapper, None))
                },
                _ => Err(Self::error(decl, ReflectErrorKind::UnreflectableLayout, None)),
            },
            DeclBody::Union(ms) => match repr {
                Some(Repr::C) => self.derive_record(decl, ms, true),
                _ => Err(Self::error(decl, ReflectErrorKind::UnreflectableLayout, None)),
            },
            DeclBody::Enum(vs) => match repr {
                Some(Repr::Int(u)) => match Self::derive_items(vs) {
                    Ok(values) => Ok(FfiType::Enum(FfiEnum { name: decl.name.clone(), underlying_type: u, values })),
                    Err(v) => Err(Self::error(decl, ReflectErrorKind::MissingDiscriminant, Some(v))),
                },
                _ => Err(Self::error(decl, ReflectErrorKind::UnreflectableLayout, None)),
            },
        }
    }

    /// Registers `decl` (see `register_spec`): a name already registered
    /// keeps and returns its descriptor; otherwise the descriptor is derived
    /// and, on success, added to the registry.
    pub fn register(&mut self, decl: &TypeDecl) -> (r: Result<FfiType, ReflectError>)
        ensures
            final(self).view() == register_spec(old(self).view(), *decl).0,
            derive_result(r) == register_spec(old(self).view(), *decl).1,
    {
        if let Some(d) = self.lookup(&decl.name) {
            return Ok(d);
        }
        let r = self.derive(decl);
        match r {
            Ok(d) => {
                let stored = d.duplicate();
                let ghost before = self.view();
                self.entries.push((decl.name.clone(), stored));
                assert(self.view() =~= before.push((decl.name@, d.view())));
                Ok(d)
            },
            Err(e) => Err(e),
        }
    }
}

impl FfiPointer {
    /// The pointee's descriptor, resolved now against `reg`. A pointee that
    /// cannot be described fails here, not when the pointer was described.
    pub fn get_type(&self, reg: &Registry) -> (r: Result<FfiType, ReflectErrorKind>)
        ensures
            type_result(r) == resolve_spec(reg.view(), self.target.view()),
    {
        reg.resolve_type(&self.target)
    }
}

} // verus!
