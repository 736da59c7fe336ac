//! General facts about derivation and registration.
use vstd::prelude::*;

use crate::decl::{DeclBody, Member, TypeDecl, TypeRefView, Variant};
use crate::descriptor::{Desc, FfiEnumUnderlyingType, FfiPrimitive};
use crate::layout::{lemma_primitive_name_round_trip, primitive_name, primitive_named, Repr};
use crate::names::{array_name_text, signed_decimal_text};
use crate::resolve::{
    decl_error, decl_repr, lemma_items_error_persists, derive_spec, fields_spec, items_spec, lookup_in, member_label,
    register_spec, resolve_spec, ErrorView, ReflectErrorKind, RegistryView,
};

verus! {

/// A transparent wrapper around a primitive is described as that primitive.
pub proof fn lemma_transparent_wrapper(reg: RegistryView, decl: TypeDecl, p: FfiPrimitive)
    requires
        decl_repr(decl) == Some(Repr::Transparent),
        decl.body is Struct,
        decl.body->Struct_0@.len() == 1,
        decl.body->Struct_0@[0].ty.view() == TypeRefView::Named(primitive_name(p)),
    ensures
        derive_spec(reg, decl) == Ok::<Desc, ErrorView>(Desc::Prim(p)),
{
    lemma_primitive_name_round_trip(p);
}

/// The descriptor that a primitive member type stands for.
pub open spec fn primitive_member_desc(m: Member) -> Desc {
    Desc::Prim(primitive_named(m.ty.view()->Named_0)->Some_0)
}

/// Every member names a primitive type.
pub open spec fn all_primitive(ms: Seq<Member>) -> bool {
    forall|i: int|
        0 <= i < ms.len() ==> {
            &&& #[trigger] ms[i].ty.view() is Named
            &&& primitive_named(ms[i].ty.view()->Named_0) is Some
        }
}

proof fn lemma_primitive_fields(reg: RegistryView, ms: Seq<Member>, n: nat)
    requires
        n <= ms.len(),
        all_primitive(ms),
    ensures
        fields_spec(reg, ms, n) == Ok::<_, (Seq<char>, ReflectErrorKind)>(
            Seq::new(n, |i: int| (member_label(ms[i], i as nat), primitive_member_desc(ms[i]))),
        ),
    decreases n,
{
    if n == 0 {
        assert(Seq::new(n, |i: int| (member_label(ms[i], i as nat), primitive_member_desc(ms[i]))) =~= Seq::empty());
    } else {
        lemma_primitive_fields(reg, ms, (n - 1) as nat);
        assert(ms[n - 1].ty.view() is Named);
        assert(Seq::new(n, |i: int| (member_label(ms[i], i as nat), primitive_member_desc(ms[i])))
            =~= Seq::new((n - 1) as nat, |i: int| (member_label(ms[i], i as nat), primitive_member_desc(ms[i]))).push(
            (member_label(ms[n - 1], (n - 1) as nat), primitive_member_desc(ms[n - 1])),
        ));
    }
}

/// A sequential record of primitive members is described by exactly those
/// members, named and ordered as declared, with the size and alignment that
/// the declaration carries.
pub proof fn lemma_primitive_record(reg: RegistryView, decl: TypeDecl)
    requires
        decl_repr(decl) == Some(Repr::C),
        decl.body is Struct,
        decl.body->Struct_0@.len() > 0,
        all_primitive(decl.body->Struct_0@),
    ensures
        derive_spec(reg, decl) == Ok::<_, ErrorView>(
            Desc::Record {
                is_union: false,
                name: decl.name@,
                size: decl.size as nat,
                align: decl.align as nat,
                fields: Seq::new(
                    decl.body->Struct_0@.len(),
                    |i: int|
                        (
                            member_label(decl.body->Struct_0@[i], i as nat),
                            primitive_member_desc(decl.body->Struct_0@[i]),
                        ),
                ),
            },
        ),
{
    let ms = decl.body->Struct_0@;
    lemma_primitive_fields(reg, ms, ms.len());
}

proof fn lemma_items_all_given(vs: Seq<Variant>, n: nat)
    requires
        n <= vs.len(),
        forall|i: int| 0 <= i < vs.len() ==> (#[trigger] vs[i].discriminant) is Some,
    ensures
        items_spec(vs, n) == Ok::<_, Seq<char>>(
            Seq::new(n, |i: int| (vs[i].name@, signed_decimal_text(vs[i].discriminant->Some_0 as int))),
        ),
    decreases n,
{
    if n == 0 {
        assert(Seq::new(n, |i: int| (vs[i].name@, signed_decimal_text(vs[i].discriminant->Some_0 as int))) =~= Seq::empty());
    } else {
        lemma_items_all_given(vs, (n - 1) as nat);
        assert(vs[n - 1].discriminant is Some);
        assert(Seq::new(n, |i: int| (vs[i].name@, signed_decimal_text(vs[i].discriminant->Some_0 as int)))
            =~= Seq::new((n - 1) as nat, |i: int| (vs[i].name@, signed_decimal_text(vs[i].discriminant->Some_0 as int))).push(
            (vs[n - 1].name@, signed_decimal_text(vs[n - 1].discriminant->Some_0 as int)),
        ));
    }
}

/// An enumeration whose variants all carry a discriminant is described by
/// its variants in declaration order, each discriminant written in decimal.
pub proof fn lemma_enumeration(reg: RegistryView, decl: TypeDecl, u: FfiEnumUnderlyingType)
    requires
        decl_repr(decl) == Some(Repr::Int(u)),
        decl.body is Enum,
        forall|i: int|
            0 <= i < decl.body->Enum_0@.len() ==> (#[trigger] decl.body->Enum_0@[i].discriminant) is Some,
    ensures
        derive_spec(reg, decl) == Ok::<_, ErrorView>(
            Desc::Enum {
                name: decl.name@,
                repr: u,
                items: Seq::new(
                    decl.body->Enum_0@.len(),
                    |i: int|
                        (
                            decl.body->Enum_0@[i].name@,
                            signed_decimal_text(decl.body->Enum_0@[i].discriminant->Some_0 as int),
                        ),
                ),
            },
        ),
{
    let vs = decl.body->Enum_0@;
    lemma_items_all_given(vs, vs.len());
}

/// An array of a registered type is described by that type's registered
/// descriptor, the length, and a name made of the length and the element's
/// name alone.
pub proof fn lemma_array_of_registered(reg: RegistryView, elem: Seq<char>, len: nat)
    requires
        primitive_named(elem) is None,
        lookup_in(reg, elem) is Some,
    ensures
        resolve_spec(reg, TypeRefView::Array(Box::new(TypeRefView::Named(elem)), Some(len))) == Ok::<
            _,
            ReflectErrorKind,
        >(
            Desc::Array {
                name: array_name_text(TypeRefView::Named(elem), len),
                item: Box::new(lookup_in(reg, elem)->Some_0),
                count: len,
            },
        ),
{
    assert(resolve_spec(reg, TypeRefView::Named(elem)) == Ok::<_, ReflectErrorKind>(lookup_in(reg, elem)->Some_0));
}

/// Registering a declaration a second time changes nothing and returns what
/// the first registration returned; after a successful registration the
/// type's name resolves to the derived descriptor.
pub proof fn lemma_register_idempotent(reg: RegistryView, decl: TypeDecl)
    ensures
        register_spec(register_spec(reg, decl).0, decl) == register_spec(reg, decl),
        register_spec(reg, decl).1 is Ok ==> lookup_in(register_spec(reg, decl).0, decl.name@) == Some(
            register_spec(reg, decl).1->Ok_0,
        ),
{
    let (reg1, r1) = register_spec(reg, decl);
    if lookup_in(reg, decl.name@) is None {
        if r1 is Ok {
            lemma_lookup_after_push(reg, decl.name@, r1->Ok_0);
        }
    }
}

proof fn lemma_lookup_after_push(reg: RegistryView, name: Seq<char>, d: Desc)
    requires
        lookup_in(reg, name) is None,
    ensures
        lookup_in(reg.push((name, d)), name) == Some(d),
    decreases reg.len(),
{
    if reg.len() > 0 {
        assert(reg.push((name, d)).drop_first() =~= reg.drop_first().push((name, d)));
        lemma_lookup_after_push(reg.drop_first(), name, d);
    }
}

/// A sequential record with a member that points to the record itself is
/// described whenever its other members are: the pointer member is
/// described without resolving its pointee, and once the record is
/// registered, resolving the pointee gives the record's own descriptor.
pub proof fn lemma_self_pointer(reg: RegistryView, decl: TypeDecl, k: int, is_const: bool)
    requires
        decl_repr(decl) == Some(Repr::C),
        decl.body is Struct,
        0 <= k < decl.body->Struct_0@.len(),
        decl.body->Struct_0@[k].ty.view() == TypeRefView::Pointer(
            Box::new(TypeRefView::Named(decl.name@)),
            is_const,
        ),
        primitive_named(decl.name@) is None,
        lookup_in(reg, decl.name@) is None,
        forall|i: int|
            0 <= i < decl.body->Struct_0@.len() && i != k ==> resolve_spec(
                reg,
                (#[trigger] decl.body->Struct_0@[i]).ty.view(),
            ) is Ok,
    ensures
        derive_spec(reg, decl) is Ok,
        derive_spec(reg, decl)->Ok_0->Record_fields[k].1 == (Desc::Pointer {
            target: TypeRefView::Named(decl.name@),
            is_const,
        }),
        resolve_spec(
            register_spec(reg, decl).0,
            TypeRefView::Named(decl.name@),
        ) == Ok::<_, ReflectErrorKind>(derive_spec(reg, decl)->Ok_0),
{
    let ms = decl.body->Struct_0@;
    lemma_fields_ok(reg, ms, ms.len(), k);
    lemma_lookup_after_push(reg, decl.name@, derive_spec(reg, decl)->Ok_0);
}

proof fn lemma_fields_ok(reg: RegistryView, ms: Seq<Member>, n: nat, k: int)
    requires
        n <= ms.len(),
        0 <= k < ms.len(),
        forall|i: int| 0 <= i < ms.len() && i != k ==> resolve_spec(reg, (#[trigger] ms[i]).ty.view()) is Ok,
        resolve_spec(reg, ms[k].ty.view()) is Ok,
    ensures
        fields_spec(reg, ms, n) is Ok,
        fields_spec(reg, ms, n)->Ok_0.len() == n,
        k < n ==> fields_spec(reg, ms, n)->Ok_0[k].1 == resolve_spec(reg, ms[k].ty.view())->Ok_0,
    decreases n,
{
    if n > 0 {
        lemma_fields_ok(reg, ms, (n - 1) as nat, k);
        assert(resolve_spec(reg, ms[n - 1].ty.view()) is Ok);
    }
}

/// A sequential record or union without members is rejected as empty.
pub proof fn lemma_empty_composite(reg: RegistryView, decl: TypeDecl)
    requires
        decl_repr(decl) == Some(Repr::C),
        match decl.body {
            DeclBody::Struct(ms) => ms@.len() == 0,
            DeclBody::Union(ms) => ms@.len() == 0,
            DeclBody::Enum(_) => false,
        },
    ensures
        derive_spec(reg, decl) == Err::<Desc, ErrorView>(decl_error(decl, ReflectErrorKind::EmptyComposite, None)),
{
}

/// An enumeration with a variant that has no discriminant is rejected,
/// naming the first such variant.
pub proof fn lemma_missing_discriminant(reg: RegistryView, decl: TypeDecl, u: FfiEnumUnderlyingType, k: int)
    requires
        decl_repr(decl) == Some(Repr::Int(u)),
        decl.body is Enum,
        0 <= k < decl.body->Enum_0@.len(),
        decl.body->Enum_0@[k].discriminant is None,
        forall|i: int| 0 <= i < k ==> (#[trigger] decl.body->Enum_0@[i].discriminant) is Some,
    ensures
        derive_spec(reg, decl) == Err::<Desc, ErrorView>(
            decl_error(decl, ReflectErrorKind::MissingDiscriminant, Some(decl.body->Enum_0@[k].name@)),
        ),
{
    let vs = decl.body->Enum_0@;
    lemma_items_prefix_ok(vs, k as nat);
    lemma_items_error_persists(vs, (k + 1) as nat, vs.len());
}

proof fn lemma_items_prefix_ok(vs: Seq<Variant>, n: nat)
    requires
        n <= vs.len(),
        forall|i: int| 0 <= i < n ==> (#[trigger] vs[i].discriminant) is Some,
    ensures
        items_spec(vs, n) is Ok,
    decreases n,
{
    if n > 0 {
        lemma_items_prefix_ok(vs, (n - 1) as nat);
        assert(vs[n - 1].discriminant is Some);
    }
}

/// A transparent wrapper whose single member is not a primitive is rejected.
pub proof fn lemma_transparent_non_primitive(reg: RegistryView, decl: TypeDecl)
    requires
        decl_repr(decl) == Some(Repr::Transparent),
        decl.body is Struct,
        decl.body->Struct_0@.len() == 1,
        !(decl.body->Struct_0@[0].ty.view() is Named) || primitive_named(
            decl.body->Struct_0@[0].ty.view()->Named_0,
        ) is None,
    ensures
        derive_spec(reg, decl) == Err::<Desc, ErrorView>(
            decl_error(decl, ReflectErrorKind::InvalidTransparentWrapper, None),
        ),
{
}

} // verus!
