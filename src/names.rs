//! Rendering of numbers and synthesis of the names of compound types.
use vstd::prelude::*;

use crate::decl::{TypeRef, TypeRefView};

verus! {

/// The decimal digit for `d`, which is below ten.
pub open spec fn digit_char(d: nat) -> char {
    if d == 0 {
        '0'
    } else if d == 1 {
        '1'
    } else if d == 2 {
        '2'
    } else if d == 3 {
        '3'
    } else if d == 4 {
        '4'
    } else if d == 5 {
        '5'
    } else if d == 6 {
        '6'
    } else if d == 7 {
        '7'
    } else if d == 8 {
        '8'
    } else {
        '9'
    }
}

/// `n` written in decimal, without leading zeros.
pub open spec fn decimal_text(n: nat) -> Seq<char>
    decreases n,
{
    if n < 10 {
        seq![digit_char(n)]
    } else {
        decimal_text(n / 10).push(digit_char(n % 10))
    }
}

/// `v` written in decimal, with a leading minus sign when it is negative.
pub open spec fn signed_decimal_text(v: int) -> Seq<char> {
    if v < 0 {
        seq!['-'] + decimal_text((-v) as nat)
    } else {
        decimal_text(v as nat)
    }
}

/// The name of a member: its declared name, or `item_<index>` for a
/// positional member.
pub open spec fn member_name_text(name: Option<Seq<char>>, index: nat) -> Seq<char> {
    match name {
        Some(n) => n,
        None => "item_"@ + decimal_text(index),
    }
}

/// The name under which a type appears inside a synthesized name.
pub open spec fn type_text(t: TypeRefView) -> Seq<char>
    decreases t,
{
    match t {
        TypeRefView::Named(n) => n,
        TypeRefView::Array(e, Some(len)) => "ArrayOf"@ + decimal_text(len) + type_text(*e),
        TypeRefView::Array(e, None) => "ArrayOf"@ + type_text(*e),
        TypeRefView::Pointer(p, true) => "ConstPtrTo"@ + type_text(*p),
        TypeRefView::Pointer(p, false) => "MutPtrTo"@ + type_text(*p),
        TypeRefView::Unsupported(s) => s,
    }
}

/// The synthesized name of an array of `len` elements of type `elem`.
pub open spec fn array_name_text(elem: TypeRefView, len: nat) -> Seq<char> {
    "ArrayOf"@ + decimal_text(len) + type_text(elem)
}

fn digit_str(d: u128) -> (r: &'static str)
    requires
        d < 10,
    ensures
        r@ == seq![digit_char(d as nat)],
{
    proof {
        reveal_strlit("0");
        reveal_strlit("1");
        reveal_strlit("2");
        reveal_strlit("3");
        reveal_strlit("4");
        reveal_strlit("5");
        reveal_strlit("6");
        reveal_strlit("7");
        reveal_strlit("8");
        reveal_strlit("9");
    }
    if d == 0 {
        "0"
    } else if d == 1 {
        "1"
    } else if d == 2 {
        "2"
    } else if d == 3 {
        "3"
    } else if d == 4 {
        "4"
    } else if d == 5 {
        "5"
    } else if d == 6 {
        "6"
    } else if d == 7 {
        "7"
    } else if d == 8 {
        "8"
    } else {
        "9"
    }
}

/// Appends `n` in decimal to `s`.
pub fn push_decimal(s: &mut String, n: u128)
    ensures
        final(s)@ == old(s)@ + decimal_text(n as nat),
    decreases n,
{
    if n >= 10 {
        push_decimal(s, n / 10);
    }
    s.append(digit_str(n % 10));
    assert(old(s)@ + decimal_text(n as nat) =~= final(s)@);
}

/// `v` in decimal, with a leading minus sign when it is negative.
pub fn signed_decimal(v: i128) -> (r: String)
    ensures
        r@ == signed_decimal_text(v as int),
{
    let mut s = String::new();
    if v < 0 {
        proof {
            reveal_strlit("-");
        }
        s.append("-");
        let m: u128 = if v == i128::MIN {
            170141183460469231731687303715884105728u128
        } else {
            (-v) as u128
        };
        push_decimal(&mut s, m);
        assert(s@ =~= signed_decimal_text(v as int));
    } else {
        push_decimal(&mut s, v as u128);
        assert(s@ =~= signed_decimal_text(v as int));
    }
    s
}

/// The name of member `index`: the given name, or `item_<index>`.
pub fn member_name(name: &Option<String>, index: usize) -> (r: String)
    ensures
        r@ == member_name_text(
            match name {
                Some(n) => Some(n@),
                None => None,
            },
            index as nat,
        ),
{
    match name {
        Some(n) => n.clone(),
        None => {
            let mut s = String::from_str("item_");
            push_decimal(&mut s, index as u128);
            s
        },
    }
}

/// Appends the name under which `t` appears in synthesized names.
fn push_type_text(s: &mut String, t: &TypeRef)
    ensures
        final(s)@ == old(s)@ + type_text(t.view()),
    decreases t,
{
    match t {
        TypeRef::Named(n) => {
            s.append(n.as_str());
        },
        TypeRef::Array(e, Some(len)) => {
            s.append("ArrayOf");
            push_decimal(s, *len as u128);
            push_type_text(s, e);
        },
        TypeRef::Array(e, None) => {
            s.append("ArrayOf");
            push_type_text(s, e);
        },
        TypeRef::Pointer(p, is_const) => {
            if *is_const {
                s.append("ConstPtrTo");
            } else {
                s.append("MutPtrTo");
            }
            push_type_text(s, p);
        },
        TypeRef::Unsupported(u) => {
            s.append(u.as_str());
        },
    }
    assert(final(s)@ =~= old(s)@ + type_text(t.view()));
}

/// The synthesized name of an array of `len` elements of type `elem`:
/// `ArrayOf`, the length in decimal, then the element's name.
pub fn array_type_name(elem: &TypeRef, len: usize) -> (r: String)
    ensures
        r@ == array_name_text(elem.view(), len as nat),
{
    let mut s = String::from_str("ArrayOf");
    push_decimal(&mut s, len as u128);
    push_type_text(&mut s, elem);
    assert(s@ =~= array_name_text(elem.view(), len as nat));
    s
}

} // verus!
