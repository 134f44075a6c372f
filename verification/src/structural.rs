//! Structural equality and deep copies of the type tree.
//!
//! Structural equality — same variant, same fields, constants, base types,
//! sizes and alignments in the same order — is equality of the
//! mathematical models, and is what the merge algorithm compares.

use vstd::prelude::*;

use crate::enum_decl::{view_enum_constant, view_enum_decl, EnumConstant, EnumDecl};
use crate::field::{lemma_view_field_seq, view_field, view_field_seq, Field};
use crate::kind::{lemma_view_kind_seq, view_kind, view_kind_seq, TypeKind};
use crate::struct_decl::{
    lemma_view_struct_field_seq, view_struct_decl, view_struct_field, view_struct_field_seq,
    StructDecl, StructField,
};
use crate::text::{opt_name_eq, str_eq};
use crate::typedef::{view_typedef, Typedef};
use crate::union_decl::{view_union_decl, UnionDecl};

verus! {

/// Structural equality of two types.
pub(crate) fn eq_kind(a: &TypeKind, b: &TypeKind) -> (r: bool)
    ensures
        r == (a@ == b@),
    decreases *a,
{
    proof {
        reveal_with_fuel(view_kind, 2);
    }
    match (a, b) {
        (TypeKind::USize { size: x }, TypeKind::USize { size: y }) => x == y,
        (TypeKind::SSize { size: x }, TypeKind::SSize { size: y }) => x == y,
        (TypeKind::U64, TypeKind::U64) => true,
        (TypeKind::U32, TypeKind::U32) => true,
        (TypeKind::U16, TypeKind::U16) => true,
        (TypeKind::U8, TypeKind::U8) => true,
        (TypeKind::S64, TypeKind::S64) => true,
        (TypeKind::S32, TypeKind::S32) => true,
        (TypeKind::S16, TypeKind::S16) => true,
        (TypeKind::S8, TypeKind::S8) => true,
        (TypeKind::F32, TypeKind::F32) => true,
        (TypeKind::F64, TypeKind::F64) => true,
        (
            TypeKind::LongDouble { size: x, alignment: xa },
            TypeKind::LongDouble { size: y, alignment: ya },
        ) => x == y && xa == ya,
        (TypeKind::Char16, TypeKind::Char16) => true,
        (TypeKind::Char32, TypeKind::Char32) => true,
        (TypeKind::WChar { size: x }, TypeKind::WChar { size: y }) => x == y,
        (TypeKind::Bool, TypeKind::Bool) => true,
        (TypeKind::Void, TypeKind::Void) => true,
        (
            TypeKind::Reference { size: x, referenced_type: t1 },
            TypeKind::Reference { size: y, referenced_type: t2 },
        ) => *x == *y && eq_kind(t1, t2),
        (
            TypeKind::Pointer { size: x, pointee_type: t1 },
            TypeKind::Pointer { size: y, pointee_type: t2 },
        ) => *x == *y && eq_kind(t1, t2),
        (
            TypeKind::MemberPointer { size: x, pointee_type: t1, record_name: n1 },
            TypeKind::MemberPointer { size: y, pointee_type: t2, record_name: n2 },
        ) => *x == *y && eq_kind(t1, t2) && str_eq(n1.as_str(), n2.as_str()),
        (
            TypeKind::Array { element_type: t1, size: s1 },
            TypeKind::Array { element_type: t2, size: s2 },
        ) => {
            let size_eq = match (s1, s2) {
                (Some(x), Some(y)) => *x == *y,
                (None, None) => true,
                _ => false,
            };
            size_eq && eq_kind(t1, t2)
        },
        (
            TypeKind::Function { return_type: r1, parameters: p1 },
            TypeKind::Function { return_type: r2, parameters: p2 },
        ) => eq_kind(r1, r2) && eq_kind_vec(p1, p2),
        (TypeKind::Struct(d1), TypeKind::Struct(d2)) => eq_struct_decl(d1, d2),
        (TypeKind::Class(d1), TypeKind::Class(d2)) => eq_struct_decl(d1, d2),
        (TypeKind::Union(d1), TypeKind::Union(d2)) => eq_union_decl(d1, d2),
        (TypeKind::Enum(d1), TypeKind::Enum(d2)) => eq_enum_decl(d1, d2),
        (TypeKind::Typedef(d1), TypeKind::Typedef(d2)) => eq_typedef(d1, d2),
        (TypeKind::Named(n1), TypeKind::Named(n2)) => str_eq(n1.as_str(), n2.as_str()),
        _ => false,
    }
}

fn eq_kind_vec(a: &Vec<TypeKind>, b: &Vec<TypeKind>) -> (r: bool)
    ensures
        r == (view_kind_seq(a@) == view_kind_seq(b@)),
    decreases a@,
{
    proof {
        lemma_view_kind_seq(a@);
        lemma_view_kind_seq(b@);
    }
    if a.len() != b.len() {
        return false;
    }
    let mut i: usize = 0;
    while i < a.len()
        invariant
            a@.len() == b@.len(),
            0 <= i <= a@.len(),
            view_kind_seq(a@).len() == a@.len(),
            view_kind_seq(b@).len() == b@.len(),
            forall|j: int| 0 <= j < a@.len() ==> #[trigger] view_kind_seq(a@)[j] == view_kind(
                a@[j],
            ),
            forall|j: int| 0 <= j < b@.len() ==> #[trigger] view_kind_seq(b@)[j] == view_kind(
                b@[j],
            ),
            forall|j: int| 0 <= j < i ==> view_kind(a@[j]) == view_kind(b@[j]),
        decreases a@.len() - i,
    {
        if !eq_kind(&a[i], &b[i]) {
            proof {
                assert(view_kind_seq(a@)[i as int] != view_kind_seq(b@)[i as int]);
            }
            return false;
        }
        i = i + 1;
    }
    proof {
        assert(view_kind_seq(a@) =~= view_kind_seq(b@));
    }
    true
}

pub(crate) fn eq_field(a: &Field, b: &Field) -> (r: bool)
    ensures
        r == (a@ == b@),
    decreases *a,
{
    let names = opt_name_eq(&a.name, &b.name);
    let widths = match (a.bit_field_width, b.bit_field_width) {
        (Some(x), Some(y)) => x == y,
        (None, None) => true,
        _ => false,
    };
    names && widths && a.constant == b.constant && a.volatile == b.volatile && eq_kind(
        &a.kind,
        &b.kind,
    )
}

fn eq_field_vec(a: &Vec<Field>, b: &Vec<Field>) -> (r: bool)
    ensures
        r == (view_field_seq(a@) == view_field_seq(b@)),
    decreases a@,
{
    proof {
        lemma_view_field_seq(a@);
        lemma_view_field_seq(b@);
    }
    if a.len() != b.len() {
        return false;
    }
    let mut i: usize = 0;
    while i < a.len()
        invariant
            a@.len() == b@.len(),
            0 <= i <= a@.len(),
            view_field_seq(a@).len() == a@.len(),
            view_field_seq(b@).len() == b@.len(),
            forall|j: int| 0 <= j < a@.len() ==> #[trigger] view_field_seq(a@)[j] == view_field(
                a@[j],
            ),
            forall|j: int| 0 <= j < b@.len() ==> #[trigger] view_field_seq(b@)[j] == view_field(
                b@[j],
            ),
            forall|j: int| 0 <= j < i ==> view_field(a@[j]) == view_field(b@[j]),
        decreases a@.len() - i,
    {
        if !eq_field(&a[i], &b[i]) {
            proof {
                assert(view_field_seq(a@)[i as int] != view_field_seq(b@)[i as int]);
            }
            return false;
        }
        i = i + 1;
    }
    proof {
        assert(view_field_seq(a@) =~= view_field_seq(b@));
    }
    true
}

pub(crate) fn eq_struct_field(a: &StructField, b: &StructField) -> (r: bool)
    ensures
        r == (a@ == b@),
    decreases *a,
{
    a.offset == b.offset && eq_field(&a.field, &b.field)
}

fn eq_struct_field_vec(a: &Vec<StructField>, b: &Vec<StructField>) -> (r: bool)
    ensures
        r == (view_struct_field_seq(a@) == view_struct_field_seq(b@)),
    decreases a@,
{
    proof {
        lemma_view_struct_field_seq(a@);
        lemma_view_struct_field_seq(b@);
    }
    if a.len() != b.len() {
        return false;
    }
    let mut i: usize = 0;
    while i < a.len()
        invariant
            a@.len() == b@.len(),
            0 <= i <= a@.len(),
            view_struct_field_seq(a@).len() == a@.len(),
            view_struct_field_seq(b@).len() == b@.len(),
            forall|j: int| 0 <= j < a@.len() ==> #[trigger] view_struct_field_seq(a@)[j]
                == view_struct_field(a@[j]),
            forall|j: int| 0 <= j < b@.len() ==> #[trigger] view_struct_field_seq(b@)[j]
                == view_struct_field(b@[j]),
            forall|j: int| 0 <= j < i ==> view_struct_field(a@[j]) == view_struct_field(b@[j]),
        decreases a@.len() - i,
    {
        if !eq_struct_field(&a[i], &b[i]) {
            proof {
                assert(view_struct_field_seq(a@)[i as int] != view_struct_field_seq(b@)[i as int]);
            }
            return false;
        }
        i = i + 1;
    }
    proof {
        assert(view_struct_field_seq(a@) =~= view_struct_field_seq(b@));
    }
    true
}

fn eq_string_vec(a: &Vec<String>, b: &Vec<String>) -> (r: bool)
    ensures
        r == (a.deep_view() == b.deep_view()),
{
    proof {
        assert(a.deep_view().len() == a@.len());
        assert(b.deep_view().len() == b@.len());
        assert(forall|j: int| 0 <= j < a@.len() ==> #[trigger] a.deep_view()[j] == a@[j]@);
        assert(forall|j: int| 0 <= j < b@.len() ==> #[trigger] b.deep_view()[j] == b@[j]@);
    }
    if a.len() != b.len() {
        return false;
    }
    let mut i: usize = 0;
    while i < a.len()
        invariant
            a@.len() == b@.len(),
            0 <= i <= a@.len(),
            forall|j: int| 0 <= j < i ==> a@[j]@ == b@[j]@,
        decreases a@.len() - i,
    {
        if !str_eq(a[i].as_str(), b[i].as_str()) {
            assert(a.deep_view()[i as int] != b.deep_view()[i as int]);
            return false;
        }
        i = i + 1;
    }
    proof {
        assert(a.deep_view() =~= b.deep_view());
    }
    true
}

pub(crate) fn eq_struct_decl(a: &StructDecl, b: &StructDecl) -> (r: bool)
    ensures
        r == (a@ == b@),
    decreases *a,
{
    opt_name_eq(&a.name, &b.name) && a.size == b.size && a.alignment == b.alignment && a.is_class
        == b.is_class && eq_string_vec(&a.base_types, &b.base_types) && eq_struct_field_vec(
        &a.fields,
        &b.fields,
    )
}

pub(crate) fn eq_union_decl(a: &UnionDecl, b: &UnionDecl) -> (r: bool)
    ensures
        r == (a@ == b@),
    decreases *a,
{
    opt_name_eq(&a.name, &b.name) && a.size == b.size && a.alignment == b.alignment && eq_field_vec(
        &a.fields,
        &b.fields,
    )
}

pub(crate) fn eq_enum_decl(a: &EnumDecl, b: &EnumDecl) -> (r: bool)
    ensures
        r == (a@ == b@),
{
    proof {
        assert(a@.constants.len() == a.constants@.len());
        assert(b@.constants.len() == b.constants@.len());
        assert(forall|j: int| 0 <= j < a.constants@.len() ==> #[trigger] a@.constants[j]
            == view_enum_constant(a.constants@[j]));
        assert(forall|j: int| 0 <= j < b.constants@.len() ==> #[trigger] b@.constants[j]
            == view_enum_constant(b.constants@[j]));
    }
    if !(opt_name_eq(&a.name, &b.name) && a.size == b.size && a.constants.len()
        == b.constants.len()) {
        return false;
    }
    let mut i: usize = 0;
    while i < a.constants.len()
        invariant
            a@.name == b@.name,
            a@.size == b@.size,
            a.constants@.len() == b.constants@.len(),
            0 <= i <= a.constants@.len(),
            forall|j: int| 0 <= j < i ==> view_enum_constant(a.constants@[j]) == view_enum_constant(
                b.constants@[j],
            ),
        decreases a.constants@.len() - i,
    {
        let x = &a.constants[i];
        let y = &b.constants[i];
        if !(str_eq(x.name.as_str(), y.name.as_str()) && x.value == y.value) {
            assert(a@.constants[i as int] != b@.constants[i as int]);
            return false;
        }
        i = i + 1;
    }
    proof {
        assert(a@.constants =~= b@.constants);
    }
    true
}

pub(crate) fn eq_typedef(a: &Typedef, b: &Typedef) -> (r: bool)
    ensures
        r == (a@ == b@),
    decreases *a,
{
    str_eq(a.name.as_str(), b.name.as_str()) && a.constant == b.constant && a.volatile
        == b.volatile && eq_kind(&a.underlying_type, &b.underlying_type)
}

fn clone_opt_name(n: &Option<String>) -> (r: Option<String>)
    ensures
        r.deep_view() == n.deep_view(),
{
    match n {
        Some(s) => Some(s.clone()),
        None => None,
    }
}

fn clone_string_vec(v: &Vec<String>) -> (r: Vec<String>)
    ensures
        r.deep_view() == v.deep_view(),
{
    proof {
        assert(v.deep_view().len() == v@.len());
        assert(forall|j: int| 0 <= j < v@.len() ==> #[trigger] v.deep_view()[j] == v@[j]@);
    }
    let mut out: Vec<String> = Vec::new();
    let mut i: usize = 0;
    while i < v.len()
        invariant
            0 <= i <= v@.len(),
            out@.len() == i,
            forall|j: int| 0 <= j < i ==> #[trigger] out@[j]@ == v@[j]@,
        decreases v@.len() - i,
    {
        out.push(v[i].clone());
        i = i + 1;
    }
    proof {
        assert(out.deep_view().len() == out@.len());
        assert(forall|j: int| 0 <= j < out@.len() ==> #[trigger] out.deep_view()[j] == out@[j]@);
        assert(out.deep_view() =~= v.deep_view());
    }
    out
}

pub(crate) fn clone_kind(t: &TypeKind) -> (r: TypeKind)
    ensures
        r@ == t@,
    decreases *t,
{
    proof {
        reveal_with_fuel(view_kind, 2);
    }
    match t {
        TypeKind::USize { size } => TypeKind::USize { size: *size },
        TypeKind::SSize { size } => TypeKind::SSize { size: *size },
        TypeKind::U64 => TypeKind::U64,
        TypeKind::U32 => TypeKind::U32,
        TypeKind::U16 => TypeKind::U16,
        TypeKind::U8 => TypeKind::U8,
        TypeKind::S64 => TypeKind::S64,
        TypeKind::S32 => TypeKind::S32,
        TypeKind::S16 => TypeKind::S16,
        TypeKind::S8 => TypeKind::S8,
        TypeKind::F32 => TypeKind::F32,
        TypeKind::F64 => TypeKind::F64,
        TypeKind::LongDouble { size, alignment } => (TypeKind::LongDouble {
            size: *size,
            alignment: *alignment,
        }),
        TypeKind::Char16 => TypeKind::Char16,
        TypeKind::Char32 => TypeKind::Char32,
        TypeKind::WChar { size } => TypeKind::WChar { size: *size },
        TypeKind::Bool => TypeKind::Bool,
        TypeKind::Void => TypeKind::Void,
        TypeKind::Reference { size, referenced_type } => (TypeKind::Reference {
            size: *size,
            referenced_type: Box::new(clone_kind(referenced_type)),
        }),
        TypeKind::Pointer { size, pointee_type } => (TypeKind::Pointer {
            size: *size,
            pointee_type: Box::new(clone_kind(pointee_type)),
        }),
        TypeKind::MemberPointer { size, pointee_type, record_name } => (TypeKind::MemberPointer {
            size: *size,
            pointee_type: Box::new(clone_kind(pointee_type)),
            record_name: record_name.clone(),
        }),
        TypeKind::Array { element_type, size } => (TypeKind::Array {
            element_type: Box::new(clone_kind(element_type)),
            size: *size,
        }),
        TypeKind::Function { return_type, parameters } => (TypeKind::Function {
            return_type: Box::new(clone_kind(return_type)),
            parameters: clone_kind_vec(parameters),
        }),
        TypeKind::Struct(d) => TypeKind::Struct(clone_struct_decl(d)),
        TypeKind::Class(d) => TypeKind::Class(clone_struct_decl(d)),
        TypeKind::Union(d) => TypeKind::Union(clone_union_decl(d)),
        TypeKind::Enum(d) => TypeKind::Enum(clone_enum_decl(d)),
        TypeKind::Typedef(d) => TypeKind::Typedef(Box::new(clone_typedef(d))),
        TypeKind::Named(name) => TypeKind::Named(name.clone()),
    }
}

fn clone_kind_vec(v: &Vec<TypeKind>) -> (r: Vec<TypeKind>)
    ensures
        view_kind_seq(r@) == view_kind_seq(v@),
    decreases v@,
{
    proof {
        lemma_view_kind_seq(v@);
    }
    let mut out: Vec<TypeKind> = Vec::new();
    let mut i: usize = 0;
    while i < v.len()
        invariant
            0 <= i <= v@.len(),
            out@.len() == i,
            forall|j: int| 0 <= j < i ==> view_kind(out@[j]) == view_kind(v@[j]),
        decreases v@.len() - i,
    {
        out.push(clone_kind(&v[i]));
        i = i + 1;
    }
    proof {
        lemma_view_kind_seq(out@);
        assert(view_kind_seq(out@) =~= view_kind_seq(v@));
    }
    out
}

pub(crate) fn clone_field(f: &Field) -> (r: Field)
    ensures
        r@ == f@,
    decreases *f,
{
    Field {
        name: clone_opt_name(&f.name),
        kind: clone_kind(&f.kind),
        constant: f.constant,
        volatile: f.volatile,
        bit_field_width: f.bit_field_width,
    }
}

fn clone_field_vec(v: &Vec<Field>) -> (r: Vec<Field>)
    ensures
        view_field_seq(r@) == view_field_seq(v@),
    decreases v@,
{
    proof {
        lemma_view_field_seq(v@);
    }
    let mut out: Vec<Field> = Vec::new();
    let mut i: usize = 0;
    while i < v.len()
        invariant
            0 <= i <= v@.len(),
            out@.len() == i,
            forall|j: int| 0 <= j < i ==> view_field(out@[j]) == view_field(v@[j]),
        decreases v@.len() - i,
    {
        out.push(clone_field(&v[i]));
        i = i + 1;
    }
    proof {
        lemma_view_field_seq(out@);
        assert(view_field_seq(out@) =~= view_field_seq(v@));
    }
    out
}

pub(crate) fn clone_struct_field(f: &StructField) -> (r: StructField)
    ensures
        r@ == f@,
    decreases *f,
{
    StructField { offset: f.offset, field: clone_field(&f.field) }
}

fn clone_struct_field_vec(v: &Vec<StructField>) -> (r: Vec<StructField>)
    ensures
        view_struct_field_seq(r@) == view_struct_field_seq(v@),
    decreases v@,
{
    proof {
        lemma_view_struct_field_seq(v@);
    }
    let mut out: Vec<StructField> = Vec::new();
    let mut i: usize = 0;
    while i < v.len()
        invariant
            0 <= i <= v@.len(),
            out@.len() == i,
            forall|j: int| 0 <= j < i ==> view_struct_field(out@[j]) == view_struct_field(v@[j]),
        decreases v@.len() - i,
    {
        out.push(clone_struct_field(&v[i]));
        i = i + 1;
    }
    proof {
        lemma_view_struct_field_seq(out@);
        assert(view_struct_field_seq(out@) =~= view_struct_field_seq(v@));
    }
    out
}

pub(crate) fn clone_struct_decl(d: &StructDecl) -> (r: StructDecl)
    ensures
        r@ == d@,
    decreases *d,
{
    StructDecl {
        name: clone_opt_name(&d.name),
        base_types: clone_string_vec(&d.base_types),
        fields: clone_struct_field_vec(&d.fields),
        size: d.size,
        alignment: d.alignment,
        is_class: d.is_class,
    }
}

pub(crate) fn clone_union_decl(d: &UnionDecl) -> (r: UnionDecl)
    ensures
        r@ == d@,
    decreases *d,
{
    UnionDecl {
        name: clone_opt_name(&d.name),
        fields: clone_field_vec(&d.fields),
        size: d.size,
        alignment: d.alignment,
    }
}

pub(crate) fn clone_enum_decl(d: &EnumDecl) -> (r: EnumDecl)
    ensures
        r@ == d@,
{
    proof {
        assert(d@.constants.len() == d.constants@.len());
        assert(forall|j: int| 0 <= j < d.constants@.len() ==> #[trigger] d@.constants[j]
            == view_enum_constant(d.constants@[j]));
    }
    let mut constants: Vec<EnumConstant> = Vec::new();
    let mut i: usize = 0;
    while i < d.constants.len()
        invariant
            0 <= i <= d.constants@.len(),
            constants@.len() == i,
            forall|j: int| 0 <= j < i ==> view_enum_constant(constants@[j]) == view_enum_constant(
                d.constants@[j],
            ),
        decreases d.constants@.len() - i,
    {
        let c = &d.constants[i];
        constants.push(EnumConstant { name: c.name.clone(), value: c.value });
        i = i + 1;
    }
    let r = EnumDecl { name: clone_opt_name(&d.name), constants, size: d.size };
    proof {
        assert(r@.constants.len() == r.constants@.len());
        assert(forall|j: int| 0 <= j < r.constants@.len() ==> #[trigger] r@.constants[j]
            == view_enum_constant(r.constants@[j]));
        assert(r@.constants =~= d@.constants);
    }
    r
}

pub(crate) fn clone_typedef(d: &Typedef) -> (r: Typedef)
    ensures
        r@ == d@,
    decreases *d,
{
    Typedef {
        name: d.name.clone(),
        underlying_type: clone_kind(&d.underlying_type),
        constant: d.constant,
        volatile: d.volatile,
    }
}

impl PartialEq for TypeKind {
    /// Structural equality: equality of the mathematical models.
    fn eq(&self, other: &Self) -> (r: bool) {
        eq_kind(self, other)
    }
}

impl Eq for TypeKind {

}

impl vstd::std_specs::cmp::PartialEqSpecImpl for TypeKind {
    open spec fn obeys_eq_spec() -> bool {
        true
    }

    open spec fn eq_spec(&self, other: &TypeKind) -> bool {
        self@ == other@
    }
}

impl PartialEq for Field {
    /// Structural equality: equality of the mathematical models.
    fn eq(&self, other: &Self) -> (r: bool) {
        eq_field(self, other)
    }
}

impl Eq for Field {

}

impl vstd::std_specs::cmp::PartialEqSpecImpl for Field {
    open spec fn obeys_eq_spec() -> bool {
        true
    }

    open spec fn eq_spec(&self, other: &Field) -> bool {
        self@ == other@
    }
}

impl PartialEq for StructField {
    /// Structural equality: equality of the mathematical models.
    fn eq(&self, other: &Self) -> (r: bool) {
        eq_struct_field(self, other)
    }
}

impl Eq for StructField {

}

impl vstd::std_specs::cmp::PartialEqSpecImpl for StructField {
    open spec fn obeys_eq_spec() -> bool {
        true
    }

    open spec fn eq_spec(&self, other: &StructField) -> bool {
        self@ == other@
    }
}

impl PartialEq for StructDecl {
    /// Structural equality: equality of the mathematical models.
    fn eq(&self, other: &Self) -> (r: bool) {
        eq_struct_decl(self, other)
    }
}

impl Eq for StructDecl {

}

impl vstd::std_specs::cmp::PartialEqSpecImpl for StructDecl {
    open spec fn obeys_eq_spec() -> bool {
        true
    }

    open spec fn eq_spec(&self, other: &StructDecl) -> bool {
        self@ == other@
    }
}

impl PartialEq for UnionDecl {
    /// Structural equality: equality of the mathematical models.
    fn eq(&self, other: &Self) -> (r: bool) {
        eq_union_decl(self, other)
    }
}

impl Eq for UnionDecl {

}

impl vstd::std_specs::cmp::PartialEqSpecImpl for UnionDecl {
    open spec fn obeys_eq_spec() -> bool {
        true
    }

    open spec fn eq_spec(&self, other: &UnionDecl) -> bool {
        self@ == other@
    }
}

impl PartialEq for EnumDecl {
    /// Structural equality: equality of the mathematical models.
    fn eq(&self, other: &Self) -> (r: bool) {
        eq_enum_decl(self, other)
    }
}

impl Eq for EnumDecl {

}

impl vstd::std_specs::cmp::PartialEqSpecImpl for EnumDecl {
    open spec fn obeys_eq_spec() -> bool {
        true
    }

    open spec fn eq_spec(&self, other: &EnumDecl) -> bool {
        self@ == other@
    }
}

impl PartialEq for EnumConstant {
    /// Structural equality: equality of the mathematical models.
    fn eq(&self, other: &Self) -> (r: bool) {
        str_eq(self.name.as_str(), other.name.as_str()) && self.value == other.value
    }
}

impl Eq for EnumConstant {

}

impl vstd::std_specs::cmp::PartialEqSpecImpl for EnumConstant {
    open spec fn obeys_eq_spec() -> bool {
        true
    }

    open spec fn eq_spec(&self, other: &EnumConstant) -> bool {
        self@ == other@
    }
}

impl PartialEq for Typedef {
    /// Structural equality: equality of the mathematical models.
    fn eq(&self, other: &Self) -> (r: bool) {
        eq_typedef(self, other)
    }
}

impl Eq for Typedef {

}

impl vstd::std_specs::cmp::PartialEqSpecImpl for Typedef {
    open spec fn obeys_eq_spec() -> bool {
        true
    }

    open spec fn eq_spec(&self, other: &Typedef) -> bool {
        self@ == other@
    }
}

impl Clone for TypeKind {
    /// A deep copy with an equal mathematical model.
    fn clone(&self) -> (res: Self)
        ensures
            res@ == self@,
    {
        clone_kind(self)
    }
}

impl Clone for Field {
    /// A deep copy with an equal mathematical model.
    fn clone(&self) -> (res: Self)
        ensures
            res@ == self@,
    {
        clone_field(self)
    }
}

impl Clone for StructField {
    /// A deep copy with an equal mathematical model.
    fn clone(&self) -> (res: Self)
        ensures
            res@ == self@,
    {
        clone_struct_field(self)
    }
}

impl Clone for StructDecl {
    /// A deep copy with an equal mathematical model.
    fn clone(&self) -> (res: Self)
        ensures
            res@ == self@,
    {
        clone_struct_decl(self)
    }
}

impl Clone for UnionDecl {
    /// A deep copy with an equal mathematical model.
    fn clone(&self) -> (res: Self)
        ensures
            res@ == self@,
    {
        clone_union_decl(self)
    }
}

impl Clone for EnumDecl {
    /// A deep copy with an equal mathematical model.
    fn clone(&self) -> (res: Self)
        ensures
            res@ == self@,
    {
        clone_enum_decl(self)
    }
}

impl Clone for EnumConstant {
    /// A deep copy with an equal mathematical model.
    fn clone(&self) -> (res: Self)
        ensures
            res@ == self@,
    {
        EnumConstant { name: self.name.clone(), value: self.value }
    }
}

impl Clone for Typedef {
    /// A deep copy with an equal mathematical model.
    fn clone(&self) -> (res: Self)
        ensures
            res@ == self@,
    {
        clone_typedef(self)
    }
}

} // verus!
