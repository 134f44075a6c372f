//! The recursive variant representing any C/C++ type, and its
//! size/alignment algebra.

use vstd::prelude::*;

use crate::enum_decl::{spec_new_enum, EnumDecl, EnumDeclV};
use crate::env::Env;
use crate::error::{ParseError, ParseErrorV};
use crate::field::view_field;
use crate::info::{
    view_info_seq, view_type_info, RecordKind, TypeInfo, TypeInfoV, TypeShape, TypeShapeV,
};
use crate::struct_decl::{spec_new_struct, StructDecl, StructDeclV};
use crate::table::{lookup, TableV, Types};
use crate::text::str_eq;
use crate::typedef::{Typedef, TypedefV};
use crate::union_decl::{spec_new_union, UnionDecl, UnionDeclV};

verus! {

/// A C/C++ type.
///
/// Aggregates are inlined only when anonymous; anything with a top-level
/// name is represented as [`TypeKind::Named`] and resolved through the
/// symbol table at query time, which keeps self-referential and
/// forward-declared types representable without cyclic ownership.
#[derive(Debug)]
pub enum TypeKind {
    /// An unsigned word-sized integer; `size` is fixed at construction
    /// from the environment's word width.
    USize { size: usize },
    /// A signed word-sized integer.
    SSize { size: usize },
    U64,
    U32,
    U16,
    U8,
    S64,
    S32,
    S16,
    S8,
    F32,
    F64,
    LongDouble { size: usize, alignment: usize },
    Char16,
    Char32,
    WChar { size: usize },
    Bool,
    Void,
    Reference { size: usize, referenced_type: Box<TypeKind> },
    Pointer { size: usize, pointee_type: Box<TypeKind> },
    /// A pointer to a member of the record called `record_name`; the record
    /// is referenced by name because it may not be fully defined yet.
    MemberPointer { size: usize, pointee_type: Box<TypeKind>, record_name: String },
    /// An array; `size` is the element count, `None` for an incomplete
    /// (flexible) array.
    Array { element_type: Box<TypeKind>, size: Option<usize> },
    /// A function type; never sized, only meaningful behind a pointer.
    Function { return_type: Box<TypeKind>, parameters: Vec<TypeKind> },
    Struct(StructDecl),
    Class(StructDecl),
    Union(UnionDecl),
    Enum(EnumDecl),
    Typedef(Box<Typedef>),
    /// A deferred, by-name reference into the enclosing symbol table.
    Named(String),
}

/// The mathematical model of a [`TypeKind`].
pub enum TypeKindV {
    USize { size: usize },
    SSize { size: usize },
    U64,
    U32,
    U16,
    U8,
    S64,
    S32,
    S16,
    S8,
    F32,
    F64,
    LongDouble { size: usize, alignment: usize },
    Char16,
    Char32,
    WChar { size: usize },
    Bool,
    Void,
    Reference { size: usize, referenced_type: Box<TypeKindV> },
    Pointer { size: usize, pointee_type: Box<TypeKindV> },
    MemberPointer { size: usize, pointee_type: Box<TypeKindV>, record_name: Seq<char> },
    Array { element_type: Box<TypeKindV>, size: Option<usize> },
    Function { return_type: Box<TypeKindV>, parameters: Seq<TypeKindV> },
    Struct(StructDeclV),
    Class(StructDeclV),
    Union(UnionDeclV),
    Enum(EnumDeclV),
    Typedef(Box<TypedefV>),
    Named(Seq<char>),
}

pub open spec fn view_kind_seq(s: Seq<TypeKind>) -> Seq<TypeKindV>
    decreases s,
{
    if s.len() == 0 {
        Seq::empty()
    } else {
        seq![view_kind(s[0])] + view_kind_seq(s.subrange(1, s.len() as int))
    }
}

pub open spec fn view_kind(t: TypeKind) -> TypeKindV
    decreases t,
{
    match t {
        TypeKind::USize { size } => TypeKindV::USize { size },
        TypeKind::SSize { size } => TypeKindV::SSize { size },
        TypeKind::U64 => TypeKindV::U64,
        TypeKind::U32 => TypeKindV::U32,
        TypeKind::U16 => TypeKindV::U16,
        TypeKind::U8 => TypeKindV::U8,
        TypeKind::S64 => TypeKindV::S64,
        TypeKind::S32 => TypeKindV::S32,
        TypeKind::S16 => TypeKindV::S16,
        TypeKind::S8 => TypeKindV::S8,
        TypeKind::F32 => TypeKindV::F32,
        TypeKind::F64 => TypeKindV::F64,
        TypeKind::LongDouble { size, alignment } => TypeKindV::LongDouble { size, alignment },
        TypeKind::Char16 => TypeKindV::Char16,
        TypeKind::Char32 => TypeKindV::Char32,
        TypeKind::WChar { size } => TypeKindV::WChar { size },
        TypeKind::Bool => TypeKindV::Bool,
        TypeKind::Void => TypeKindV::Void,
        TypeKind::Reference { size, referenced_type } => (TypeKindV::Reference {
            size,
            referenced_type: Box::new(view_kind(*referenced_type)),
        }),
        TypeKind::Pointer { size, pointee_type } => (TypeKindV::Pointer {
            size,
            pointee_type: Box::new(view_kind(*pointee_type)),
        }),
        TypeKind::MemberPointer { size, pointee_type, record_name } => (TypeKindV::MemberPointer {
            size,
            pointee_type: Box::new(view_kind(*pointee_type)),
            record_name: record_name@,
        }),
        TypeKind::Array { element_type, size } => (TypeKindV::Array {
            element_type: Box::new(view_kind(*element_type)),
            size,
        }),
        TypeKind::Function { return_type, parameters } => (TypeKindV::Function {
            return_type: Box::new(view_kind(*return_type)),
            parameters: view_kind_seq(parameters@),
        }),
        TypeKind::Struct(d) => TypeKindV::Struct(crate::struct_decl::view_struct_decl(d)),
        TypeKind::Class(d) => TypeKindV::Class(crate::struct_decl::view_struct_decl(d)),
        TypeKind::Union(d) => TypeKindV::Union(crate::union_decl::view_union_decl(d)),
        TypeKind::Enum(d) => TypeKindV::Enum(crate::enum_decl::view_enum_decl(d)),
        TypeKind::Typedef(d) => (TypeKindV::Typedef(
            Box::new(crate::typedef::view_typedef(*d)),
        )),
        TypeKind::Named(name) => TypeKindV::Named(name@),
    }
}

/// What constructing a type from one front-end snapshot yields: the type,
/// or the first error in front-end order.
///
/// Word-sized integers take the environment's word width; all other
/// scalars are fixed.  Pointers, references, member pointers, arrays and
/// function types are built recursively.  An elaborated reference to an
/// anonymous declaration is resolved through; one to a named declaration
/// becomes a by-name [`TypeKindV::Named`] reference (with `bool` mapped to
/// the builtin, since C defines it by name only).  Records and enums are
/// inlined, which construction only reaches when they are anonymous.  A
/// kind the model does not represent is reported, never defaulted.
pub open spec fn spec_new_kind(env: Env, e: TableV, t: TypeInfoV) -> Result<
    TypeKindV,
    ParseErrorV,
>
    decreases t,
{
    match t.shape {
        TypeShapeV::UnsignedLong => Ok(TypeKindV::USize { size: env.spec_word_bytes() }),
        TypeShapeV::SignedLong => Ok(TypeKindV::SSize { size: env.spec_word_bytes() }),
        TypeShapeV::UnsignedLongLong => Ok(TypeKindV::U64),
        TypeShapeV::UnsignedInt => Ok(TypeKindV::U32),
        TypeShapeV::UnsignedShort => Ok(TypeKindV::U16),
        TypeShapeV::UnsignedChar => Ok(TypeKindV::U8),
        TypeShapeV::SignedLongLong => Ok(TypeKindV::S64),
        TypeShapeV::SignedInt => Ok(TypeKindV::S32),
        TypeShapeV::SignedShort => Ok(TypeKindV::S16),
        TypeShapeV::CharSigned => Ok(TypeKindV::S8),
        TypeShapeV::CharUnsigned => Ok(TypeKindV::U8),
        TypeShapeV::Float => Ok(TypeKindV::F32),
        TypeShapeV::Double => Ok(TypeKindV::F64),
        TypeShapeV::LongDouble { size, alignment } => match size {
            None => Err(ParseErrorV::Sizeof { ty_name: t.display_name }),
            Some(s) => match alignment {
                None => Err(ParseErrorV::Alignof { ty_name: t.display_name }),
                Some(a) => Ok(TypeKindV::LongDouble { size: s, alignment: a }),
            },
        },
        TypeShapeV::Char16 => Ok(TypeKindV::Char16),
        TypeShapeV::Char32 => Ok(TypeKindV::Char32),
        TypeShapeV::WideChar { size } => match size {
            None => Err(ParseErrorV::Sizeof { ty_name: t.display_name }),
            Some(s) => Ok(TypeKindV::WChar { size: s }),
        },
        TypeShapeV::Bool => Ok(TypeKindV::Bool),
        TypeShapeV::Void => Ok(TypeKindV::Void),
        TypeShapeV::Pointer { size, pointee } => match pointee {
            None => Err(ParseErrorV::UnsupportedType { context: t.display_name }),
            Some(p) => match spec_new_kind(env, e, *p) {
                Err(er) => Err(er),
                Ok(inner) => match size {
                    None => Err(ParseErrorV::Sizeof { ty_name: t.display_name }),
                    Some(s) => Ok(
                        TypeKindV::Pointer { size: s, pointee_type: Box::new(inner) },
                    ),
                },
            },
        },
        TypeShapeV::Reference { size, pointee } => match pointee {
            None => Err(ParseErrorV::UnsupportedType { context: t.display_name }),
            Some(p) => match spec_new_kind(env, e, *p) {
                Err(er) => Err(er),
                Ok(inner) => match size {
                    None => Err(ParseErrorV::Sizeof { ty_name: t.display_name }),
                    Some(s) => Ok(
                        TypeKindV::Reference { size: s, referenced_type: Box::new(inner) },
                    ),
                },
            },
        },
        TypeShapeV::MemberPointer { size, pointee, record_name } => match pointee {
            None => Err(ParseErrorV::UnsupportedType { context: t.display_name }),
            Some(p) => match spec_new_kind(env, e, *p) {
                Err(er) => Err(er),
                Ok(inner) => match size {
                    None => Err(ParseErrorV::Sizeof { ty_name: t.display_name }),
                    Some(s) => match record_name {
                        None => Err(ParseErrorV::UnsupportedType { context: t.display_name }),
                        Some(rn) => Ok(
                            TypeKindV::MemberPointer {
                                size: s,
                                pointee_type: Box::new(inner),
                                record_name: rn,
                            },
                        ),
                    },
                },
            },
        },
        TypeShapeV::IncompleteArray { element } => match element {
            None => Err(ParseErrorV::UnsupportedType { context: t.display_name }),
            Some(el) => match spec_new_kind(env, e, *el) {
                Err(er) => Err(er),
                Ok(inner) => Ok(
                    TypeKindV::Array { element_type: Box::new(inner), size: None },
                ),
            },
        },
        TypeShapeV::FixedArray { element, len } => match element {
            None => Err(ParseErrorV::UnsupportedType { context: t.display_name }),
            Some(el) => match len {
                None => Err(ParseErrorV::UnsupportedType { context: t.display_name }),
                Some(n) => match spec_new_kind(env, e, *el) {
                    Err(er) => Err(er),
                    Ok(inner) => Ok(
                        TypeKindV::Array { element_type: Box::new(inner), size: Some(n) },
                    ),
                },
            },
        },
        TypeShapeV::Function { return_type, parameters } => match return_type {
            None => Err(ParseErrorV::UnsupportedType { context: t.display_name }),
            Some(rt) => match parameters {
                None => Err(ParseErrorV::UnsupportedType { context: t.display_name }),
                Some(ps) => match spec_new_kind(env, e, *rt) {
                    Err(er) => Err(er),
                    Ok(ret) => match spec_new_kind_seq(env, e, ps) {
                        Err(er) => Err(er),
                        Ok(params) => Ok(
                            TypeKindV::Function {
                                return_type: Box::new(ret),
                                parameters: params,
                            },
                        ),
                    },
                },
            },
        },
        TypeShapeV::Elaborated { target, decl } => match target {
            None => Err(ParseErrorV::UnsupportedType { context: t.display_name }),
            Some(tgt) => match decl {
                None => Err(ParseErrorV::UnsupportedType { context: t.display_name }),
                Some(d) => {
                    if d.anonymous {
                        spec_new_kind(env, e, *tgt)
                    } else {
                        match d.name {
                            None => Err(
                                ParseErrorV::UnsupportedType { context: t.display_name },
                            ),
                            Some(nm) => {
                                if nm == "bool"@ {
                                    Ok(TypeKindV::Bool)
                                } else {
                                    Ok(TypeKindV::Named(nm))
                                }
                            },
                        }
                    }
                },
            },
        },
        TypeShapeV::Record { decl } => match decl {
            None => Err(ParseErrorV::UnsupportedType { context: t.display_name }),
            Some(d) => match d.kind {
                crate::info::RecordKindV::Struct => match spec_new_struct(env, e, None, *d) {
                    Err(er) => Err(er),
                    Ok(sd) => Ok(TypeKindV::Struct(sd)),
                },
                crate::info::RecordKindV::Class => match spec_new_struct(env, e, None, *d) {
                    Err(er) => Err(er),
                    Ok(sd) => Ok(TypeKindV::Class(sd)),
                },
                crate::info::RecordKindV::Union => match spec_new_union(env, e, None, *d) {
                    Err(er) => Err(er),
                    Ok(ud) => Ok(TypeKindV::Union(ud)),
                },
                crate::info::RecordKindV::Other { kind_name } => Err(
                    ParseErrorV::UnsupportedEntity { at: "struct/union"@, context: kind_name },
                ),
            },
        },
        TypeShapeV::Enum { decl } => match decl {
            None => Err(ParseErrorV::UnsupportedType { context: t.display_name }),
            Some(d) => match spec_new_enum(d.name, *d) {
                Err(er) => Err(er),
                Ok(ed) => Ok(TypeKindV::Enum(ed)),
            },
        },
        TypeShapeV::Unsupported { .. } => Err(
            ParseErrorV::UnsupportedType { context: t.display_name },
        ),
    }
}

/// The parameter types built in order, stopping at the first error.
pub open spec fn spec_new_kind_seq(env: Env, e: TableV, ts: Seq<TypeInfoV>) -> Result<
    Seq<TypeKindV>,
    ParseErrorV,
>
    decreases ts,
{
    if ts.len() == 0 {
        Ok(Seq::empty())
    } else {
        match spec_new_kind(env, e, ts[0]) {
            Err(er) => Err(er),
            Ok(k) => match spec_new_kind_seq(env, e, ts.subrange(1, ts.len() as int)) {
                Err(er) => Err(er),
                Ok(rest) => Ok(seq![k] + rest),
            },
        }
    }
}

/// The least multiple of `a` that is at least `s`; `s` itself when `a` is
/// zero, so that alignment-free types have a stride equal to their size.
pub open spec fn round_up(s: int, a: int) -> int {
    if a <= 0 {
        s
    } else if s % a == 0 {
        s
    } else {
        s + (a - s % a)
    }
}

/// The byte size of a type, resolved against the table entries `e`.
///
/// `None` reports an unknown size: a function type, an incomplete array,
/// a name absent from the table, a by-name reference chain longer than
/// `fuel` (only possible for cyclic chains once `fuel` is the table size),
/// or a size beyond `usize`.
pub open spec fn spec_size(t: TypeKindV, e: TableV, fuel: nat) -> Option<usize>
    decreases fuel, t,
{
    match t {
        TypeKindV::USize { size } => Some(size),
        TypeKindV::SSize { size } => Some(size),
        TypeKindV::U64 => Some(8usize),
        TypeKindV::S64 => Some(8usize),
        TypeKindV::U32 => Some(4usize),
        TypeKindV::S32 => Some(4usize),
        TypeKindV::U16 => Some(2usize),
        TypeKindV::S16 => Some(2usize),
        TypeKindV::U8 => Some(1usize),
        TypeKindV::S8 => Some(1usize),
        TypeKindV::F32 => Some(4usize),
        TypeKindV::F64 => Some(8usize),
        TypeKindV::LongDouble { size, .. } => Some(size),
        TypeKindV::Char16 => Some(2usize),
        TypeKindV::Char32 => Some(4usize),
        TypeKindV::WChar { size } => Some(size),
        TypeKindV::Bool => Some(1usize),
        TypeKindV::Void => Some(0usize),
        TypeKindV::Reference { size, .. } => Some(size),
        TypeKindV::Pointer { size, .. } => Some(size),
        TypeKindV::MemberPointer { size, .. } => Some(size),
        TypeKindV::Array { element_type, size } => match size {
            Some(n) => match (
                spec_size(*element_type, e, fuel),
                spec_alignment(*element_type, e, fuel),
            ) {
                (Some(s), Some(a)) => {
                    let stride = round_up(s as int, a as int);
                    let total = (n as int) * stride;
                    if stride > usize::MAX as int {
                        None
                    } else if total > usize::MAX as int {
                        None
                    } else {
                        Some(total as usize)
                    }
                },
                _ => None,
            },
            None => None,
        },
        TypeKindV::Function { .. } => None,
        TypeKindV::Struct(d) => Some(d.size),
        TypeKindV::Class(d) => Some(d.size),
        TypeKindV::Union(d) => Some(d.size),
        TypeKindV::Enum(d) => Some(d.size),
        TypeKindV::Typedef(d) => spec_size(d.underlying_type, e, fuel),
        TypeKindV::Named(name) => {
            if fuel == 0 {
                None
            } else {
                match lookup(e, name) {
                    Some(t2) => spec_size(t2, e, (fuel - 1) as nat),
                    None => None,
                }
            }
        },
    }
}

/// The byte alignment of a type, resolved against the table entries `e`.
/// `None` reports the same unknown conditions as [`spec_size`].
pub open spec fn spec_alignment(t: TypeKindV, e: TableV, fuel: nat) -> Option<usize>
    decreases fuel, t,
{
    match t {
        TypeKindV::USize { size } => Some(size),
        TypeKindV::SSize { size } => Some(size),
        TypeKindV::U64 => Some(8usize),
        TypeKindV::S64 => Some(8usize),
        TypeKindV::U32 => Some(4usize),
        TypeKindV::S32 => Some(4usize),
        TypeKindV::U16 => Some(2usize),
        TypeKindV::S16 => Some(2usize),
        TypeKindV::U8 => Some(1usize),
        TypeKindV::S8 => Some(1usize),
        TypeKindV::F32 => Some(4usize),
        TypeKindV::F64 => Some(8usize),
        TypeKindV::LongDouble { alignment, .. } => Some(alignment),
        TypeKindV::Char16 => Some(2usize),
        TypeKindV::Char32 => Some(4usize),
        TypeKindV::WChar { size } => Some(size),
        TypeKindV::Bool => Some(1usize),
        TypeKindV::Void => Some(0usize),
        TypeKindV::Reference { size, .. } => Some(size),
        TypeKindV::Pointer { size, .. } => Some(size),
        TypeKindV::MemberPointer { size, .. } => Some(size),
        TypeKindV::Array { element_type, .. } => spec_alignment(*element_type, e, fuel),
        TypeKindV::Function { .. } => None,
        TypeKindV::Struct(d) => Some(d.alignment),
        TypeKindV::Class(d) => Some(d.alignment),
        TypeKindV::Union(d) => Some(d.alignment),
        TypeKindV::Enum(d) => Some(d.size),
        TypeKindV::Typedef(d) => spec_alignment(d.underlying_type, e, fuel),
        TypeKindV::Named(name) => {
            if fuel == 0 {
                None
            } else {
                match lookup(e, name) {
                    Some(t2) => spec_alignment(t2, e, (fuel - 1) as nat),
                    None => None,
                }
            }
        },
    }
}

/// The stride of a type: its size rounded up to its alignment, the byte
/// distance between consecutive array elements.
pub open spec fn spec_stride(t: TypeKindV, e: TableV, fuel: nat) -> Option<usize> {
    match (spec_size(t, e, fuel), spec_alignment(t, e, fuel)) {
        (Some(s), Some(a)) => {
            let stride = round_up(s as int, a as int);
            if stride > usize::MAX as int {
                None
            } else {
                Some(stride as usize)
            }
        },
        _ => None,
    }
}

/// `s` rounded up to a multiple of `a`, or `None` when that does not fit
/// in `usize`.
fn round_up_exec(s: usize, a: usize) -> (r: Option<usize>)
    ensures
        round_up(s as int, a as int) <= usize::MAX ==> r == Some(
            round_up(s as int, a as int) as usize,
        ),
        round_up(s as int, a as int) > usize::MAX ==> r is None,
{
    if a == 0 {
        Some(s)
    } else {
        let rem = s % a;
        if rem == 0 {
            Some(s)
        } else {
            s.checked_add(a - rem)
        }
    }
}

/// Array sizing: a fixed-length array's size is the element count times
/// the element's stride — its size rounded up to its own alignment, which
/// is C's per-element trailing padding — whenever the element's size and
/// alignment resolve and the product fits in `usize`; and an incomplete
/// array's size is reported as unknown, never zero.
pub proof fn lemma_array_size(element: TypeKindV, n: usize, e: TableV, fuel: nat)
    ensures
        ({
            match (spec_size(element, e, fuel), spec_alignment(element, e, fuel)) {
                (Some(s), Some(a)) => {
                    let stride = round_up(s as int, a as int);
                    (stride <= usize::MAX as int && n * stride <= usize::MAX as int) ==> spec_size(
                        TypeKindV::Array { element_type: Box::new(element), size: Some(n) },
                        e,
                        fuel,
                    ) == Some((n * stride) as usize)
                },
                _ => spec_size(
                    TypeKindV::Array { element_type: Box::new(element), size: Some(n) },
                    e,
                    fuel,
                ) is None,
            }
        }),
        spec_size(
            TypeKindV::Array { element_type: Box::new(element), size: None },
            e,
            fuel,
        ) is None,
{
    reveal_with_fuel(spec_size, 2);
}

/// The top-level name of a type, when it has one.
pub open spec fn spec_kind_name(t: TypeKindV) -> Option<Seq<char>> {
    match t {
        TypeKindV::Struct(d) => d.name,
        TypeKindV::Class(d) => d.name,
        TypeKindV::Union(d) => d.name,
        TypeKindV::Enum(d) => d.name,
        TypeKindV::Typedef(d) => Some(d.name),
        TypeKindV::Named(name) => Some(name),
        _ => None,
    }
}

/// Whether a type is a struct or class forward declaration: a record with
/// an empty field list.
pub open spec fn spec_is_forward(t: TypeKindV) -> bool {
    match t {
        TypeKindV::Struct(d) => d.fields.len() == 0,
        TypeKindV::Class(d) => d.fields.len() == 0,
        _ => false,
    }
}

fn build_param_kinds(env: &Env, types: &Types, ps: &Vec<TypeInfo>, start: usize) -> (r: Result<
    Vec<TypeKind>,
    ParseError,
>)
    requires
        start <= ps@.len(),
    ensures
        ({
            let full = view_info_seq(ps@);
            let want = spec_new_kind_seq(*env, types@, full.subrange(start as int, full.len() as int));
            match r {
                Ok(v) => want == Ok::<Seq<TypeKindV>, ParseErrorV>(view_kind_seq(v@)),
                Err(er) => want == Err::<Seq<TypeKindV>, ParseErrorV>(er@),
            }
        }),
    decreases ps@, ps@.len() - start,
{
    proof {
        crate::info::lemma_view_info_seq(ps@);
    }
    let ghost full = view_info_seq(ps@);
    let ghost suffix = full.subrange(start as int, full.len() as int);
    if start >= ps.len() {
        let v: Vec<TypeKind> = Vec::new();
        proof {
            assert(suffix =~= Seq::<TypeInfoV>::empty());
            assert(view_kind_seq(v@) =~= Seq::<TypeKindV>::empty());
        }
        return Ok(v);
    }
    proof {
        assert(suffix[0] == full[start as int]);
        assert(suffix.subrange(1, suffix.len() as int) =~= full.subrange(
            start + 1,
            full.len() as int,
        ));
    }
    let head = match TypeKind::new(env, types, &ps[start]) {
        Err(er) => {
            return Err(er);
        },
        Ok(k) => k,
    };
    let rest = build_param_kinds(env, types, ps, start + 1);
    match rest {
        Err(er) => Err(er),
        Ok(mut v) => {
            let ghost rest_view = v@;
            v.insert(0, head);
            proof {
                assert(v@ =~= seq![head] + rest_view);
                lemma_view_kind_seq(v@);
                lemma_view_kind_seq(rest_view);
                assert(view_kind_seq(v@) =~= seq![view_kind(head)] + view_kind_seq(rest_view));
            }
            Ok(v)
        },
    }
}

impl TypeKind {
    /// Builds a type from the front end's snapshot of a type handle, as
    /// described by [`spec_new_kind`]: scalars directly, compound types
    /// recursively, named declarations as by-name references, anonymous
    /// records and enums inline.
    pub fn new(env: &Env, types: &Types, ty: &TypeInfo) -> (r: Result<TypeKind, ParseError>)
        ensures
            match r {
                Ok(v) => spec_new_kind(*env, types@, ty@) == Ok::<TypeKindV, ParseErrorV>(v@),
                Err(er) => spec_new_kind(*env, types@, ty@) == Err::<TypeKindV, ParseErrorV>(er@),
            },
        decreases *ty, 0int,
    {
        proof {
            reveal_with_fuel(view_kind, 2);
            reveal_with_fuel(crate::info::view_type_info, 2);
            reveal_with_fuel(crate::info::view_type_shape, 2);
            reveal_with_fuel(spec_new_kind, 2);
        }
        match &ty.shape {
            TypeShape::UnsignedLong => Ok(TypeKind::USize { size: env.word_size().bytes() }),
            TypeShape::SignedLong => Ok(TypeKind::SSize { size: env.word_size().bytes() }),
            TypeShape::UnsignedLongLong => Ok(TypeKind::U64),
            TypeShape::UnsignedInt => Ok(TypeKind::U32),
            TypeShape::UnsignedShort => Ok(TypeKind::U16),
            TypeShape::UnsignedChar => Ok(TypeKind::U8),
            TypeShape::SignedLongLong => Ok(TypeKind::S64),
            TypeShape::SignedInt => Ok(TypeKind::S32),
            TypeShape::SignedShort => Ok(TypeKind::S16),
            TypeShape::CharSigned => Ok(TypeKind::S8),
            TypeShape::CharUnsigned => Ok(TypeKind::U8),
            TypeShape::Float => Ok(TypeKind::F32),
            TypeShape::Double => Ok(TypeKind::F64),
            TypeShape::LongDouble { size, alignment } => match size {
                None => Err(ParseError::Sizeof { ty_name: ty.display_name.clone() }),
                Some(s) => match alignment {
                    None => Err(ParseError::Alignof { ty_name: ty.display_name.clone() }),
                    Some(a) => Ok(TypeKind::LongDouble { size: *s, alignment: *a }),
                },
            },
            TypeShape::Char16 => Ok(TypeKind::Char16),
            TypeShape::Char32 => Ok(TypeKind::Char32),
            TypeShape::WideChar { size } => match size {
                None => Err(ParseError::Sizeof { ty_name: ty.display_name.clone() }),
                Some(s) => Ok(TypeKind::WChar { size: *s }),
            },
            TypeShape::Bool => Ok(TypeKind::Bool),
            TypeShape::Void => Ok(TypeKind::Void),
            TypeShape::Pointer { size, pointee } => match pointee {
                None => Err(ParseError::UnsupportedType { context: ty.display_name.clone() }),
                Some(p) => {
                    let inner = match TypeKind::new(env, types, p) {
                        Err(er) => {
                            return Err(er);
                        },
                        Ok(k) => k,
                    };
                    match size {
                        None => Err(ParseError::Sizeof { ty_name: ty.display_name.clone() }),
                        Some(s) => Ok(
                            TypeKind::Pointer { size: *s, pointee_type: Box::new(inner) },
                        ),
                    }
                },
            },
            TypeShape::Reference { size, pointee } => match pointee {
                None => Err(ParseError::UnsupportedType { context: ty.display_name.clone() }),
                Some(p) => {
                    let inner = match TypeKind::new(env, types, p) {
                        Err(er) => {
                            return Err(er);
                        },
                        Ok(k) => k,
                    };
                    match size {
                        None => Err(ParseError::Sizeof { ty_name: ty.display_name.clone() }),
                        Some(s) => Ok(
                            TypeKind::Reference { size: *s, referenced_type: Box::new(inner) },
                        ),
                    }
                },
            },
            TypeShape::MemberPointer { size, pointee, record_name } => match pointee {
                None => Err(ParseError::UnsupportedType { context: ty.display_name.clone() }),
                Some(p) => {
                    let inner = match TypeKind::new(env, types, p) {
                        Err(er) => {
                            return Err(er);
                        },
                        Ok(k) => k,
                    };
                    match size {
                        None => Err(ParseError::Sizeof { ty_name: ty.display_name.clone() }),
                        Some(s) => match record_name {
                            None => Err(
                                ParseError::UnsupportedType { context: ty.display_name.clone() },
                            ),
                            Some(rn) => Ok(
                                TypeKind::MemberPointer {
                                    size: *s,
                                    pointee_type: Box::new(inner),
                                    record_name: rn.clone(),
                                },
                            ),
                        },
                    }
                },
            },
            TypeShape::IncompleteArray { element } => match element {
                None => Err(ParseError::UnsupportedType { context: ty.display_name.clone() }),
                Some(el) => match TypeKind::new(env, types, el) {
                    Err(er) => Err(er),
                    Ok(inner) => Ok(
                        TypeKind::Array { element_type: Box::new(inner), size: None },
                    ),
                },
            },
            TypeShape::FixedArray { element, len } => match element {
                None => Err(ParseError::UnsupportedType { context: ty.display_name.clone() }),
                Some(el) => match len {
                    None => Err(ParseError::UnsupportedType { context: ty.display_name.clone() }),
                    Some(n) => match TypeKind::new(env, types, el) {
                        Err(er) => Err(er),
                        Ok(inner) => Ok(
                            TypeKind::Array { element_type: Box::new(inner), size: Some(*n) },
                        ),
                    },
                },
            },
            TypeShape::Function { return_type, parameters } => match return_type {
                None => Err(ParseError::UnsupportedType { context: ty.display_name.clone() }),
                Some(rt) => match parameters {
                    None => Err(ParseError::UnsupportedType { context: ty.display_name.clone() }),
                    Some(ps) => {
                        let ret = match TypeKind::new(env, types, rt) {
                            Err(er) => {
                                return Err(er);
                            },
                            Ok(k) => k,
                        };
                        proof {
                            let full = view_info_seq(ps@);
                            assert(full.subrange(0, full.len() as int) =~= full);
                        }
                        match build_param_kinds(env, types, ps, 0) {
                            Err(er) => Err(er),
                            Ok(params) => Ok(
                                TypeKind::Function {
                                    return_type: Box::new(ret),
                                    parameters: params,
                                },
                            ),
                        }
                    },
                },
            },
            TypeShape::Elaborated { target, decl } => match target {
                None => Err(ParseError::UnsupportedType { context: ty.display_name.clone() }),
                Some(tgt) => match decl {
                    None => Err(ParseError::UnsupportedType { context: ty.display_name.clone() }),
                    Some(d) => {
                        if d.anonymous {
                            TypeKind::new(env, types, tgt)
                        } else {
                            match &d.name {
                                None => Err(
                                    ParseError::UnsupportedType {
                                        context: ty.display_name.clone(),
                                    },
                                ),
                                Some(nm) => {
                                    if str_eq(nm.as_str(), "bool") {
                                        Ok(TypeKind::Bool)
                                    } else {
                                        Ok(TypeKind::Named(nm.clone()))
                                    }
                                },
                            }
                        }
                    },
                },
            },
            TypeShape::Record { decl } => match decl {
                None => Err(ParseError::UnsupportedType { context: ty.display_name.clone() }),
                Some(d) => match &d.kind {
                    RecordKind::Struct => match StructDecl::new(env, types, None, d) {
                        Err(er) => Err(er),
                        Ok(sd) => Ok(TypeKind::Struct(sd)),
                    },
                    RecordKind::Class => match StructDecl::new(env, types, None, d) {
                        Err(er) => Err(er),
                        Ok(sd) => Ok(TypeKind::Class(sd)),
                    },
                    RecordKind::Union => match UnionDecl::new(env, types, None, d) {
                        Err(er) => Err(er),
                        Ok(ud) => Ok(TypeKind::Union(ud)),
                    },
                    RecordKind::Other { kind_name } => Err(
                        ParseError::UnsupportedEntity {
                            at: "struct/union".to_owned(),
                            context: kind_name.clone(),
                        },
                    ),
                },
            },
            TypeShape::Enum { decl } => match decl {
                None => Err(ParseError::UnsupportedType { context: ty.display_name.clone() }),
                Some(d) => {
                    let name: Option<String> = match &d.name {
                        Some(nm) => Some(nm.clone()),
                        None => None,
                    };
                    match EnumDecl::new(name, d) {
                        Err(er) => Err(er),
                        Ok(ed) => Ok(TypeKind::Enum(ed)),
                    }
                },
            },
            TypeShape::Unsupported { .. } => Err(
                ParseError::UnsupportedType { context: ty.display_name.clone() },
            ),
        }
    }

    /// The byte size of this type, resolving by-name references through
    /// `types`.  `None` reports an unknown size rather than a default:
    /// a function type, an incomplete array, an unresolvable name, a
    /// cyclic reference chain, or a size beyond `usize`.
    pub fn size(&self, types: &Types) -> (r: Option<usize>)
        ensures
            r == spec_size(self@, types@, types@.len() as nat),
    {
        let fuel = types.len();
        self.size_rec(types, fuel)
    }

    /// The byte alignment of this type, with the same unknown conditions
    /// as [`TypeKind::size`].
    pub fn alignment(&self, types: &Types) -> (r: Option<usize>)
        ensures
            r == spec_alignment(self@, types@, types@.len() as nat),
    {
        let fuel = types.len();
        self.alignment_rec(types, fuel)
    }

    /// The stride of this type: its size rounded up to its alignment.
    pub fn stride(&self, types: &Types) -> (r: Option<usize>)
        ensures
            r == spec_stride(self@, types@, types@.len() as nat),
    {
        let size = self.size(types);
        let alignment = self.alignment(types);
        match (size, alignment) {
            (Some(s), Some(a)) => round_up_exec(s, a),
            _ => None,
        }
    }

    #[verifier::rlimit(100)]
    fn size_rec(&self, types: &Types, fuel: usize) -> (r: Option<usize>)
        ensures
            r == spec_size(self@, types@, fuel as nat),
        decreases fuel, *self,
    {
        proof {
            reveal_with_fuel(view_kind, 2);
            reveal_with_fuel(spec_size, 2);
            reveal_with_fuel(spec_alignment, 2);
        }
        match self {
            TypeKind::USize { size } => Some(*size),
            TypeKind::SSize { size } => Some(*size),
            TypeKind::U64 => Some(8),
            TypeKind::S64 => Some(8),
            TypeKind::U32 => Some(4),
            TypeKind::S32 => Some(4),
            TypeKind::U16 => Some(2),
            TypeKind::S16 => Some(2),
            TypeKind::U8 => Some(1),
            TypeKind::S8 => Some(1),
            TypeKind::F32 => Some(4),
            TypeKind::F64 => Some(8),
            TypeKind::LongDouble { size, .. } => Some(*size),
            TypeKind::Char16 => Some(2),
            TypeKind::Char32 => Some(4),
            TypeKind::WChar { size } => Some(*size),
            TypeKind::Bool => Some(1),
            TypeKind::Void => Some(0),
            TypeKind::Reference { size, .. } => Some(*size),
            TypeKind::Pointer { size, .. } => Some(*size),
            TypeKind::MemberPointer { size, .. } => Some(*size),
            TypeKind::Array { element_type, size } => match size {
                Some(n) => {
                    let es = element_type.size_rec(types, fuel);
                    let ea = element_type.alignment_rec(types, fuel);
                    match (es, ea) {
                        (Some(s), Some(a)) => match round_up_exec(s, a) {
                            Some(stride) => {
                                let r = n.checked_mul(stride);
                                proof {
                                    if *n >= 1 && (*n as int) * (stride as int) > usize::MAX as int {
                                        assert(r is None);
                                    }
                                    if *n == 0 {
                                        assert((*n as int) * (stride as int) == 0);
                                    }
                                }
                                r
                            },
                            None => {
                                proof {
                                    let st = round_up(s as int, a as int);
                                    if *n >= 1 {
                                        assert((*n as int) * st >= st) by (nonlinear_arith)
                                            requires
                                                *n >= 1,
                                                st >= 0,
                                        ;
                                    }
                                    assert(st >= s >= 0);
                                }
                                None
                            },
                        },
                        _ => None,
                    }
                },
                None => None,
            },
            TypeKind::Function { .. } => None,
            TypeKind::Struct(d) => Some(d.size),
            TypeKind::Class(d) => Some(d.size),
            TypeKind::Union(d) => Some(d.size),
            TypeKind::Enum(d) => Some(d.size),
            TypeKind::Typedef(d) => d.underlying_type.size_rec(types, fuel),
            TypeKind::Named(name) => {
                if fuel == 0 {
                    None
                } else {
                    match types.get(name.as_str()) {
                        Some(t2) => t2.size_rec(types, fuel - 1),
                        None => None,
                    }
                }
            },
        }
    }

    #[verifier::rlimit(100)]
    fn alignment_rec(&self, types: &Types, fuel: usize) -> (r: Option<usize>)
        ensures
            r == spec_alignment(self@, types@, fuel as nat),
        decreases fuel, *self,
    {
        proof {
            reveal_with_fuel(view_kind, 2);
            reveal_with_fuel(spec_size, 2);
            reveal_with_fuel(spec_alignment, 2);
        }
        match self {
            TypeKind::USize { size } => Some(*size),
            TypeKind::SSize { size } => Some(*size),
            TypeKind::U64 => Some(8),
            TypeKind::S64 => Some(8),
            TypeKind::U32 => Some(4),
            TypeKind::S32 => Some(4),
            TypeKind::U16 => Some(2),
            TypeKind::S16 => Some(2),
            TypeKind::U8 => Some(1),
            TypeKind::S8 => Some(1),
            TypeKind::F32 => Some(4),
            TypeKind::F64 => Some(8),
            TypeKind::LongDouble { alignment, .. } => Some(*alignment),
            TypeKind::Char16 => Some(2),
            TypeKind::Char32 => Some(4),
            TypeKind::WChar { size } => Some(*size),
            TypeKind::Bool => Some(1),
            TypeKind::Void => Some(0),
            TypeKind::Reference { size, .. } => Some(*size),
            TypeKind::Pointer { size, .. } => Some(*size),
            TypeKind::MemberPointer { size, .. } => Some(*size),
            TypeKind::Array { element_type, .. } => element_type.alignment_rec(types, fuel),
            TypeKind::Function { .. } => None,
            TypeKind::Struct(d) => Some(d.alignment),
            TypeKind::Class(d) => Some(d.alignment),
            TypeKind::Union(d) => Some(d.alignment),
            TypeKind::Enum(d) => Some(d.size),
            TypeKind::Typedef(d) => d.underlying_type.alignment_rec(types, fuel),
            TypeKind::Named(name) => {
                if fuel == 0 {
                    None
                } else {
                    match types.get(name.as_str()) {
                        Some(t2) => t2.alignment_rec(types, fuel - 1),
                        None => None,
                    }
                }
            },
        }
    }

    /// The name under which this type can stand in the symbol table.
    pub fn name(&self) -> (r: Option<&str>)
        ensures
            match r {
                Some(s) => spec_kind_name(self@) == Some(s@),
                None => spec_kind_name(self@) is None,
            },
    {
        match self {
            TypeKind::Struct(d) => d.name(),
            TypeKind::Class(d) => d.name(),
            TypeKind::Union(d) => d.name(),
            TypeKind::Enum(d) => d.name(),
            TypeKind::Typedef(d) => Some(d.name()),
            TypeKind::Named(name) => Some(name.as_str()),
            _ => None,
        }
    }

    /// Whether this type is a struct/class forward declaration.
    pub fn is_forward_decl(&self) -> (r: bool)
        ensures
            r == spec_is_forward(self@),
    {
        match self {
            TypeKind::Struct(d) => d.is_forward_decl(),
            TypeKind::Class(d) => d.is_forward_decl(),
            _ => false,
        }
    }

    /// One step of by-name resolution: the table entry behind a
    /// [`TypeKind::Named`] reference, or the type itself.
    pub fn expand_named<'a>(&'a self, types: &'a Types) -> (r: Option<&'a TypeKind>)
        ensures
            match r {
                Some(v) => spec_expand_named(self@, types@) == Some(v@),
                None => spec_expand_named(self@, types@) is None,
            },
    {
        proof {
            reveal_with_fuel(view_kind, 2);
        }
        match self {
            TypeKind::Named(name) => types.get(name.as_str()),
            _ => Some(self),
        }
    }

    /// The struct or class declaration behind this type, resolving by-name
    /// references through `types`.
    pub fn as_struct<'a>(&'a self, types: &'a Types) -> (r: Option<&'a StructDecl>)
        ensures
            match r {
                Some(d) => spec_as_struct(self@, types@, types@.len() as nat) == Some(d@),
                None => spec_as_struct(self@, types@, types@.len() as nat) is None,
            },
    {
        let fuel = types.len();
        self.as_struct_rec(types, fuel)
    }

    fn as_struct_rec<'a>(&'a self, types: &'a Types, fuel: usize) -> (r: Option<&'a StructDecl>)
        ensures
            match r {
                Some(d) => spec_as_struct(self@, types@, fuel as nat) == Some(d@),
                None => spec_as_struct(self@, types@, fuel as nat) is None,
            },
        decreases fuel, *self,
    {
        proof {
            reveal_with_fuel(view_kind, 2);
            reveal_with_fuel(spec_as_struct, 2);
        }
        match self {
            TypeKind::Struct(d) => Some(d),
            TypeKind::Class(d) => Some(d),
            TypeKind::Named(name) => {
                if fuel == 0 {
                    None
                } else {
                    match types.get(name.as_str()) {
                        Some(t2) => t2.as_struct_rec(types, fuel - 1),
                        None => None,
                    }
                }
            },
            _ => None,
        }
    }
}

/// One step of by-name resolution: what a [`TypeKindV::Named`] reference
/// stands for in the table, any other type standing for itself.
pub open spec fn spec_expand_named(t: TypeKindV, e: TableV) -> Option<TypeKindV> {
    match t {
        TypeKindV::Named(name) => lookup(e, name),
        _ => Some(t),
    }
}

/// The struct or class declaration a type resolves to, following by-name
/// references for at most `fuel` steps.
pub open spec fn spec_as_struct(t: TypeKindV, e: TableV, fuel: nat) -> Option<StructDeclV>
    decreases fuel, t,
{
    match t {
        TypeKindV::Struct(d) => Some(d),
        TypeKindV::Class(d) => Some(d),
        TypeKindV::Named(name) => {
            if fuel == 0 {
                None
            } else {
                match lookup(e, name) {
                    Some(t2) => spec_as_struct(t2, e, (fuel - 1) as nat),
                    None => None,
                }
            }
        },
        _ => None,
    }
}

impl View for TypeKind {
    type V = TypeKindV;

    open spec fn view(&self) -> TypeKindV {
        view_kind(*self)
    }
}

/// Relates the sequence view to its elements.
pub broadcast proof fn lemma_view_kind_seq(s: Seq<TypeKind>)
    ensures
        (#[trigger] view_kind_seq(s)).len() == s.len(),
        forall|i: int| 0 <= i < s.len() ==> view_kind_seq(s)[i] == view_kind(s[i]),
    decreases s,
{
    if s.len() > 0 {
        lemma_view_kind_seq(s.subrange(1, s.len() as int));
    }
}




} // verus!
