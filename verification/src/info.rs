//! Plain-value snapshots of the declaration information that the external
//! C/C++ front end reports for one type or declaration.
//!
//! The core never talks to the front end itself: the caller walks the front
//! end's tree, answers the capability queries (discriminant kind, names,
//! child declarations, qualifier flags, and the three layout queries that
//! may fail), and records the answers in these types.  A query the front
//! end could not answer is recorded as `None` and classified by the
//! constructors in this crate, never silently defaulted.

use vstd::prelude::*;

verus! {

/// A snapshot of one front-end type handle.
#[derive(Debug)]
pub struct TypeInfo {
    /// The front end's display name for the type, kept for error reports.
    pub display_name: String,
    pub is_const: bool,
    pub is_volatile: bool,
    pub shape: TypeShape,
}

/// The discriminant of a type handle, together with the per-kind queries
/// made on it.  `None` always records a query the front end failed.
#[derive(Debug)]
pub enum TypeShape {
    UnsignedLong,
    SignedLong,
    UnsignedLongLong,
    UnsignedInt,
    UnsignedShort,
    UnsignedChar,
    SignedLongLong,
    SignedInt,
    SignedShort,
    CharSigned,
    CharUnsigned,
    Float,
    Double,
    LongDouble { size: Option<usize>, alignment: Option<usize> },
    Char16,
    Char32,
    WideChar { size: Option<usize> },
    Bool,
    Void,
    Pointer { size: Option<usize>, pointee: Option<Box<TypeInfo>> },
    Reference { size: Option<usize>, pointee: Option<Box<TypeInfo>> },
    MemberPointer {
        size: Option<usize>,
        pointee: Option<Box<TypeInfo>>,
        record_name: Option<String>,
    },
    IncompleteArray { element: Option<Box<TypeInfo>> },
    FixedArray { element: Option<Box<TypeInfo>>, len: Option<usize> },
    Function { return_type: Option<Box<TypeInfo>>, parameters: Option<Vec<TypeInfo>> },
    Elaborated { target: Option<Box<TypeInfo>>, decl: Option<ElabDeclInfo> },
    Record { decl: Option<Box<RecordInfo>> },
    Enum { decl: Option<Box<EnumInfo>> },
    /// A type kind the model does not represent.
    Unsupported { kind_name: String },
}

/// The declaration behind an elaborated type reference.
#[derive(Debug)]
pub struct ElabDeclInfo {
    pub anonymous: bool,
    pub name: Option<String>,
}

/// The declaration kind of a record.
#[derive(Debug)]
pub enum RecordKind {
    Struct,
    Class,
    Union,
    Other { kind_name: String },
}

/// A snapshot of a record (struct/class/union) type and its declaration.
#[derive(Debug)]
pub struct RecordInfo {
    pub kind: RecordKind,
    /// Base-specifier type names in declaration order; `None` records a
    /// base specifier whose type the front end could not give.
    pub bases: Vec<Option<String>>,
    /// The record's member list; `None` when the front end could not list
    /// the fields at all.
    pub members: Option<Vec<MemberInfo>>,
    /// Names of member declarations the front end marked invalid, consulted
    /// when the member list is empty.
    pub invalid_members: Vec<Option<String>>,
    pub size: Option<usize>,
    pub alignment: Option<usize>,
}

/// The declaration kind of one record member.
#[derive(Debug)]
pub enum MemberKind {
    Field,
    Other { kind_name: String },
}

/// A snapshot of one record member declaration.
#[derive(Debug)]
pub struct MemberInfo {
    pub kind: MemberKind,
    /// Whether the member's own declaration is anonymous (an unnamed
    /// nested aggregate promoted into the parent).
    pub anonymous: bool,
    pub name: Option<String>,
    pub ty: Option<TypeInfo>,
    /// Bit-field width in bits, when the member is a bit-field.
    pub bit_width: Option<usize>,
    /// The member's offset in bits; `None` records a failed layout query.
    pub offset_bits: Option<usize>,
}

/// A snapshot of an enum declaration.
#[derive(Debug)]
pub struct EnumInfo {
    pub name: Option<String>,
    /// The enum's underlying integer type; `None` when the front end
    /// reports none.
    pub underlying: Option<UnderlyingInfo>,
    pub constants: Vec<ConstantInfo>,
}

/// The underlying integer type of an enum.
#[derive(Debug)]
pub struct UnderlyingInfo {
    pub display_name: String,
    pub size: Option<usize>,
}

/// The declaration kind of one enum child.
#[derive(Debug)]
pub enum ConstantKind {
    Constant,
    Other { kind_name: String },
}

/// A snapshot of one enum constant declaration.
#[derive(Debug)]
pub struct ConstantInfo {
    pub kind: ConstantKind,
    pub name: Option<String>,
    pub value: Option<i64>,
}

// ---------------------------------------------------------------------------
// Mathematical models: the same shapes with strings as character sequences
// and vectors as sequences.
// ---------------------------------------------------------------------------

pub struct TypeInfoV {
    pub display_name: Seq<char>,
    pub is_const: bool,
    pub is_volatile: bool,
    pub shape: TypeShapeV,
}

pub enum TypeShapeV {
    UnsignedLong,
    SignedLong,
    UnsignedLongLong,
    UnsignedInt,
    UnsignedShort,
    UnsignedChar,
    SignedLongLong,
    SignedInt,
    SignedShort,
    CharSigned,
    CharUnsigned,
    Float,
    Double,
    LongDouble { size: Option<usize>, alignment: Option<usize> },
    Char16,
    Char32,
    WideChar { size: Option<usize> },
    Bool,
    Void,
    Pointer { size: Option<usize>, pointee: Option<Box<TypeInfoV>> },
    Reference { size: Option<usize>, pointee: Option<Box<TypeInfoV>> },
    MemberPointer {
        size: Option<usize>,
        pointee: Option<Box<TypeInfoV>>,
        record_name: Option<Seq<char>>,
    },
    IncompleteArray { element: Option<Box<TypeInfoV>> },
    FixedArray { element: Option<Box<TypeInfoV>>, len: Option<usize> },
    Function { return_type: Option<Box<TypeInfoV>>, parameters: Option<Seq<TypeInfoV>> },
    Elaborated { target: Option<Box<TypeInfoV>>, decl: Option<ElabDeclInfoV> },
    Record { decl: Option<Box<RecordInfoV>> },
    Enum { decl: Option<Box<EnumInfoV>> },
    Unsupported { kind_name: Seq<char> },
}

pub struct ElabDeclInfoV {
    pub anonymous: bool,
    pub name: Option<Seq<char>>,
}

pub enum RecordKindV {
    Struct,
    Class,
    Union,
    Other { kind_name: Seq<char> },
}

pub struct RecordInfoV {
    pub kind: RecordKindV,
    pub bases: Seq<Option<Seq<char>>>,
    pub members: Option<Seq<MemberInfoV>>,
    pub invalid_members: Seq<Option<Seq<char>>>,
    pub size: Option<usize>,
    pub alignment: Option<usize>,
}

pub enum MemberKindV {
    Field,
    Other { kind_name: Seq<char> },
}

pub struct MemberInfoV {
    pub kind: MemberKindV,
    pub anonymous: bool,
    pub name: Option<Seq<char>>,
    pub ty: Option<TypeInfoV>,
    pub bit_width: Option<usize>,
    pub offset_bits: Option<usize>,
}

pub struct EnumInfoV {
    pub name: Option<Seq<char>>,
    pub underlying: Option<UnderlyingInfoV>,
    pub constants: Seq<ConstantInfoV>,
}

pub struct UnderlyingInfoV {
    pub display_name: Seq<char>,
    pub size: Option<usize>,
}

pub enum ConstantKindV {
    Constant,
    Other { kind_name: Seq<char> },
}

pub struct ConstantInfoV {
    pub kind: ConstantKindV,
    pub name: Option<Seq<char>>,
    pub value: Option<i64>,
}

// ---------------------------------------------------------------------------
// View functions.
// ---------------------------------------------------------------------------

pub open spec fn view_type_info(t: TypeInfo) -> TypeInfoV
    decreases t,
{
    TypeInfoV {
        display_name: t.display_name@,
        is_const: t.is_const,
        is_volatile: t.is_volatile,
        shape: view_type_shape(t.shape),
    }
}

pub open spec fn view_boxed_info(b: Option<Box<TypeInfo>>) -> Option<Box<TypeInfoV>>
    decreases b,
{
    match b {
        Some(t) => Some(Box::new(view_type_info(*t))),
        None => None,
    }
}

pub open spec fn view_info_seq(s: Seq<TypeInfo>) -> Seq<TypeInfoV>
    decreases s,
{
    if s.len() == 0 {
        Seq::empty()
    } else {
        seq![view_type_info(s[0])] + view_info_seq(s.subrange(1, s.len() as int))
    }
}

pub open spec fn view_type_shape(s: TypeShape) -> TypeShapeV
    decreases s,
{
    match s {
        TypeShape::UnsignedLong => TypeShapeV::UnsignedLong,
        TypeShape::SignedLong => TypeShapeV::SignedLong,
        TypeShape::UnsignedLongLong => TypeShapeV::UnsignedLongLong,
        TypeShape::UnsignedInt => TypeShapeV::UnsignedInt,
        TypeShape::UnsignedShort => TypeShapeV::UnsignedShort,
        TypeShape::UnsignedChar => TypeShapeV::UnsignedChar,
        TypeShape::SignedLongLong => TypeShapeV::SignedLongLong,
        TypeShape::SignedInt => TypeShapeV::SignedInt,
        TypeShape::SignedShort => TypeShapeV::SignedShort,
        TypeShape::CharSigned => TypeShapeV::CharSigned,
        TypeShape::CharUnsigned => TypeShapeV::CharUnsigned,
        TypeShape::Float => TypeShapeV::Float,
        TypeShape::Double => TypeShapeV::Double,
        TypeShape::LongDouble { size, alignment } => TypeShapeV::LongDouble { size, alignment },
        TypeShape::Char16 => TypeShapeV::Char16,
        TypeShape::Char32 => TypeShapeV::Char32,
        TypeShape::WideChar { size } => TypeShapeV::WideChar { size },
        TypeShape::Bool => TypeShapeV::Bool,
        TypeShape::Void => TypeShapeV::Void,
        TypeShape::Pointer { size, pointee } => (TypeShapeV::Pointer {
            size,
            pointee: view_boxed_info(pointee),
        }),
        TypeShape::Reference { size, pointee } => (TypeShapeV::Reference {
            size,
            pointee: view_boxed_info(pointee),
        }),
        TypeShape::MemberPointer { size, pointee, record_name } => (TypeShapeV::MemberPointer {
            size,
            pointee: view_boxed_info(pointee),
            record_name: record_name.deep_view(),
        }),
        TypeShape::IncompleteArray { element } => (TypeShapeV::IncompleteArray {
            element: view_boxed_info(element),
        }),
        TypeShape::FixedArray { element, len } => (TypeShapeV::FixedArray {
            element: view_boxed_info(element),
            len,
        }),
        TypeShape::Function { return_type, parameters } => (TypeShapeV::Function {
            return_type: view_boxed_info(return_type),
            parameters: match parameters {
                Some(ps) => Some(view_info_seq(ps@)),
                None => None,
            },
        }),
        TypeShape::Elaborated { target, decl } => (TypeShapeV::Elaborated {
            target: view_boxed_info(target),
            decl: match decl {
                Some(d) => Some(ElabDeclInfoV { anonymous: d.anonymous, name: d.name.deep_view() }),
                None => None,
            },
        }),
        TypeShape::Record { decl } => (TypeShapeV::Record {
            decl: match decl {
                Some(d) => Some(Box::new(view_record_info(*d))),
                None => None,
            },
        }),
        TypeShape::Enum { decl } => (TypeShapeV::Enum {
            decl: match decl {
                Some(d) => Some(Box::new(view_enum_info(*d))),
                None => None,
            },
        }),
        TypeShape::Unsupported { kind_name } => (TypeShapeV::Unsupported {
            kind_name: kind_name@,
        }),
    }
}

pub open spec fn view_record_kind(k: RecordKind) -> RecordKindV {
    match k {
        RecordKind::Struct => RecordKindV::Struct,
        RecordKind::Class => RecordKindV::Class,
        RecordKind::Union => RecordKindV::Union,
        RecordKind::Other { kind_name } => RecordKindV::Other { kind_name: kind_name@ },
    }
}

pub open spec fn view_member_seq(s: Seq<MemberInfo>) -> Seq<MemberInfoV>
    decreases s,
{
    if s.len() == 0 {
        Seq::empty()
    } else {
        seq![view_member_info(s[0])] + view_member_seq(s.subrange(1, s.len() as int))
    }
}

pub open spec fn view_record_info(r: RecordInfo) -> RecordInfoV
    decreases r,
{
    RecordInfoV {
        kind: view_record_kind(r.kind),
        bases: r.bases.deep_view(),
        members: match r.members {
            Some(ms) => Some(view_member_seq(ms@)),
            None => None,
        },
        invalid_members: r.invalid_members.deep_view(),
        size: r.size,
        alignment: r.alignment,
    }
}

pub open spec fn view_member_kind(k: MemberKind) -> MemberKindV {
    match k {
        MemberKind::Field => MemberKindV::Field,
        MemberKind::Other { kind_name } => MemberKindV::Other { kind_name: kind_name@ },
    }
}

pub open spec fn view_member_info(m: MemberInfo) -> MemberInfoV
    decreases m,
{
    MemberInfoV {
        kind: view_member_kind(m.kind),
        anonymous: m.anonymous,
        name: m.name.deep_view(),
        ty: match m.ty {
            Some(t) => Some(view_type_info(t)),
            None => None,
        },
        bit_width: m.bit_width,
        offset_bits: m.offset_bits,
    }
}

pub open spec fn view_constant_kind(k: ConstantKind) -> ConstantKindV {
    match k {
        ConstantKind::Constant => ConstantKindV::Constant,
        ConstantKind::Other { kind_name } => ConstantKindV::Other { kind_name: kind_name@ },
    }
}

pub open spec fn view_constant_info(c: ConstantInfo) -> ConstantInfoV {
    ConstantInfoV { kind: view_constant_kind(c.kind), name: c.name.deep_view(), value: c.value }
}

pub open spec fn view_enum_info(e: EnumInfo) -> EnumInfoV {
    EnumInfoV {
        name: e.name.deep_view(),
        underlying: match e.underlying {
            Some(u) => Some(UnderlyingInfoV { display_name: u.display_name@, size: u.size }),
            None => None,
        },
        constants: e.constants@.map_values(|c: ConstantInfo| view_constant_info(c)),
    }
}

impl View for TypeInfo {
    type V = TypeInfoV;

    open spec fn view(&self) -> TypeInfoV {
        view_type_info(*self)
    }
}

impl View for RecordInfo {
    type V = RecordInfoV;

    open spec fn view(&self) -> RecordInfoV {
        view_record_info(*self)
    }
}

impl View for MemberInfo {
    type V = MemberInfoV;

    open spec fn view(&self) -> MemberInfoV {
        view_member_info(*self)
    }
}

impl View for EnumInfo {
    type V = EnumInfoV;

    open spec fn view(&self) -> EnumInfoV {
        view_enum_info(*self)
    }
}

/// Relates the two sequence views element by element, which is how callers
/// use them.
pub broadcast proof fn lemma_view_info_seq(s: Seq<TypeInfo>)
    ensures
        (#[trigger] view_info_seq(s)).len() == s.len(),
        forall|i: int| 0 <= i < s.len() ==> view_info_seq(s)[i] == view_type_info(s[i]),
    decreases s,
{
    if s.len() > 0 {
        lemma_view_info_seq(s.subrange(1, s.len() as int));
    }
}

/// Relates the member-sequence view to its elements.
pub broadcast proof fn lemma_view_member_seq(s: Seq<MemberInfo>)
    ensures
        (#[trigger] view_member_seq(s)).len() == s.len(),
        forall|i: int| 0 <= i < s.len() ==> view_member_seq(s)[i] == view_member_info(s[i]),
    decreases s,
{
    if s.len() > 0 {
        lemma_view_member_seq(s.subrange(1, s.len() as int));
    }
}

} // verus!
