//! A named-or-anonymous aggregate member: type, qualifiers, optional
//! bit-field width.

use vstd::prelude::*;

use crate::env::Env;
use crate::error::{ParseError, ParseErrorV};
use crate::info::{MemberInfo, MemberInfoV, MemberKind, MemberKindV};
use crate::kind::{spec_new_kind, spec_size, view_kind, TypeKind, TypeKindV};
use crate::table::{TableV, Types};

verus! {

/// One member of a struct, class or union.
#[derive(Debug)]
pub struct Field {
    /// `None` for an unnamed nested aggregate promoted into the parent:
    /// it still consumes layout space but is not addressable by name.
    pub name: Option<String>,
    pub kind: TypeKind,
    pub constant: bool,
    pub volatile: bool,
    /// Bit-field width in bits, when the member is a bit-field.
    pub bit_field_width: Option<u8>,
}

/// The mathematical model of a [`Field`].
pub struct FieldV {
    pub name: Option<Seq<char>>,
    pub kind: TypeKindV,
    pub constant: bool,
    pub volatile: bool,
    pub bit_field_width: Option<u8>,
}

pub open spec fn view_field(f: Field) -> FieldV
    decreases f,
{
    FieldV {
        name: f.name.deep_view(),
        kind: view_kind(f.kind),
        constant: f.constant,
        volatile: f.volatile,
        bit_field_width: f.bit_field_width,
    }
}

pub open spec fn view_field_seq(s: Seq<Field>) -> Seq<FieldV>
    decreases s,
{
    if s.len() == 0 {
        Seq::empty()
    } else {
        seq![view_field(s[0])] + view_field_seq(s.subrange(1, s.len() as int))
    }
}

impl View for Field {
    type V = FieldV;

    open spec fn view(&self) -> FieldV {
        view_field(*self)
    }
}

/// What constructing a field from one member snapshot yields: the field,
/// or the first error in front-end order — a member that is not a field
/// declaration, a named member without a name, a member without a type,
/// or a type that cannot be modeled.
///
/// An anonymous member (an unnamed nested aggregate) keeps no name; a
/// bit-field width is kept in bits, truncated to eight bits as widths
/// beyond 255 bits do not occur.
pub open spec fn spec_new_field(env: crate::env::Env, e: TableV, m: MemberInfoV) -> Result<
    FieldV,
    ParseErrorV,
>
    decreases m,
{
    match m.kind {
        MemberKindV::Other { kind_name } => Err(ParseErrorV::InvalidAst { context: kind_name }),
        MemberKindV::Field => {
            let name = if m.anonymous {
                Option::<Seq<char>>::None
            } else {
                m.name
            };
            if !m.anonymous && m.name is None {
                Err(ParseErrorV::InvalidAst { context: "field declaration without a name"@ })
            } else {
                match m.ty {
                    None => Err(
                        ParseErrorV::InvalidAst { context: "field declaration without a type"@ },
                    ),
                    Some(ty) => match spec_new_kind(env, e, ty) {
                        Err(er) => Err(er),
                        Ok(kind) => Ok(
                            FieldV {
                                name,
                                kind,
                                constant: ty.is_const,
                                volatile: ty.is_volatile,
                                bit_field_width: match m.bit_width {
                                    Some(w) => Some(w as u8),
                                    None => None,
                                },
                            },
                        ),
                    },
                }
            }
        },
    }
}

impl Field {
    /// Builds a field from the front end's snapshot of one member
    /// declaration, as described by [`spec_new_field`].
    pub fn new(env: &Env, types: &Types, member: &MemberInfo) -> (r: Result<Field, ParseError>)
        ensures
            match r {
                Ok(v) => spec_new_field(*env, types@, member@) == Ok::<FieldV, ParseErrorV>(v@),
                Err(er) => spec_new_field(*env, types@, member@) == Err::<FieldV, ParseErrorV>(
                    er@,
                ),
            },
        decreases *member, 0int,
    {
        match &member.kind {
            MemberKind::Other { kind_name } => Err(
                ParseError::InvalidAst { context: kind_name.clone() },
            ),
            MemberKind::Field => {
                let name: Option<String> = if member.anonymous {
                    None
                } else {
                    match &member.name {
                        None => {
                            return Err(
                                ParseError::InvalidAst {
                                    context: "field declaration without a name".to_owned(),
                                },
                            );
                        },
                        Some(nm) => Some(nm.clone()),
                    }
                };
                match &member.ty {
                    None => Err(
                        ParseError::InvalidAst {
                            context: "field declaration without a type".to_owned(),
                        },
                    ),
                    Some(ty) => match TypeKind::new(env, types, ty) {
                        Err(er) => Err(er),
                        Ok(kind) => Ok(
                            Field {
                                name,
                                kind,
                                constant: ty.is_const,
                                volatile: ty.is_volatile,
                                bit_field_width: match member.bit_width {
                                    Some(w) => Some(#[verifier::truncate] (w as u8)),
                                    None => None,
                                },
                            },
                        ),
                    },
                }
            },
        }
    }

    pub fn name(&self) -> (r: Option<&str>)
        ensures
            match r {
                Some(s) => self@.name == Some(s@),
                None => self@.name is None,
            },
    {
        match &self.name {
            Some(s) => Some(s.as_str()),
            None => None,
        }
    }

    pub fn kind(&self) -> (r: &TypeKind)
        ensures
            r@ == self@.kind,
    {
        &self.kind
    }

    pub fn constant(&self) -> (r: bool)
        ensures
            r == self@.constant,
    {
        self.constant
    }

    pub fn volatile(&self) -> (r: bool)
        ensures
            r == self@.volatile,
    {
        self.volatile
    }

    pub fn bit_field_width(&self) -> (r: Option<u8>)
        ensures
            r == self@.bit_field_width,
    {
        self.bit_field_width
    }

    /// The bytes the field occupies: the bit-field width rounded up to
    /// whole bytes for a bit-field, else the size of its type.
    pub fn size(&self, types: &Types) -> (r: Option<usize>)
        ensures
            r == spec_field_size(self@, types@, types@.len() as nat),
    {
        match self.bit_field_width {
            Some(w) => Some(((w as usize) + 7) / 8),
            None => self.kind.size(types),
        }
    }
}

/// The byte size of one field: `ceil(width / 8)` for a bit-field, else the
/// size of its type.
pub open spec fn spec_field_size(f: FieldV, e: TableV, fuel: nat) -> Option<usize> {
    match f.bit_field_width {
        Some(w) => Some(((w as int + 7) / 8) as usize),
        None => spec_size(f.kind, e, fuel),
    }
}

/// Relates the sequence view to its elements.
pub broadcast proof fn lemma_view_field_seq(s: Seq<Field>)
    ensures
        (#[trigger] view_field_seq(s)).len() == s.len(),
        forall|i: int| 0 <= i < s.len() ==> view_field_seq(s)[i] == view_field(s[i]),
    decreases s,
{
    if s.len() > 0 {
        lemma_view_field_seq(s.subrange(1, s.len() as int));
    }
}

} // verus!
