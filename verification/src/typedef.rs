//! Typedefs: a name for an underlying type, with the qualifiers captured
//! from the aliased type.

use vstd::prelude::*;

use crate::env::Env;
use crate::error::{ParseError, ParseErrorV};
use crate::info::TypeInfo;
use crate::kind::{spec_new_kind, view_kind, TypeKind, TypeKindV};
use crate::table::{TableV, Types};

verus! {

/// A typedef declaration.
#[derive(Debug)]
pub struct Typedef {
    pub name: String,
    /// The aliased type, itself possibly [`TypeKind::Named`], forming
    /// typedef chains resolved through the symbol table.
    pub underlying_type: TypeKind,
    pub constant: bool,
    pub volatile: bool,
}

/// The mathematical model of a [`Typedef`].
pub struct TypedefV {
    pub name: Seq<char>,
    pub underlying_type: TypeKindV,
    pub constant: bool,
    pub volatile: bool,
}

pub open spec fn view_typedef(t: Typedef) -> TypedefV
    decreases t,
{
    TypedefV {
        name: t.name@,
        underlying_type: view_kind(t.underlying_type),
        constant: t.constant,
        volatile: t.volatile,
    }
}

/// What constructing a typedef yields: the alias with its underlying
/// type, carrying the qualifiers captured from the aliased type itself
/// (not transitively from the alias chain); or the error from building
/// the underlying type.
pub open spec fn spec_new_typedef(
    env: Env,
    e: TableV,
    name: Seq<char>,
    u: crate::info::TypeInfoV,
) -> Result<TypedefV, ParseErrorV> {
    match spec_new_kind(env, e, u) {
        Err(er) => Err(er),
        Ok(k) => Ok(
            TypedefV { name, underlying_type: k, constant: u.is_const, volatile: u.is_volatile },
        ),
    }
}

impl Typedef {
    /// Builds a typedef from its name and the front end's snapshot of the
    /// aliased type, as described by [`spec_new_typedef`].
    pub fn new(env: &Env, types: &Types, name: String, underlying_type: &TypeInfo) -> (r: Result<
        Typedef,
        ParseError,
    >)
        ensures
            match r {
                Ok(v) => spec_new_typedef(*env, types@, name@, underlying_type@) == Ok::<
                    TypedefV,
                    ParseErrorV,
                >(v@),
                Err(er) => spec_new_typedef(*env, types@, name@, underlying_type@) == Err::<
                    TypedefV,
                    ParseErrorV,
                >(er@),
            },
    {
        match TypeKind::new(env, types, underlying_type) {
            Err(er) => Err(er),
            Ok(k) => Ok(
                Typedef {
                    name,
                    underlying_type: k,
                    constant: underlying_type.is_const,
                    volatile: underlying_type.is_volatile,
                },
            ),
        }
    }

    pub fn name(&self) -> (r: &str)
        ensures
            r@ == self@.name,
    {
        self.name.as_str()
    }

    /// The aliased type.
    pub fn underlying_type(&self) -> (r: &TypeKind)
        ensures
            r@ == self@.underlying_type,
    {
        &self.underlying_type
    }
}

impl View for Typedef {
    type V = TypedefV;

    open spec fn view(&self) -> TypedefV {
        view_typedef(*self)
    }
}

} // verus!
