//! Enum declarations: ordered named constants and an authoritative byte
//! size derived from the front end's underlying integer type.

use vstd::prelude::*;

use crate::error::{ParseError, ParseErrorV};
use crate::info::{view_constant_info, ConstantInfo, ConstantInfoV, ConstantKind, ConstantKindV, EnumInfo};
use crate::search::{first_where, lemma_first_where_found, lemma_first_where_none};
use crate::text::str_eq;

verus! {

/// An enum declaration.
#[derive(Debug)]
pub struct EnumDecl {
    /// `None` when the enum is anonymous.
    pub name: Option<String>,
    /// Constants in declaration order.  Values need not be unique.
    pub constants: Vec<EnumConstant>,
    /// Byte size of the underlying integer type, as the front end reports
    /// it under the configured enum-sizing policy.
    pub size: usize,
}

/// One enum constant.
#[derive(Debug)]
pub struct EnumConstant {
    pub name: String,
    pub value: i64,
}

/// The mathematical model of an [`EnumDecl`].
pub struct EnumDeclV {
    pub name: Option<Seq<char>>,
    pub constants: Seq<EnumConstantV>,
    pub size: usize,
}

/// The mathematical model of an [`EnumConstant`].
pub struct EnumConstantV {
    pub name: Seq<char>,
    pub value: i64,
}

pub open spec fn view_enum_constant(c: EnumConstant) -> EnumConstantV {
    EnumConstantV { name: c.name@, value: c.value }
}

pub open spec fn view_enum_decl(d: EnumDecl) -> EnumDeclV {
    EnumDeclV {
        name: d.name.deep_view(),
        constants: d.constants@.map_values(|c: EnumConstant| view_enum_constant(c)),
        size: d.size,
    }
}

/// What one enum child yields: a constant, or the error that rejects it.
pub open spec fn spec_new_enum_constant(c: ConstantInfoV) -> Result<EnumConstantV, ParseErrorV> {
    match c.kind {
        ConstantKindV::Other { kind_name } => Err(ParseErrorV::InvalidAst { context: kind_name }),
        ConstantKindV::Constant => match c.name {
            None => Err(
                ParseErrorV::InvalidAst { context: "enum constant without a name"@ },
            ),
            Some(nm) => match c.value {
                None => Err(
                    ParseErrorV::InvalidAst { context: "enum constant without a value"@ },
                ),
                Some(v) => Ok(EnumConstantV { name: nm, value: v }),
            },
        },
    }
}

/// The constants built from the children in order, stopping at the first
/// rejected child.
pub open spec fn spec_new_enum_constants(cs: Seq<ConstantInfoV>) -> Result<
    Seq<EnumConstantV>,
    ParseErrorV,
>
    decreases cs.len(),
{
    if cs.len() == 0 {
        Ok(Seq::empty())
    } else {
        match spec_new_enum_constant(cs[0]) {
            Err(e) => Err(e),
            Ok(c) => match spec_new_enum_constants(cs.subrange(1, cs.len() as int)) {
                Err(e) => Err(e),
                Ok(rest) => Ok(seq![c] + rest),
            },
        }
    }
}

/// What constructing an enum declaration yields: the declaration, or the
/// first error in front-end order — a missing underlying type, a size the
/// front end could not compute, or a rejected child.
pub open spec fn spec_new_enum(name: Option<Seq<char>>, d: crate::info::EnumInfoV) -> Result<
    EnumDeclV,
    ParseErrorV,
> {
    match d.underlying {
        None => Err(
            ParseErrorV::InvalidAst { context: "enum declaration without an underlying type"@ },
        ),
        Some(u) => match u.size {
            None => Err(ParseErrorV::Sizeof { ty_name: u.display_name }),
            Some(s) => match spec_new_enum_constants(d.constants) {
                Err(e) => Err(e),
                Ok(cs) => Ok(EnumDeclV { name, constants: cs, size: s }),
            },
        },
    }
}

fn build_enum_constants(cs: &Vec<ConstantInfo>, start: usize) -> (r: Result<
    Vec<EnumConstant>,
    ParseError,
>)
    requires
        start <= cs@.len(),
    ensures
        ({
            let full = cs@.map_values(|c: ConstantInfo| view_constant_info(c));
            let want = spec_new_enum_constants(full.subrange(start as int, full.len() as int));
            match r {
                Ok(v) => want == Ok::<Seq<EnumConstantV>, ParseErrorV>(
                    v@.map_values(|c: EnumConstant| view_enum_constant(c)),
                ),
                Err(er) => want == Err::<Seq<EnumConstantV>, ParseErrorV>(er@),
            }
        }),
    decreases cs@.len() - start,
{
    let ghost full = cs@.map_values(|c: ConstantInfo| view_constant_info(c));
    let ghost suffix = full.subrange(start as int, full.len() as int);
    if start >= cs.len() {
        let v: Vec<EnumConstant> = Vec::new();
        proof {
            assert(suffix =~= Seq::<ConstantInfoV>::empty());
            assert(v@.map_values(|c: EnumConstant| view_enum_constant(c)) =~= Seq::<
                EnumConstantV,
            >::empty());
        }
        return Ok(v);
    }
    proof {
        assert(suffix[0] == full[start as int]);
        assert(full[start as int] == view_constant_info(cs@[start as int]));
        assert(suffix.subrange(1, suffix.len() as int) =~= full.subrange(
            start + 1,
            full.len() as int,
        ));
    }
    let c = &cs[start];
    let head: EnumConstant = match &c.kind {
        ConstantKind::Other { kind_name } => {
            return Err(ParseError::InvalidAst { context: kind_name.clone() });
        },
        ConstantKind::Constant => match &c.name {
            None => {
                return Err(
                    ParseError::InvalidAst { context: "enum constant without a name".to_owned() },
                );
            },
            Some(nm) => match c.value {
                None => {
                    return Err(
                        ParseError::InvalidAst {
                            context: "enum constant without a value".to_owned(),
                        },
                    );
                },
                Some(v) => EnumConstant { name: nm.clone(), value: v },
            },
        },
    };
    let rest = build_enum_constants(cs, start + 1);
    match rest {
        Err(e) => Err(e),
        Ok(mut v) => {
            let ghost rest_view = v@;
            v.insert(0, head);
            proof {
                let f = |c2: EnumConstant| view_enum_constant(c2);
                assert(v@ =~= seq![head] + rest_view);
                assert(v@.map_values(f) =~= seq![view_enum_constant(head)] + rest_view.map_values(
                    f,
                ));
            }
            Ok(v)
        },
    }
}

/// The first constant called `name`, in declaration order.
pub open spec fn spec_enum_get(cs: Seq<EnumConstantV>, name: Seq<char>) -> Option<EnumConstantV> {
    first_where(cs, |c: EnumConstantV| c.name == name)
}

/// The first constant with value `value`, in declaration order.
pub open spec fn spec_enum_get_by_value(cs: Seq<EnumConstantV>, value: i64) -> Option<
    EnumConstantV,
> {
    first_where(cs, |c: EnumConstantV| c.value == value)
}

impl EnumDecl {
    /// Builds an enum declaration from the front end's snapshot of it.
    ///
    /// The size is the underlying integer type's, as the front end
    /// reports it under the configured enum-sizing policy; the constants
    /// are taken in declaration order.  The first unusable piece of the
    /// snapshot is reported as in [`spec_new_enum`].
    pub fn new(name: Option<String>, decl: &EnumInfo) -> (r: Result<EnumDecl, ParseError>)
        ensures
            match r {
                Ok(v) => spec_new_enum(name.deep_view(), decl@) == Ok::<EnumDeclV, ParseErrorV>(
                    v@,
                ),
                Err(er) => spec_new_enum(name.deep_view(), decl@) == Err::<EnumDeclV, ParseErrorV>(
                    er@,
                ),
            },
    {
        let size: usize = match &decl.underlying {
            None => {
                return Err(
                    ParseError::InvalidAst {
                        context: "enum declaration without an underlying type".to_owned(),
                    },
                );
            },
            Some(u) => match u.size {
                None => {
                    return Err(ParseError::Sizeof { ty_name: u.display_name.clone() });
                },
                Some(s) => s,
            },
        };
        proof {
            let full = decl.constants@.map_values(|c: ConstantInfo| view_constant_info(c));
            assert(full.subrange(0, full.len() as int) =~= full);
            assert(decl@.constants =~= full);
        }
        let constants = match build_enum_constants(&decl.constants, 0) {
            Err(e) => {
                return Err(e);
            },
            Ok(v) => v,
        };
        let result = EnumDecl { name, constants, size };
        proof {
            let full = decl.constants@.map_values(|c: ConstantInfo| view_constant_info(c));
            assert(full.subrange(0, full.len() as int) =~= full);
            assert(decl@.constants =~= full);
            assert(result@.constants =~= result.constants@.map_values(
                |c: EnumConstant| view_enum_constant(c),
            ));
        }
        Ok(result)
    }

    /// The byte size of the enum's underlying integer type.
    pub fn size(&self) -> (r: usize)
        ensures
            r == self@.size,
    {
        self.size
    }

    /// An enum is aligned like its underlying integer type, whose
    /// alignment equals its size.
    pub fn alignment(&self) -> (r: usize)
        ensures
            r == self@.size,
    {
        self.size
    }

    pub fn name(&self) -> (r: Option<&str>)
        ensures
            match r {
                Some(s) => self@.name == Some(s@),
                None => self@.name is None,
            },
    {
        match &self.name {
            Some(s) => Some(s.as_str()),
            None => None,
        }
    }

    /// The first constant called `name`, or `None`.
    pub fn get(&self, name: &str) -> (r: Option<&EnumConstant>)
        ensures
            match r {
                Some(c) => spec_enum_get(self@.constants, name@) == Some(c@),
                None => spec_enum_get(self@.constants, name@) is None,
            },
    {
        let ghost p = |c: EnumConstantV| c.name == name@;
        let mut i: usize = 0;
        while i < self.constants.len()
            invariant
                0 <= i <= self.constants.len(),
                p == (|c: EnumConstantV| c.name == name@),
                forall|j: int| 0 <= j < i ==> !p(self@.constants[j]),
            decreases self.constants.len() - i,
        {
            let c = &self.constants[i];
            if str_eq(c.name.as_str(), name) {
                proof {
                    lemma_first_where_found(self@.constants, p, i as int);
                }
                return Some(c);
            }
            i = i + 1;
        }
        proof {
            lemma_first_where_none(self@.constants, p);
        }
        None
    }

    /// The first constant with value `value`, or `None`; with duplicate
    /// values the earliest declaration wins.
    pub fn get_by_value(&self, value: i64) -> (r: Option<&EnumConstant>)
        ensures
            match r {
                Some(c) => spec_enum_get_by_value(self@.constants, value) == Some(c@),
                None => spec_enum_get_by_value(self@.constants, value) is None,
            },
    {
        let ghost p = |c: EnumConstantV| c.value == value;
        let mut i: usize = 0;
        while i < self.constants.len()
            invariant
                0 <= i <= self.constants.len(),
                p == (|c: EnumConstantV| c.value == value),
                forall|j: int| 0 <= j < i ==> !p(self@.constants[j]),
            decreases self.constants.len() - i,
        {
            let c = &self.constants[i];
            if c.value == value {
                proof {
                    lemma_first_where_found(self@.constants, p, i as int);
                }
                return Some(c);
            }
            i = i + 1;
        }
        proof {
            lemma_first_where_none(self@.constants, p);
        }
        None
    }

    /// The constants in declaration order.
    pub fn constants(&self) -> (r: &[EnumConstant])
        ensures
            r@ == self.constants@,
            r@.len() == self@.constants.len(),
            forall|i: int| 0 <= i < r@.len() ==> #[trigger] r@[i]@ == self@.constants[i],
    {
        self.constants.as_slice()
    }
}

impl EnumConstant {
    pub fn name(&self) -> (r: &str)
        ensures
            r@ == self@.name,
    {
        self.name.as_str()
    }

    pub fn value(&self) -> (r: i64)
        ensures
            r == self@.value,
    {
        self.value
    }
}

impl View for EnumDecl {
    type V = EnumDeclV;

    open spec fn view(&self) -> EnumDeclV {
        view_enum_decl(*self)
    }
}

impl View for EnumConstant {
    type V = EnumConstantV;

    open spec fn view(&self) -> EnumConstantV {
        view_enum_constant(*self)
    }
}

} // verus!
