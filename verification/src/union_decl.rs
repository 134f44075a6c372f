//! Union declarations: ordered fields that all share offset zero, plus
//! authoritative size and alignment.

use vstd::prelude::*;
use vstd::string::*;

use crate::env::Env;
use crate::error::{ParseError, ParseErrorV};
use crate::field::{
    lemma_view_field_seq, spec_field_size, spec_new_field, view_field, view_field_seq, Field,
    FieldV,
};
use crate::info::{
    lemma_view_member_seq, view_member_seq, MemberInfo, MemberInfoV, MemberKind, MemberKindV,
    RecordInfo,
};
use crate::search::{first_where, lemma_first_where_found, lemma_first_where_none};
use crate::struct_decl::{
    make_display_name, make_invalid_names, spec_display_name, spec_invalid_names,
};
use crate::table::{TableV, Types};
use crate::text::opt_name_is;

verus! {

/// A union declaration.
#[derive(Debug)]
pub struct UnionDecl {
    /// `None` when the union is anonymous and embedded in another type.
    pub name: Option<String>,
    pub fields: Vec<Field>,
    pub size: usize,
    pub alignment: usize,
}

/// The mathematical model of a [`UnionDecl`].
pub struct UnionDeclV {
    pub name: Option<Seq<char>>,
    pub fields: Seq<FieldV>,
    pub size: usize,
    pub alignment: usize,
}

pub open spec fn view_union_decl(d: UnionDecl) -> UnionDeclV
    decreases d,
{
    UnionDeclV {
        name: d.name.deep_view(),
        fields: view_field_seq(d.fields@),
        size: d.size,
        alignment: d.alignment,
    }
}

/// The fields of a union built from its members in order, stopping at
/// the first member that is rejected: one that is not a field
/// declaration, or one whose own construction fails.
pub open spec fn spec_union_fields(
    env: Env,
    e: TableV,
    ms: Seq<MemberInfoV>,
    dn: Seq<char>,
) -> Result<Seq<FieldV>, ParseErrorV>
    decreases ms,
{
    if ms.len() == 0 {
        Ok(Seq::empty())
    } else {
        match ms[0].kind {
            MemberKindV::Other { kind_name } => Err(
                ParseErrorV::UnsupportedEntity { at: "union "@ + dn, context: kind_name },
            ),
            MemberKindV::Field => match spec_new_field(env, e, ms[0]) {
                Err(er) => Err(er),
                Ok(f) => match spec_union_fields(env, e, ms.subrange(1, ms.len() as int), dn) {
                    Err(er) => Err(er),
                    Ok(rest) => Ok(seq![f] + rest),
                },
            },
        }
    }
}

/// Whether one union field fits in the reported size, as far as its own
/// size can be resolved.
pub open spec fn spec_union_field_fits(f: FieldV, size: usize, e: TableV) -> bool {
    match spec_field_size(f, e, e.len()) {
        Some(fs) => fs <= size,
        None => true,
    }
}

/// A complete union's reported layout is consistent: the alignment is
/// positive, the size is a multiple of it, and every field whose size
/// resolves fits in the size.
pub open spec fn spec_union_layout_ok(
    fields: Seq<FieldV>,
    size: usize,
    alignment: usize,
    e: TableV,
) -> bool {
    &&& alignment >= 1
    &&& (size as int) % (alignment as int) == 0
    &&& forall|i: int| 0 <= i < fields.len() ==> spec_union_field_fits(#[trigger] fields[i], size, e)
}

/// What constructing a union declaration yields: the declaration, or the
/// first error in front-end order — an unlistable member list, invalid
/// members behind an empty field list, a rejected member, a size or
/// alignment the front end could not compute on a non-empty union (an
/// empty one is tolerated at one byte), or a reported layout that
/// contradicts itself.
pub open spec fn spec_new_union(
    env: Env,
    e: TableV,
    name: Option<Seq<char>>,
    r: crate::info::RecordInfoV,
) -> Result<UnionDeclV, ParseErrorV>
    decreases r,
{
    let dn = spec_display_name(name);
    match r.members {
        None => Err(ParseErrorV::UnsupportedType { context: dn }),
        Some(ms) => {
            if ms.len() == 0 && r.invalid_members.len() > 0 {
                Err(
                    ParseErrorV::InvalidFields {
                        field_names: spec_invalid_names(r.invalid_members),
                        struct_name: dn,
                    },
                )
            } else {
                match spec_union_fields(env, e, ms, dn) {
                    Err(er) => Err(er),
                    Ok(fields) => {
                        let size_r = match r.size {
                            Some(s) => Ok(s),
                            None => if ms.len() == 0 {
                                Ok(1usize)
                            } else {
                                Err(ParseErrorV::Sizeof { ty_name: dn })
                            },
                        };
                        match size_r {
                            Err(er) => Err(er),
                            Ok(size) => {
                                let align_r = match r.alignment {
                                    Some(a) => Ok(a),
                                    None => if ms.len() == 0 {
                                        Ok(1usize)
                                    } else {
                                        Err(ParseErrorV::Alignof { ty_name: dn })
                                    },
                                };
                                match align_r {
                                    Err(er) => Err(er),
                                    Ok(alignment) => {
                                        if r.size is Some && r.alignment is Some
                                            && !spec_union_layout_ok(fields, size, alignment, e) {
                                            Err(ParseErrorV::InconsistentLayout { ty_name: dn })
                                        } else {
                                            Ok(UnionDeclV { name, fields, size, alignment })
                                        }
                                    },
                                }
                            },
                        }
                    },
                }
            }
        },
    }
}

fn build_union_fields(
    env: &Env,
    types: &Types,
    ms: &Vec<MemberInfo>,
    start: usize,
    dn: &String,
) -> (r: Result<Vec<Field>, ParseError>)
    requires
        start <= ms@.len(),
    ensures
        ({
            let full = view_member_seq(ms@);
            let want = spec_union_fields(
                *env,
                types@,
                full.subrange(start as int, full.len() as int),
                dn@,
            );
            match r {
                Ok(v) => want == Ok::<Seq<FieldV>, ParseErrorV>(view_field_seq(v@)),
                Err(er) => want == Err::<Seq<FieldV>, ParseErrorV>(er@),
            }
        }),
    decreases ms@, ms@.len() - start,
{
    proof {
        lemma_view_member_seq(ms@);
    }
    let ghost full = view_member_seq(ms@);
    let ghost suffix = full.subrange(start as int, full.len() as int);
    if start >= ms.len() {
        let v: Vec<Field> = Vec::new();
        proof {
            assert(suffix =~= Seq::<MemberInfoV>::empty());
            assert(view_field_seq(v@) =~= Seq::<FieldV>::empty());
        }
        return Ok(v);
    }
    proof {
        assert(suffix[0] == full[start as int]);
        assert(suffix.subrange(1, suffix.len() as int) =~= full.subrange(
            start + 1,
            full.len() as int,
        ));
    }
    let m = &ms[start];
    match &m.kind {
        MemberKind::Other { kind_name } => {
            return Err(
                ParseError::UnsupportedEntity {
                    at: "union ".to_owned().concat(dn.as_str()),
                    context: kind_name.clone(),
                },
            );
        },
        MemberKind::Field => (),
    }
    let head = match Field::new(env, types, m) {
        Err(er) => {
            return Err(er);
        },
        Ok(f) => f,
    };
    let rest = build_union_fields(env, types, ms, start + 1, dn);
    match rest {
        Err(er) => Err(er),
        Ok(mut v) => {
            let ghost rest_view = v@;
            v.insert(0, head);
            proof {
                assert(v@ =~= seq![head] + rest_view);
                lemma_view_field_seq(v@);
                lemma_view_field_seq(rest_view);
                assert(view_field_seq(v@) =~= seq![view_field(head)] + view_field_seq(rest_view));
            }
            Ok(v)
        },
    }
}

/// The first field of a union called `name`, in declaration order.
pub open spec fn spec_union_get_field(fs: Seq<FieldV>, name: Seq<char>) -> Option<FieldV> {
    first_where(fs, |f: FieldV| f.name == Some(name))
}

#[verifier::rlimit(100)]
#[verifier::loop_isolation(false)]
fn check_union_layout(fields: &Vec<Field>, size: usize, alignment: usize, types: &Types) -> (r:
    bool)
    ensures
        r == spec_union_layout_ok(view_field_seq(fields@), size, alignment, types@),
{
    proof {
        lemma_view_field_seq(fields@);
    }
    if alignment == 0 {
        return false;
    }
    if size % alignment != 0 {
        return false;
    }
    let mut i: usize = 0;
    while i < fields.len()
        invariant
            0 <= i <= fields@.len(),
            view_field_seq(fields@).len() == fields@.len(),
            forall|j: int| 0 <= j < fields@.len() ==> #[trigger] view_field_seq(fields@)[j]
                == view_field(fields@[j]),
            forall|j: int| 0 <= j < i ==> spec_union_field_fits(
                #[trigger] view_field_seq(fields@)[j],
                size,
                types@,
            ),
        decreases fields@.len() - i,
    {
        match fields[i].size(types) {
            Some(fs) => {
                if fs > size {
                    proof {
                        assert(!spec_union_field_fits(
                            view_field_seq(fields@)[i as int],
                            size,
                            types@,
                        ));
                    }
                    return false;
                }
            },
            None => (),
        }
        i = i + 1;
    }
    true
}

impl UnionDecl {
    /// Builds a union declaration from the front end's snapshot of a
    /// record, as described by [`spec_new_union`].  The size and
    /// alignment are the front end's authoritative answers, cross-checked
    /// against the field list; only a genuinely empty union is tolerated
    /// at one byte when the front end cannot answer.
    pub fn new(env: &Env, types: &Types, name: Option<String>, record: &RecordInfo) -> (r: Result<
        UnionDecl,
        ParseError,
    >)
        ensures
            match r {
                Ok(v) => spec_new_union(*env, types@, name.deep_view(), record@) == Ok::<
                    UnionDeclV,
                    ParseErrorV,
                >(v@),
                Err(er) => spec_new_union(*env, types@, name.deep_view(), record@) == Err::<
                    UnionDeclV,
                    ParseErrorV,
                >(er@),
            },
        decreases *record, 0int,
    {
        let dn = make_display_name(&name);
        let members = match &record.members {
            None => {
                return Err(ParseError::UnsupportedType { context: dn });
            },
            Some(ms) => ms,
        };
        proof {
            let full = view_member_seq(members@);
            assert(full.subrange(0, full.len() as int) =~= full);
        }
        if members.len() == 0 && record.invalid_members.len() > 0 {
            let field_names = make_invalid_names(&record.invalid_members);
            return Err(ParseError::InvalidFields { field_names, struct_name: dn });
        }
        let fields = match build_union_fields(env, types, members, 0, &dn) {
            Err(er) => {
                return Err(er);
            },
            Ok(v) => v,
        };
        let has_size = match record.size {
            Some(_) => true,
            None => false,
        };
        let has_alignment = match record.alignment {
            Some(_) => true,
            None => false,
        };
        let size: usize = match record.size {
            Some(s) => s,
            None => {
                if members.len() == 0 {
                    1
                } else {
                    return Err(ParseError::Sizeof { ty_name: dn });
                }
            },
        };
        let alignment: usize = match record.alignment {
            Some(a) => a,
            None => {
                if members.len() == 0 {
                    1
                } else {
                    return Err(ParseError::Alignof { ty_name: dn });
                }
            },
        };
        if has_size && has_alignment {
            if !check_union_layout(&fields, size, alignment, types) {
                return Err(ParseError::InconsistentLayout { ty_name: dn });
            }
        }
        Ok(UnionDecl { name, fields, size, alignment })
    }

    pub fn size(&self) -> (r: usize)
        ensures
            r == self@.size,
    {
        self.size
    }

    pub fn alignment(&self) -> (r: usize)
        ensures
            r == self@.alignment,
    {
        self.alignment
    }

    pub fn name(&self) -> (r: Option<&str>)
        ensures
            match r {
                Some(s) => self@.name == Some(s@),
                None => self@.name is None,
            },
    {
        match &self.name {
            Some(s) => Some(s.as_str()),
            None => None,
        }
    }

    /// The fields in declaration order; all share offset zero.
    pub fn fields(&self) -> (r: &[Field])
        ensures
            r@ == self.fields@,
            r@.len() == self@.fields.len(),
            forall|i: int| 0 <= i < r@.len() ==> #[trigger] r@[i]@ == self@.fields[i],
    {
        proof {
            lemma_view_field_seq(self.fields@);
        }
        self.fields.as_slice()
    }

    /// The first field called `name`, or `None`; anonymous members are
    /// never found by name.
    pub fn get_field(&self, name: &str) -> (r: Option<&Field>)
        ensures
            match r {
                Some(f) => spec_union_get_field(self@.fields, name@) == Some(f@),
                None => spec_union_get_field(self@.fields, name@) is None,
            },
    {
        let ghost p = |f: FieldV| f.name == Some(name@);
        proof {
            lemma_view_field_seq(self.fields@);
        }
        let mut i: usize = 0;
        while i < self.fields.len()
            invariant
                0 <= i <= self.fields.len(),
                p == (|f: FieldV| f.name == Some(name@)),
                self@.fields == view_field_seq(self.fields@),
                self@.fields.len() == self.fields@.len(),
                forall|j: int| 0 <= j < self.fields@.len() ==> #[trigger] self@.fields[j]
                    == crate::field::view_field(self.fields@[j]),
                forall|j: int| 0 <= j < i ==> !p(self@.fields[j]),
            decreases self.fields.len() - i,
        {
            let f = &self.fields[i];
            if opt_name_is(&f.name, name) {
                proof {
                    lemma_first_where_found(self@.fields, p, i as int);
                }
                return Some(f);
            }
            i = i + 1;
        }
        proof {
            lemma_first_where_none(self@.fields, p);
        }
        None
    }
}

impl View for UnionDecl {
    type V = UnionDeclV;

    open spec fn view(&self) -> UnionDeclV {
        view_union_decl(*self)
    }
}

} // verus!
