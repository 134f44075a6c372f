//! Struct/class declarations: ordered fields with bit offsets, by-name base
//! types, and authoritative size and alignment.

use vstd::prelude::*;
use vstd::string::*;

use crate::env::Env;
use crate::error::{ParseError, ParseErrorV};
use crate::field::{spec_field_size, spec_new_field, view_field, Field, FieldV};
use crate::info::{
    lemma_view_member_seq, view_member_seq, MemberInfo, MemberInfoV, MemberKind, MemberKindV,
    RecordInfo, RecordKind, RecordKindV,
};
use crate::kind::{spec_expand_named, view_kind, TypeKind, TypeKindV};
use crate::search::{first_where, lemma_first_where_found, lemma_first_where_none};
use crate::table::{lookup, TableV, Types};
use crate::text::opt_name_is;

verus! {

/// A struct or class declaration.
#[derive(Debug)]
pub struct StructDecl {
    /// `None` when the aggregate is anonymous and embedded in another type.
    pub name: Option<String>,
    /// Base types in declaration order, referenced by name because a base
    /// may itself still be a forward declaration.
    pub base_types: Vec<String>,
    pub fields: Vec<StructField>,
    pub size: usize,
    pub alignment: usize,
    /// Whether the record was declared with `class` rather than `struct`;
    /// kept for fidelity, with no semantic effect.
    pub is_class: bool,
}

/// One struct field together with its offset in bits.  Offsets are kept in
/// bits because bit-fields pack several fields into the same byte.
#[derive(Debug)]
pub struct StructField {
    /// Offset in bits.
    pub offset: usize,
    pub field: Field,
}

/// The mathematical model of a [`StructDecl`].
pub struct StructDeclV {
    pub name: Option<Seq<char>>,
    pub base_types: Seq<Seq<char>>,
    pub fields: Seq<StructFieldV>,
    pub size: usize,
    pub alignment: usize,
    pub is_class: bool,
}

/// The mathematical model of a [`StructField`].
pub struct StructFieldV {
    pub offset: usize,
    pub field: FieldV,
}

pub open spec fn view_struct_field(f: StructField) -> StructFieldV
    decreases f,
{
    StructFieldV { offset: f.offset, field: view_field(f.field) }
}

pub open spec fn view_struct_field_seq(s: Seq<StructField>) -> Seq<StructFieldV>
    decreases s,
{
    if s.len() == 0 {
        Seq::empty()
    } else {
        seq![view_struct_field(s[0])] + view_struct_field_seq(s.subrange(1, s.len() as int))
    }
}

pub open spec fn view_struct_decl(d: StructDecl) -> StructDeclV
    decreases d,
{
    StructDeclV {
        name: d.name.deep_view(),
        base_types: d.base_types.deep_view(),
        fields: view_struct_field_seq(d.fields@),
        size: d.size,
        alignment: d.alignment,
        is_class: d.is_class,
    }
}

impl StructDecl {
    /// The authoritative byte size the front end reported, or the derived
    /// fallback for an intentionally incomplete aggregate.
    pub fn size(&self) -> (r: usize)
        ensures
            r == self@.size,
    {
        self.size
    }

    pub fn alignment(&self) -> (r: usize)
        ensures
            r == self@.alignment,
    {
        self.alignment
    }

    /// A record with no fields is taken to be a forward declaration; this
    /// is ambiguous with a genuinely zero-field aggregate, an accepted
    /// limitation.
    pub fn is_forward_decl(&self) -> (r: bool)
        ensures
            r == (self@.fields.len() == 0),
    {
        proof {
            lemma_view_struct_field_seq(self.fields@);
        }
        self.fields.len() == 0
    }

    /// The base type names in declaration order.
    pub fn base_types(&self) -> (r: &[String])
        ensures
            r@ == self.base_types@,
            r@.len() == self@.base_types.len(),
            forall|i: int| 0 <= i < r@.len() ==> #[trigger] r@[i]@ == self@.base_types[i],
    {
        self.base_types.as_slice()
    }

    /// The fields in declaration order.
    pub fn fields(&self) -> (r: &[StructField])
        ensures
            r@ == self.fields@,
            r@.len() == self@.fields.len(),
            forall|i: int| 0 <= i < r@.len() ==> #[trigger] r@[i]@ == self@.fields[i],
    {
        proof {
            lemma_view_struct_field_seq(self.fields@);
        }
        self.fields.as_slice()
    }

    pub fn name(&self) -> (r: Option<&str>)
        ensures
            match r {
                Some(s) => self@.name == Some(s@),
                None => self@.name is None,
            },
    {
        match &self.name {
            Some(s) => Some(s.as_str()),
            None => None,
        }
    }

    /// Whether the record was declared with `class`.
    pub fn is_class(&self) -> (r: bool)
        ensures
            r == self@.is_class,
    {
        self.is_class
    }
}

/// The name a record is reported under in errors: its own, or a marker
/// for an anonymous one.
pub open spec fn spec_display_name(name: Option<Seq<char>>) -> Seq<char> {
    match name {
        Some(n) => n,
        None => "<anon>"@,
    }
}

/// The reported names of invalid members, with a marker for unnamed ones.
pub open spec fn spec_invalid_names(ms: Seq<Option<Seq<char>>>) -> Seq<Seq<char>> {
    ms.map_values(
        |m: Option<Seq<char>>|
            match m {
                Some(n) => n,
                None => "<anon>"@,
            },
    )
}

/// The display name used in error reports.
pub(crate) fn make_display_name(name: &Option<String>) -> (r: String)
    ensures
        r@ == spec_display_name(name.deep_view()),
{
    match name {
        Some(s) => s.clone(),
        None => "<anon>".to_owned(),
    }
}

/// The reported names of invalid members.
pub(crate) fn make_invalid_names(ms: &Vec<Option<String>>) -> (r: Vec<String>)
    ensures
        r.deep_view() == spec_invalid_names(ms.deep_view()),
{
    proof {
        assert(ms.deep_view().len() == ms@.len());
        assert(forall|j: int| 0 <= j < ms@.len() ==> #[trigger] ms.deep_view()[j]
            == ms@[j].deep_view());
    }
    let mut out: Vec<String> = Vec::new();
    let mut i: usize = 0;
    while i < ms.len()
        invariant
            0 <= i <= ms@.len(),
            out@.len() == i,
            forall|j: int| 0 <= j < i ==> #[trigger] out@[j]@ == spec_invalid_names(
                ms.deep_view(),
            )[j],
        decreases ms@.len() - i,
    {
        match &ms[i] {
            Some(nm) => out.push(nm.clone()),
            None => out.push("<anon>".to_owned()),
        }
        i = i + 1;
    }
    proof {
        assert(out.deep_view().len() == out@.len());
        assert(forall|j: int| 0 <= j < out@.len() ==> #[trigger] out.deep_view()[j] == out@[j]@);
        assert(out.deep_view() =~= spec_invalid_names(ms.deep_view()));
    }
    out
}

/// The first of the struct's own fields called `name`, in declaration
/// order; anonymous members are never found by name.
pub open spec fn spec_own_field(fields: Seq<StructFieldV>, name: Seq<char>) -> Option<
    StructFieldV,
> {
    first_where(fields, |f: StructFieldV| f.field.name == Some(name))
}

/// Field lookup: the struct's own fields first, then the bases in declared
/// order, recursively through the symbol table, the first base that has
/// the field winning.  Name clashes across several bases are not detected.
pub open spec fn spec_get_field(d: StructDeclV, e: TableV, name: Seq<char>, fuel: nat) -> Option<
    StructFieldV,
>
    decreases fuel, 2nat, 0nat,
{
    match spec_own_field(d.fields, name) {
        Some(f) => Some(f),
        None => spec_get_field_bases(d.base_types, e, name, fuel),
    }
}

/// The first base, in order, whose (transitively looked-up) declaration
/// has the field.
pub open spec fn spec_get_field_bases(
    bases: Seq<Seq<char>>,
    e: TableV,
    name: Seq<char>,
    fuel: nat,
) -> Option<StructFieldV>
    decreases fuel, 1nat, bases.len(),
{
    if bases.len() == 0 {
        None
    } else {
        match spec_base_hit(bases[0], e, name, fuel) {
            Some(f) => Some(f),
            None => spec_get_field_bases(bases.subrange(1, bases.len() as int), e, name, fuel),
        }
    }
}

/// The field `name` found through one base: resolve the base's name, step
/// through one further by-name indirection, and search the struct or class
/// it denotes.  Anything else yields nothing.
pub open spec fn spec_base_hit(base: Seq<char>, e: TableV, name: Seq<char>, fuel: nat) -> Option<
    StructFieldV,
>
    decreases fuel, 0nat, 0nat,
{
    if fuel == 0 {
        None
    } else {
        match lookup(e, base) {
            None => None,
            Some(t) => match spec_expand_named(t, e) {
                Some(TypeKindV::Struct(d2)) => spec_get_field(d2, e, name, (fuel - 1) as nat),
                Some(TypeKindV::Class(d2)) => spec_get_field(d2, e, name, (fuel - 1) as nat),
                _ => None,
            },
        }
    }
}

/// The base-type names of a record, in declaration order, or the error
/// for a base specifier whose type the front end could not give.
pub open spec fn spec_base_names(bs: Seq<Option<Seq<char>>>) -> Result<Seq<Seq<char>>, ParseErrorV>
    decreases bs,
{
    if bs.len() == 0 {
        Ok(Seq::empty())
    } else {
        match bs[0] {
            None => Err(ParseErrorV::InvalidAst { context: "base specifier without a type"@ }),
            Some(n) => match spec_base_names(bs.subrange(1, bs.len() as int)) {
                Err(er) => Err(er),
                Ok(rest) => Ok(seq![n] + rest),
            },
        }
    }
}

/// The fields of a struct built from its members in order, each with its
/// bit offset, stopping at the first member that is rejected: one that is
/// not a field declaration, one whose offset the front end could not
/// compute, or one whose own construction fails.
pub open spec fn spec_new_struct_fields(
    env: Env,
    e: TableV,
    dn: Seq<char>,
    ms: Seq<MemberInfoV>,
) -> Result<Seq<StructFieldV>, ParseErrorV>
    decreases ms,
{
    if ms.len() == 0 {
        Ok(Seq::empty())
    } else {
        match ms[0].kind {
            MemberKindV::Other { kind_name } => Err(
                ParseErrorV::UnsupportedEntity { at: "struct/class "@ + dn, context: kind_name },
            ),
            MemberKindV::Field => match ms[0].offset_bits {
                None => Err(
                    ParseErrorV::Offsetof {
                        field_name: match ms[0].name {
                            Some(n) => n,
                            None => Seq::empty(),
                        },
                        struct_name: dn,
                    },
                ),
                Some(off) => match spec_new_field(env, e, ms[0]) {
                    Err(er) => Err(er),
                    Ok(f) => match spec_new_struct_fields(
                        env,
                        e,
                        dn,
                        ms.subrange(1, ms.len() as int),
                    ) {
                        Err(er) => Err(er),
                        Ok(rest) => Ok(seq![StructFieldV { offset: off, field: f }] + rest),
                    },
                },
            },
        }
    }
}

/// The size derived from the field list when the front end cannot answer
/// for a non-empty record: the last field's byte offset plus its size —
/// or the second-to-last field's when the last is a trailing incomplete
/// array, whose own size is unknown.  A field whose size cannot be
/// resolved leaves the size unknown, reported rather than defaulted.
pub open spec fn spec_derived_size(fields: Seq<StructFieldV>, e: TableV, dn: Seq<char>) -> Result<
    usize,
    ParseErrorV,
> {
    if fields.len() == 0 {
        Err(ParseErrorV::Sizeof { ty_name: dn })
    } else {
        let last = fields[fields.len() - 1];
        let trailing_incomplete = last.field.kind matches TypeKindV::Array { size: None, .. };
        if trailing_incomplete && fields.len() < 2 {
            Err(ParseErrorV::Sizeof { ty_name: dn })
        } else {
            let target = if trailing_incomplete {
                fields[fields.len() - 2]
            } else {
                last
            };
            match spec_field_size(target.field, e, e.len()) {
                None => Err(ParseErrorV::Sizeof { ty_name: dn }),
                Some(fs) => {
                    let total = target.offset / 8 + fs;
                    if total > usize::MAX {
                        Err(ParseErrorV::Sizeof { ty_name: dn })
                    } else {
                        Ok(total as usize)
                    }
                },
            }
        }
    }
}

/// Whether one struct field lies within the reported size, as far as its
/// own size can be resolved.
pub open spec fn spec_struct_field_fits(f: StructFieldV, size: usize, e: TableV) -> bool {
    match spec_field_size(f.field, e, e.len()) {
        Some(fs) => f.offset / 8 + fs <= size,
        None => true,
    }
}

/// A complete struct's reported layout is consistent: the alignment is
/// positive, the size is a multiple of it, and every field whose size
/// resolves lies within the size.
pub open spec fn spec_struct_layout_ok(
    fields: Seq<StructFieldV>,
    size: usize,
    alignment: usize,
    e: TableV,
) -> bool {
    &&& alignment >= 1
    &&& (size as int) % (alignment as int) == 0
    &&& forall|i: int| 0 <= i < fields.len() ==> spec_struct_field_fits(
        #[trigger] fields[i],
        size,
        e,
    )
}

/// What constructing a struct or class declaration yields: the
/// declaration, or the first error in front-end order — a base specifier
/// without a type, an unlistable member list, invalid members behind an
/// empty field list, a rejected member, a size the front end could not
/// compute and the field list cannot supply, an alignment it could not
/// compute on a non-empty record (an empty one is tolerated at one byte),
/// or a reported layout that contradicts itself.
pub open spec fn spec_new_struct(
    env: Env,
    e: TableV,
    name: Option<Seq<char>>,
    r: crate::info::RecordInfoV,
) -> Result<StructDeclV, ParseErrorV>
    decreases r,
{
    let dn = spec_display_name(name);
    match spec_base_names(r.bases) {
        Err(er) => Err(er),
        Ok(bases) => {
            let is_class = r.kind is Class;
            match r.members {
                None => Err(ParseErrorV::UnsupportedType { context: dn }),
                Some(ms) => {
                    if ms.len() == 0 && r.invalid_members.len() > 0 {
                        Err(
                            ParseErrorV::InvalidFields {
                                field_names: spec_invalid_names(r.invalid_members),
                                struct_name: dn,
                            },
                        )
                    } else {
                        match spec_new_struct_fields(env, e, dn, ms) {
                            Err(er) => Err(er),
                            Ok(fields) => {
                                let size_r = match r.size {
                                    Some(s) => Ok(s),
                                    None => if ms.len() == 0 {
                                        Ok(1usize)
                                    } else {
                                        spec_derived_size(fields, e, dn)
                                    },
                                };
                                match size_r {
                                    Err(er) => Err(er),
                                    Ok(size) => {
                                        let align_r = match r.alignment {
                                            Some(a) => Ok(a),
                                            None => if ms.len() == 0 {
                                                Ok(1usize)
                                            } else {
                                                Err(ParseErrorV::Alignof { ty_name: dn })
                                            },
                                        };
                                        match align_r {
                                            Err(er) => Err(er),
                                            Ok(alignment) => {
                                                if r.size is Some && r.alignment is Some
                                                    && !spec_struct_layout_ok(
                                                    fields,
                                                    size,
                                                    alignment,
                                                    e,
                                                ) {
                                                    Err(
                                                        ParseErrorV::InconsistentLayout {
                                                            ty_name: dn,
                                                        },
                                                    )
                                                } else {
                                                    Ok(
                                                        StructDeclV {
                                                            name,
                                                            base_types: bases,
                                                            fields,
                                                            size,
                                                            alignment,
                                                            is_class,
                                                        },
                                                    )
                                                }
                                            },
                                        }
                                    },
                                }
                            },
                        }
                    }
                },
            }
        },
    }
}

/// Skipping bases without the field leaves the search result unchanged.
proof fn lemma_bases_skip(bases: Seq<Seq<char>>, e: TableV, name: Seq<char>, fuel: nat, i: int)
    requires
        0 <= i <= bases.len(),
        forall|j: int| 0 <= j < i ==> spec_base_hit(bases[j], e, name, fuel) is None,
    ensures
        spec_get_field_bases(bases, e, name, fuel) == spec_get_field_bases(
            bases.subrange(i, bases.len() as int),
            e,
            name,
            fuel,
        ),
    decreases i,
{
    if i > 0 {
        lemma_bases_skip(bases, e, name, fuel, i - 1);
        assert(bases.subrange(i - 1, bases.len() as int).subrange(1, bases.len() - i + 1)
            =~= bases.subrange(i, bases.len() as int));
        assert(bases.subrange(i - 1, bases.len() as int)[0] == bases[i - 1]);
    } else {
        assert(bases.subrange(0, bases.len() as int) =~= bases);
    }
}

fn build_base_names(bs: &Vec<Option<String>>, start: usize) -> (r: Result<Vec<String>, ParseError>)
    requires
        start <= bs@.len(),
    ensures
        ({
            let full = bs.deep_view();
            let want = spec_base_names(full.subrange(start as int, full.len() as int));
            match r {
                Ok(v) => want == Ok::<Seq<Seq<char>>, ParseErrorV>(v.deep_view()),
                Err(er) => want == Err::<Seq<Seq<char>>, ParseErrorV>(er@),
            }
        }),
    decreases bs@.len() - start,
{
    proof {
        assert(bs.deep_view().len() == bs@.len());
        assert(forall|j: int| 0 <= j < bs@.len() ==> #[trigger] bs.deep_view()[j]
            == bs@[j].deep_view());
    }
    let ghost full = bs.deep_view();
    let ghost suffix = full.subrange(start as int, full.len() as int);
    if start >= bs.len() {
        let v: Vec<String> = Vec::new();
        proof {
            assert(suffix =~= Seq::<Option<Seq<char>>>::empty());
            assert(v.deep_view() =~= Seq::<Seq<char>>::empty());
        }
        return Ok(v);
    }
    proof {
        assert(suffix[0] == full[start as int]);
        assert(suffix.subrange(1, suffix.len() as int) =~= full.subrange(
            start + 1,
            full.len() as int,
        ));
    }
    let head: String = match &bs[start] {
        None => {
            return Err(
                ParseError::InvalidAst { context: "base specifier without a type".to_owned() },
            );
        },
        Some(nm) => nm.clone(),
    };
    let rest = build_base_names(bs, start + 1);
    match rest {
        Err(er) => Err(er),
        Ok(mut v) => {
            let ghost rest_view = v@;
            let ghost rest_deep = v.deep_view();
            v.insert(0, head);
            proof {
                assert(v@ =~= seq![head] + rest_view);
                assert(v.deep_view().len() == v@.len());
                assert(forall|j: int| 0 <= j < v@.len() ==> #[trigger] v.deep_view()[j]
                    == v@[j]@);
                assert(rest_deep.len() == rest_view.len());
                assert(forall|j: int| 0 <= j < rest_view.len() ==> #[trigger] rest_deep[j]
                    == rest_view[j]@);
                assert(v.deep_view() =~= seq![head@] + rest_deep);
            }
            Ok(v)
        },
    }
}

fn build_struct_fields(
    env: &Env,
    types: &Types,
    ms: &Vec<MemberInfo>,
    start: usize,
    dn: &String,
) -> (r: Result<Vec<StructField>, ParseError>)
    requires
        start <= ms@.len(),
    ensures
        ({
            let full = view_member_seq(ms@);
            let want = spec_new_struct_fields(
                *env,
                types@,
                dn@,
                full.subrange(start as int, full.len() as int),
            );
            match r {
                Ok(v) => want == Ok::<Seq<StructFieldV>, ParseErrorV>(view_struct_field_seq(v@)),
                Err(er) => want == Err::<Seq<StructFieldV>, ParseErrorV>(er@),
            }
        }),
    decreases ms@, ms@.len() - start,
{
    proof {
        lemma_view_member_seq(ms@);
    }
    let ghost full = view_member_seq(ms@);
    let ghost suffix = full.subrange(start as int, full.len() as int);
    if start >= ms.len() {
        let v: Vec<StructField> = Vec::new();
        proof {
            assert(suffix =~= Seq::<MemberInfoV>::empty());
            assert(view_struct_field_seq(v@) =~= Seq::<StructFieldV>::empty());
        }
        return Ok(v);
    }
    proof {
        assert(suffix[0] == full[start as int]);
        assert(suffix.subrange(1, suffix.len() as int) =~= full.subrange(
            start + 1,
            full.len() as int,
        ));
    }
    let m = &ms[start];
    match &m.kind {
        MemberKind::Other { kind_name } => {
            return Err(
                ParseError::UnsupportedEntity {
                    at: "struct/class ".to_owned().concat(dn.as_str()),
                    context: kind_name.clone(),
                },
            );
        },
        MemberKind::Field => (),
    }
    let offset: usize = match m.offset_bits {
        None => {
            let field_name: String = match &m.name {
                Some(n) => n.clone(),
                None => String::new(),
            };
            return Err(ParseError::Offsetof { field_name, struct_name: dn.clone() });
        },
        Some(off) => off,
    };
    let head_field = match Field::new(env, types, m) {
        Err(er) => {
            return Err(er);
        },
        Ok(f) => f,
    };
    let head = StructField { offset, field: head_field };
    let rest = build_struct_fields(env, types, ms, start + 1, dn);
    match rest {
        Err(er) => Err(er),
        Ok(mut v) => {
            let ghost rest_view = v@;
            v.insert(0, head);
            proof {
                assert(v@ =~= seq![head] + rest_view);
                lemma_view_struct_field_seq(v@);
                lemma_view_struct_field_seq(rest_view);
                assert(view_struct_field_seq(v@) =~= seq![view_struct_field(head)]
                    + view_struct_field_seq(rest_view));
            }
            Ok(v)
        },
    }
}

#[verifier::rlimit(100)]
#[verifier::loop_isolation(false)]
fn check_struct_layout(
    fields: &Vec<StructField>,
    size: usize,
    alignment: usize,
    types: &Types,
) -> (r: bool)
    ensures
        r == spec_struct_layout_ok(view_struct_field_seq(fields@), size, alignment, types@),
{
    proof {
        lemma_view_struct_field_seq(fields@);
    }
    if alignment == 0 {
        return false;
    }
    if size % alignment != 0 {
        return false;
    }
    let mut i: usize = 0;
    while i < fields.len()
        invariant
            0 <= i <= fields@.len(),
            view_struct_field_seq(fields@).len() == fields@.len(),
            forall|j: int| 0 <= j < fields@.len() ==> #[trigger] view_struct_field_seq(fields@)[j]
                == view_struct_field(fields@[j]),
            forall|j: int| 0 <= j < i ==> spec_struct_field_fits(
                #[trigger] view_struct_field_seq(fields@)[j],
                size,
                types@,
            ),
        decreases fields@.len() - i,
    {
        let f = &fields[i];
        match f.field.size(types) {
            Some(fs) => {
                let ob = f.offset / 8;
                if ob > size || fs > size - ob {
                    proof {
                        assert(!spec_struct_field_fits(
                            view_struct_field_seq(fields@)[i as int],
                            size,
                            types@,
                        ));
                    }
                    return false;
                }
            },
            None => (),
        }
        i = i + 1;
    }
    true
}

fn derived_struct_size(fields: &Vec<StructField>, types: &Types, dn: &String) -> (r: Result<
    usize,
    ParseError,
>)
    ensures
        ({
            let want = spec_derived_size(view_struct_field_seq(fields@), types@, dn@);
            match r {
                Ok(v) => want == Ok::<usize, ParseErrorV>(v),
                Err(er) => want == Err::<usize, ParseErrorV>(er@),
            }
        }),
{
    proof {
        lemma_view_struct_field_seq(fields@);
        reveal_with_fuel(view_kind, 2);
    }
    if fields.len() == 0 {
        return Err(ParseError::Sizeof { ty_name: dn.clone() });
    }
    let last_i = fields.len() - 1;
    let trailing_incomplete = match &fields[last_i].field.kind {
        TypeKind::Array { size: None, .. } => true,
        _ => false,
    };
    let ti: usize = if trailing_incomplete {
        if fields.len() < 2 {
            return Err(ParseError::Sizeof { ty_name: dn.clone() });
        }
        last_i - 1
    } else {
        last_i
    };
    let target = &fields[ti];
    match target.field.size(types) {
        None => Err(ParseError::Sizeof { ty_name: dn.clone() }),
        Some(fs) => {
            let ob = target.offset / 8;
            match ob.checked_add(fs) {
                None => Err(ParseError::Sizeof { ty_name: dn.clone() }),
                Some(total) => Ok(total),
            }
        },
    }
}

impl StructDecl {
    /// Builds a struct or class declaration from the front end's snapshot
    /// of a record, as described by [`spec_new_struct`]: base names and
    /// fields with bit offsets in declaration order, and the front end's
    /// authoritative size and alignment, cross-checked against the field
    /// list.  When the front end cannot size a non-empty record, the size
    /// is derived from the last field's offset and size; a genuinely
    /// empty record is tolerated at one byte.
    pub fn new(env: &Env, types: &Types, name: Option<String>, record: &RecordInfo) -> (r: Result<
        StructDecl,
        ParseError,
    >)
        ensures
            match r {
                Ok(v) => spec_new_struct(*env, types@, name.deep_view(), record@) == Ok::<
                    StructDeclV,
                    ParseErrorV,
                >(v@),
                Err(er) => spec_new_struct(*env, types@, name.deep_view(), record@) == Err::<
                    StructDeclV,
                    ParseErrorV,
                >(er@),
            },
        decreases *record, 0int,
    {
        let dn = make_display_name(&name);
        proof {
            let fullb = record.bases.deep_view();
            assert(fullb.subrange(0, fullb.len() as int) =~= fullb);
        }
        let base_types = match build_base_names(&record.bases, 0) {
            Err(er) => {
                return Err(er);
            },
            Ok(v) => v,
        };
        let is_class = match &record.kind {
            RecordKind::Class => true,
            _ => false,
        };
        let members = match &record.members {
            None => {
                return Err(ParseError::UnsupportedType { context: dn });
            },
            Some(ms) => ms,
        };
        proof {
            let full = view_member_seq(members@);
            assert(full.subrange(0, full.len() as int) =~= full);
        }
        if members.len() == 0 && record.invalid_members.len() > 0 {
            let field_names = make_invalid_names(&record.invalid_members);
            return Err(ParseError::InvalidFields { field_names, struct_name: dn });
        }
        let fields = match build_struct_fields(env, types, members, 0, &dn) {
            Err(er) => {
                return Err(er);
            },
            Ok(v) => v,
        };
        let has_size = match record.size {
            Some(_) => true,
            None => false,
        };
        let has_alignment = match record.alignment {
            Some(_) => true,
            None => false,
        };
        let size: usize = match record.size {
            Some(s) => s,
            None => {
                if members.len() == 0 {
                    1
                } else {
                    match derived_struct_size(&fields, types, &dn) {
                        Err(er) => {
                            return Err(er);
                        },
                        Ok(s) => s,
                    }
                }
            },
        };
        let alignment: usize = match record.alignment {
            Some(a) => a,
            None => {
                if members.len() == 0 {
                    1
                } else {
                    return Err(ParseError::Alignof { ty_name: dn });
                }
            },
        };
        if has_size && has_alignment {
            if !check_struct_layout(&fields, size, alignment, types) {
                return Err(ParseError::InconsistentLayout { ty_name: dn });
            }
        }
        Ok(StructDecl { name, base_types, fields, size, alignment, is_class })
    }

    /// The field called `name`: the struct's own fields are searched
    /// first, then the bases in declared order, recursively through
    /// `types`, the first base that has the field winning.
    pub fn get_field<'a>(&'a self, types: &'a Types, name: &str) -> (r: Option<&'a StructField>)
        ensures
            match r {
                Some(f) => spec_get_field(self@, types@, name@, types@.len() as nat) == Some(f@),
                None => spec_get_field(self@, types@, name@, types@.len() as nat) is None,
            },
    {
        let fuel = types.len();
        self.get_field_rec(types, name, fuel)
    }

    fn get_field_rec<'a>(&'a self, types: &'a Types, name: &str, fuel: usize) -> (r: Option<
        &'a StructField,
    >)
        ensures
            match r {
                Some(f) => spec_get_field(self@, types@, name@, fuel as nat) == Some(f@),
                None => spec_get_field(self@, types@, name@, fuel as nat) is None,
            },
        decreases fuel,
    {
        proof {
            reveal_with_fuel(view_kind, 2);
            lemma_view_struct_field_seq(self.fields@);
        }
        let ghost p = |f: StructFieldV| f.field.name == Some(name@);
        let mut i: usize = 0;
        while i < self.fields.len()
            invariant
                0 <= i <= self.fields.len(),
                p == (|f: StructFieldV| f.field.name == Some(name@)),
                self@.fields.len() == self.fields@.len(),
                forall|j: int| 0 <= j < self.fields@.len() ==> #[trigger] self@.fields[j]
                    == view_struct_field(self.fields@[j]),
                forall|j: int| 0 <= j < i ==> !p(self@.fields[j]),
            decreases self.fields.len() - i,
        {
            let f = &self.fields[i];
            if opt_name_is(&f.field.name, name) {
                proof {
                    lemma_first_where_found(self@.fields, p, i as int);
                }
                return Some(f);
            }
            i = i + 1;
        }
        proof {
            lemma_first_where_none(self@.fields, p);
        }
        let ghost e = types@;
        let mut b: usize = 0;
        while b < self.base_types.len()
            invariant
                0 <= b <= self.base_types.len(),
                e == types@,
                spec_own_field(self@.fields, name@) is None,
                self@.base_types.len() == self.base_types@.len(),
                forall|j: int| 0 <= j < self.base_types@.len() ==> #[trigger] self@.base_types[j]
                    == self.base_types@[j]@,
                forall|j: int| 0 <= j < b ==> spec_base_hit(
                    #[trigger] self@.base_types[j],
                    e,
                    name@,
                    fuel as nat,
                ) is None,
            decreases self.base_types.len() - b,
        {
            let hit: Option<&StructField> = if fuel == 0 {
                None
            } else {
                match types.get(self.base_types[b].as_str()) {
                    Some(t) => match t.expand_named(types) {
                        Some(t2) => match t2 {
                            TypeKind::Struct(d2) => d2.get_field_rec(types, name, fuel - 1),
                            TypeKind::Class(d2) => d2.get_field_rec(types, name, fuel - 1),
                            _ => None,
                        },
                        None => None,
                    },
                    None => None,
                }
            };
            match hit {
                Some(f) => {
                    proof {
                        lemma_bases_skip(self@.base_types, e, name@, fuel as nat, b as int);
                        assert(self@.base_types.subrange(b as int, self@.base_types.len() as int)[0]
                            == self@.base_types[b as int]);
                    }
                    return Some(f);
                },
                None => (),
            }
            b = b + 1;
        }
        proof {
            lemma_bases_skip(self@.base_types, e, name@, fuel as nat, self@.base_types.len() as int);
        }
        None
    }
}

impl StructField {
    /// The field's offset in whole bytes; bit-fields packed into the same
    /// byte share it.
    pub fn offset_bytes(&self) -> (r: usize)
        ensures
            r == self@.offset / 8,
    {
        self.offset / 8
    }

    /// The field's offset in bits.
    pub fn offset_bits(&self) -> (r: usize)
        ensures
            r == self@.offset,
    {
        self.offset
    }

    pub fn name(&self) -> (r: Option<&str>)
        ensures
            match r {
                Some(s) => self@.field.name == Some(s@),
                None => self@.field.name is None,
            },
    {
        self.field.name()
    }

    pub fn kind(&self) -> (r: &TypeKind)
        ensures
            r@ == self@.field.kind,
    {
        self.field.kind()
    }

    pub fn constant(&self) -> (r: bool)
        ensures
            r == self@.field.constant,
    {
        self.field.constant()
    }

    pub fn volatile(&self) -> (r: bool)
        ensures
            r == self@.field.volatile,
    {
        self.field.volatile()
    }

    pub fn bit_field_width(&self) -> (r: Option<u8>)
        ensures
            r == self@.field.bit_field_width,
    {
        self.field.bit_field_width()
    }

    /// The bytes the field occupies: the bit-field width rounded up to
    /// whole bytes for a bit-field, else the size of its type.
    pub fn size(&self, types: &Types) -> (r: Option<usize>)
        ensures
            r == spec_field_size(self@.field, types@, types@.len() as nat),
    {
        self.field.size(types)
    }
}

/// Aggregate containment: every field of a complete struct or class —
/// one whose size and alignment the front end reported, cross-checked at
/// construction — lies within the reported size as far as its own size
/// resolves, and the size is a positive multiple of the alignment.  This
/// holds of any declaration the constructor admits, under the table it
/// was admitted against.
pub proof fn lemma_struct_fields_within(
    env: Env,
    e: TableV,
    name: Option<Seq<char>>,
    r: crate::info::RecordInfoV,
    d: StructDeclV,
)
    requires
        spec_new_struct(env, e, name, r) == Ok::<StructDeclV, ParseErrorV>(d),
        r.size is Some,
        r.alignment is Some,
    ensures
        d.alignment >= 1,
        (d.size as int) % (d.alignment as int) == 0,
        forall|i: int| 0 <= i < d.fields.len() ==> spec_struct_field_fits(
            #[trigger] d.fields[i],
            d.size,
            e,
        ),
{
    assert(spec_struct_layout_ok(d.fields, d.size, d.alignment, e));
}

/// Aggregate containment for unions: every field of a complete union
/// fits in the reported size as far as its own size resolves, and the
/// size is a positive multiple of the alignment.
pub proof fn lemma_union_fields_within(
    env: Env,
    e: TableV,
    name: Option<Seq<char>>,
    r: crate::info::RecordInfoV,
    d: crate::union_decl::UnionDeclV,
)
    requires
        crate::union_decl::spec_new_union(env, e, name, r) == Ok::<
            crate::union_decl::UnionDeclV,
            ParseErrorV,
        >(d),
        r.size is Some,
        r.alignment is Some,
    ensures
        d.alignment >= 1,
        (d.size as int) % (d.alignment as int) == 0,
        forall|i: int| 0 <= i < d.fields.len() ==> crate::union_decl::spec_union_field_fits(
            #[trigger] d.fields[i],
            d.size,
            e,
        ),
{
    assert(crate::union_decl::spec_union_layout_ok(d.fields, d.size, d.alignment, e));
}

/// Inheritance field lookup: a derived type with no field of the given
/// name of its own, whose base resolves through the table to a struct or
/// class declaring it, finds the base's field — the very field value, so
/// its type and bit offset are preserved.
pub proof fn lemma_inherited_field(
    d: StructDeclV,
    db: StructDeclV,
    b: Seq<char>,
    e: TableV,
    name: Seq<char>,
    f: StructFieldV,
    fuel: nat,
)
    requires
        spec_own_field(d.fields, name) is None,
        d.base_types == seq![b],
        lookup(e, b) == Some(TypeKindV::Struct(db)),
        spec_own_field(db.fields, name) == Some(f),
        fuel >= 1,
    ensures
        spec_get_field(d, e, name, fuel) == Some(f),
{
    reveal_with_fuel(spec_get_field, 2);
    reveal_with_fuel(spec_get_field_bases, 2);
    reveal_with_fuel(spec_base_hit, 2);
    assert(d.base_types[0] == b);
    assert(spec_expand_named(TypeKindV::Struct(db), e) == Some(TypeKindV::Struct(db)));
    assert(spec_get_field(db, e, name, (fuel - 1) as nat) == Some(f));
    assert(spec_base_hit(b, e, name, fuel) == Some(f));
    assert(d.base_types.subrange(1, 1) =~= Seq::<Seq<char>>::empty());
}

impl View for StructDecl {
    type V = StructDeclV;

    open spec fn view(&self) -> StructDeclV {
        view_struct_decl(*self)
    }
}

impl View for StructField {
    type V = StructFieldV;

    open spec fn view(&self) -> StructFieldV {
        view_struct_field(*self)
    }
}

/// Relates the sequence view to its elements.
pub broadcast proof fn lemma_view_struct_field_seq(s: Seq<StructField>)
    ensures
        (#[trigger] view_struct_field_seq(s)).len() == s.len(),
        forall|i: int| 0 <= i < s.len() ==> view_struct_field_seq(s)[i] == view_struct_field(s[i]),
    decreases s,
{
    if s.len() > 0 {
        lemma_view_struct_field_seq(s.subrange(1, s.len() as int));
    }
}

} // verus!
