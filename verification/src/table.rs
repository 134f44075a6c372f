//! The symbol table: an insertion-ordered name-to-type mapping, one entry
//! per distinct top-level name, with the cross-unit merge algorithm.
//!
//! The table is backed by `indexmap::IndexMap`; the map itself is trusted
//! through the wrappers below, whose contracts state what the crate's
//! documented behaviour guarantees, and everything built on top of them is
//! verified.

use std::collections::hash_map::RandomState;

use indexmap::IndexMap;
use vstd::prelude::*;

use crate::kind::{spec_is_forward, TypeKind, TypeKindV};
use crate::search::{first_where, lemma_first_where_found, lemma_first_where_none};
use crate::structural::{clone_kind, eq_kind};

verus! {

/// The mathematical model of a symbol table: its entries in insertion
/// order, names as character sequences.
pub type TableV = Seq<(Seq<char>, TypeKindV)>;

#[verifier::external_type_specification]
#[verifier::external_body]
#[verifier::reject_recursive_types(K)]
#[verifier::reject_recursive_types(V)]
#[verifier::reject_recursive_types(S)]
pub struct ExIndexMap<K, V, S>(IndexMap<K, V, S>);

/// The entries a backing map holds, in insertion order.
pub uninterp spec fn table_entries(m: IndexMap<String, TypeKind, RandomState>) -> TableV;

/// Whether some entry carries the name `k`.
pub open spec fn has_key(e: TableV, k: Seq<char>) -> bool {
    exists|i: int| 0 <= i < e.len() && e[i].0 == k
}

/// The index of the entry named `k`; meaningful only when `has_key` holds,
/// and unique on a table with distinct names.
pub open spec fn key_index(e: TableV, k: Seq<char>) -> int {
    choose|i: int| 0 <= i < e.len() && e[i].0 == k
}

/// The value of the first entry named `k`, or `None`.
pub open spec fn lookup(e: TableV, k: Seq<char>) -> Option<TypeKindV> {
    match first_where(e, |p: (Seq<char>, TypeKindV)| p.0 == k) {
        Some(p) => Some(p.1),
        None => None,
    }
}

/// What inserting `k -> v` does to the entries: an existing name keeps its
/// place and gets the new value; a new name is appended.
pub open spec fn spec_insert(e: TableV, k: Seq<char>, v: TypeKindV) -> TableV {
    if has_key(e, k) {
        e.update(key_index(e, k), (k, v))
    } else {
        e.push((k, v))
    }
}

/// Every entry carries a distinct name.
pub open spec fn distinct_keys(e: TableV) -> bool {
    forall|i: int, j: int| 0 <= i < j < e.len() ==> e[i].0 != e[j].0
}

/// Relies on `indexmap::IndexMap::new`: a new map is empty.
#[verifier::external_body]
fn map_new() -> (r: IndexMap<String, TypeKind, RandomState>)
    ensures
        table_entries(r) == Seq::<(Seq<char>, TypeKindV)>::empty(),
{
    IndexMap::new()
}

/// Relies on `indexmap::IndexMap::len`: the number of entries.
#[verifier::external_body]
fn map_len(m: &IndexMap<String, TypeKind, RandomState>) -> (r: usize)
    ensures
        r == table_entries(*m).len(),
{
    m.len()
}

/// Relies on `indexmap::IndexMap::get`: the value stored for an equivalent
/// key, if one is present.
#[verifier::external_body]
fn map_get<'a>(m: &'a IndexMap<String, TypeKind, RandomState>, name: &str) -> (r: Option<
    &'a TypeKind,
>)
    ensures
        match r {
            Some(v) => lookup(table_entries(*m), name@) == Some(v@),
            None => lookup(table_entries(*m), name@) is None,
        },
{
    m.get(name)
}

/// Relies on `indexmap::IndexMap::insert`: an equivalent key keeps its
/// place in the order and gets the new value, the old value coming back;
/// a new key is appended and `None` comes back.
#[verifier::external_body]
fn map_insert(m: &mut IndexMap<String, TypeKind, RandomState>, key: String, value: TypeKind) -> (r:
    Option<TypeKind>)
    ensures
        table_entries(*final(m)) == spec_insert(table_entries(*old(m)), key@, value@),
        r is Some <==> has_key(table_entries(*old(m)), key@),
        r matches Some(v) ==> v@ == table_entries(*old(m))[key_index(
            table_entries(*old(m)),
            key@,
        )].1,
{
    m.insert(key, value)
}

/// Relies on `indexmap::IndexMap::get_index`: the entry at a position in
/// insertion order.
#[verifier::external_body]
fn map_get_index<'a>(m: &'a IndexMap<String, TypeKind, RandomState>, i: usize) -> (r: Option<
    (&'a String, &'a TypeKind),
>)
    ensures
        i < table_entries(*m).len() ==> (match r {
            Some(p) => table_entries(*m)[i as int] == (p.0@, p.1@),
            None => false,
        }),
        i >= table_entries(*m).len() ==> r is None,
{
    match m.get_index(i) {
        Some((k, v)) => Some((k, v)),
        None => None,
    }
}

/// Relies on `indexmap::map::IntoIter` (`IndexMap::into_iter`): consuming
/// the map yields its entries in insertion order.
#[verifier::external_body]
fn map_into_vec(m: IndexMap<String, TypeKind, RandomState>) -> (r: Vec<(String, TypeKind)>)
    ensures
        r@.len() == table_entries(m).len(),
        forall|i: int| 0 <= i < r@.len() ==> #[trigger] table_entries(m)[i] == (r@[i].0@, r@[i].1@),
{
    m.into_iter().collect()
}

/// The symbol table: an ordered name-to-type mapping with one entry per
/// distinct top-level name within one parse.
pub struct Types {
    map: IndexMap<String, TypeKind, RandomState>,
}

impl View for Types {
    type V = TableV;

    closed spec fn view(&self) -> TableV {
        table_entries(self.map)
    }
}

impl Default for Types {
    /// An empty table.
    fn default() -> (r: Self)
        ensures
            r@ == Seq::<(Seq<char>, TypeKindV)>::empty(),
            r.wf(),
    {
        Types { map: map_new() }
    }
}

impl Types {
    /// Every name in the table is distinct; established at construction
    /// and preserved by every operation.
    pub open spec fn wf(self) -> bool {
        distinct_keys(self@)
    }

    /// An empty table.
    pub fn new() -> (r: Self)
        ensures
            r@ == Seq::<(Seq<char>, TypeKindV)>::empty(),
            r.wf(),
    {
        Types { map: map_new() }
    }

    /// The number of entries.
    pub fn len(&self) -> (r: usize)
        ensures
            r == self@.len(),
    {
        map_len(&self.map)
    }

    pub fn is_empty(&self) -> (r: bool)
        ensures
            r == (self@.len() == 0),
    {
        self.len() == 0
    }

    /// The type stored under `name`, or `None`.
    pub fn get<'a>(&'a self, name: &str) -> (r: Option<&'a TypeKind>)
        ensures
            match r {
                Some(v) => lookup(self@, name@) == Some(v@),
                None => lookup(self@, name@) is None,
            },
    {
        map_get(&self.map, name)
    }

    /// Inserts a declaration under its own name.  An unnamed declaration
    /// cannot be added and leaves the table unchanged.
    pub fn add_type(&mut self, kind: TypeKind) -> (r: bool)
        requires
            old(self).wf(),
        ensures
            final(self).wf(),
            match crate::kind::spec_kind_name(kind@) {
                Some(nm) => r && final(self)@ == spec_insert(old(self)@, nm, kind@),
                None => !r && final(self)@ == old(self)@,
            },
    {
        let owned: Option<String> = match kind.name() {
            Some(s) => Some(s.to_owned()),
            None => None,
        };
        match owned {
            Some(name) => {
                let ghost e0 = self@;
                map_insert(&mut self.map, name, kind);
                proof {
                    lemma_insert_distinct(e0, spec_kind_name(kind@)->Some_0, kind@);
                }
                true
            },
            None => false,
        }
    }

    /// Folds another table into this one, entry by entry in `other`'s
    /// insertion order, by the rules of [`spec_merge_one`]: new names are
    /// inserted, forward declarations are promoted by fuller definitions
    /// and never regress one, and two structurally different full
    /// definitions stop the merge with both attached.  Entries processed
    /// before a conflict remain applied.
    #[verifier::loop_isolation(false)]
    pub fn extend(&mut self, other: Types) -> (r: Result<(), ExtendTypesError>)
        requires
            old(self).wf(),
        ensures
            final(self).wf(),
            ({
                let m = spec_merge(old(self)@, other@);
                match r {
                    Ok(_) => m.1 is None && final(self)@ == m.0,
                    Err(err) => final(self)@ == m.0 && match err@ {
                        ExtendTypesErrorV::ConflictingTypes { left, right } => m.1 == Some(
                            (left, right),
                        ),
                    },
                }
            }),
    {
        let ghost e0 = self@;
        let ghost pv = other@;
        let Types { map } = other;
        let pairs = map_into_vec(map);
        proof {
            assert(pv.subrange(0, pv.len() as int) =~= pv);
        }
        let n = pairs.len();
        let mut i: usize = 0;
        while i < n
            invariant
                self.wf(),
                n == pairs@.len(),
                pv.len() == pairs@.len(),
                forall|j: int| 0 <= j < pv.len() ==> #[trigger] pv[j] == (
                    pairs@[j].0@,
                    pairs@[j].1@,
                ),
                0 <= i <= n,
                spec_merge(e0, pv) == spec_merge(self@, pv.subrange(i as int, pv.len() as int)),
            decreases n - i,
        {
            let ghost e_cur = self@;
            let ghost suffix = pv.subrange(i as int, pv.len() as int);
            proof {
                assert(suffix[0] == pv[i as int]);
                assert(suffix.subrange(1, suffix.len() as int) =~= pv.subrange(
                    i + 1,
                    pv.len() as int,
                ));
            }
            let kref = &pairs[i].0;
            let vref = &pairs[i].1;
            let mut do_insert = false;
            let mut conflict_left: Option<TypeKind> = None;
            match map_get(&self.map, kref.as_str()) {
                None => {
                    do_insert = true;
                },
                Some(cur) => {
                    if cur.is_forward_decl() {
                        do_insert = true;
                    } else if !vref.is_forward_decl() && !eq_kind(cur, vref) {
                        conflict_left = Some(clone_kind(cur));
                    }
                },
            }
            match conflict_left {
                Some(left) => {
                    let right = clone_kind(vref);
                    let err = ExtendTypesError::ConflictingTypes {
                        left: Box::new(left),
                        right: Box::new(right),
                    };
                    return Err(err);
                },
                None => (),
            }
            if do_insert {
                let key = kref.clone();
                let value = clone_kind(vref);
                map_insert(&mut self.map, key, value);
                proof {
                    lemma_insert_distinct(e_cur, pv[i as int].0, pv[i as int].1);
                }
            }
            i = i + 1;
        }
        proof {
            assert(pv.subrange(i as int, pv.len() as int) =~= Seq::<
                (Seq<char>, TypeKindV),
            >::empty());
        }
        Ok(())
    }

    /// The stored types in insertion order.
    pub fn types(&self) -> (r: Vec<&TypeKind>)
        ensures
            r@.len() == self@.len(),
            forall|i: int| 0 <= i < r@.len() ==> #[trigger] r@[i]@ == self@[i].1,
    {
        let n = self.len();
        let mut out: Vec<&TypeKind> = Vec::new();
        let mut i: usize = 0;
        while i < n
            invariant
                n == self@.len(),
                0 <= i <= n,
                out@.len() == i,
                forall|j: int| 0 <= j < i ==> #[trigger] out@[j]@ == self@[j].1,
            decreases n - i,
        {
            match map_get_index(&self.map, i) {
                Some((_, v)) => out.push(v),
                None => {
                    proof {
                        assert(false);
                    }
                },
            }
            i = i + 1;
        }
        out
    }
}

use crate::kind::spec_kind_name;

/// The failure of a cross-unit merge.
#[derive(Debug)]
pub enum ExtendTypesError {
    /// Two full definitions for the same name disagree structurally; both
    /// are carried for diagnostics.
    ConflictingTypes { left: Box<TypeKind>, right: Box<TypeKind> },
}

/// The mathematical model of an [`ExtendTypesError`].
pub enum ExtendTypesErrorV {
    ConflictingTypes { left: TypeKindV, right: TypeKindV },
}

impl View for ExtendTypesError {
    type V = ExtendTypesErrorV;

    open spec fn view(&self) -> ExtendTypesErrorV {
        match self {
            ExtendTypesError::ConflictingTypes { left, right } => (ExtendTypesErrorV::ConflictingTypes {
                left: left@,
                right: right@,
            }),
        }
    }
}

/// One step of the merge: how `k -> v` from the incoming table combines
/// with the entries `e`.
///
/// A new name is inserted; a forward declaration in `e` is replaced
/// (promoted) by the incoming entry, forward or not; a full definition in
/// `e` is kept against an incoming forward declaration; two full
/// definitions must be structurally equal, else the step reports them as
/// a conflict and leaves `e` unchanged.
pub open spec fn spec_merge_one(e: TableV, k: Seq<char>, v: TypeKindV) -> (TableV, Option<
    (TypeKindV, TypeKindV),
>) {
    match lookup(e, k) {
        None => (spec_insert(e, k, v), None),
        Some(cur) => {
            if spec_is_forward(cur) {
                (spec_insert(e, k, v), None)
            } else if !spec_is_forward(v) && cur != v {
                (e, Some((cur, v)))
            } else {
                (e, None)
            }
        },
    }
}

/// The merge of a sequence of incoming entries into `e`, in order,
/// stopping at the first conflict.  The resulting entries are those after
/// every step processed before the conflict; a conflict carries the
/// clashing definitions, `e`'s first.
pub open spec fn spec_merge(e: TableV, pairs: Seq<(Seq<char>, TypeKindV)>) -> (TableV, Option<
    (TypeKindV, TypeKindV),
>)
    decreases pairs.len(),
{
    if pairs.len() == 0 {
        (e, None)
    } else {
        let step = spec_merge_one(e, pairs[0].0, pairs[0].1);
        if step.1 is Some {
            step
        } else {
            spec_merge(step.0, pairs.subrange(1, pairs.len() as int))
        }
    }
}

/// On a table with distinct names, the entry at `i` is what its name
/// looks up to, and `key_index` finds exactly `i`.
pub proof fn lemma_lookup_at(e: TableV, i: int)
    requires
        distinct_keys(e),
        0 <= i < e.len(),
    ensures
        lookup(e, e[i].0) == Some(e[i].1),
        key_index(e, e[i].0) == i,
{
    let p = |pr: (Seq<char>, TypeKindV)| pr.0 == e[i].0;
    assert(forall|j: int| 0 <= j < i ==> !p(e[j]));
    lemma_first_where_found(e, p, i);
    assert(has_key(e, e[i].0));
    let j = key_index(e, e[i].0);
    assert(0 <= j < e.len() && e[j].0 == e[i].0);
}

/// Merge idempotence: merging a table's entries into that same table —
/// extending a table with itself or with a structurally identical copy —
/// leaves every entry as it was and never reports a conflict.
pub proof fn lemma_merge_idempotent(e: TableV)
    requires
        distinct_keys(e),
    ensures
        spec_merge(e, e) == (e, Option::<(TypeKindV, TypeKindV)>::None),
{
    lemma_merge_self_suffix(e, 0);
    assert(e.subrange(0, e.len() as int) =~= e);
}

/// Merging any suffix of a table's own entries back into it is a no-op.
proof fn lemma_merge_self_suffix(e: TableV, i: int)
    requires
        distinct_keys(e),
        0 <= i <= e.len(),
    ensures
        spec_merge(e, e.subrange(i, e.len() as int)) == (
            e,
            Option::<(TypeKindV, TypeKindV)>::None,
        ),
    decreases e.len() - i,
{
    let suffix = e.subrange(i, e.len() as int);
    if suffix.len() > 0 {
        assert(suffix[0] == e[i]);
        lemma_lookup_at(e, i);
        let step = spec_merge_one(e, e[i].0, e[i].1);
        if spec_is_forward(e[i].1) {
            assert(step.0 == spec_insert(e, e[i].0, e[i].1));
            assert(e.update(i, (e[i].0, e[i].1)) =~= e);
        }
        assert(step == (e, Option::<(TypeKindV, TypeKindV)>::None));
        lemma_merge_self_suffix(e, i + 1);
        assert(suffix.subrange(1, suffix.len() as int) =~= e.subrange(i + 1, e.len() as int));
    }
}

/// Merge promotion: a forward declaration is promoted by a full
/// definition of the same name, and a full definition is never regressed
/// by a forward declaration — so the same table results in either merge
/// order.
pub proof fn lemma_merge_promotes(k: Seq<char>, fwd: TypeKindV, full: TypeKindV)
    requires
        spec_is_forward(fwd),
        !spec_is_forward(full),
    ensures
        spec_merge(seq![(k, fwd)], seq![(k, full)]) == (
            seq![(k, full)],
            Option::<(TypeKindV, TypeKindV)>::None,
        ),
        spec_merge(seq![(k, full)], seq![(k, fwd)]) == (
            seq![(k, full)],
            Option::<(TypeKindV, TypeKindV)>::None,
        ),
{
    reveal_with_fuel(spec_merge, 3);
    lemma_lookup_at(seq![(k, fwd)], 0);
    lemma_lookup_at(seq![(k, full)], 0);
    assert(has_key(seq![(k, fwd)], k)) by {
        assert(seq![(k, fwd)][0].0 == k);
    }
    assert(seq![(k, fwd)].update(0, (k, full)) =~= seq![(k, full)]);
    assert(seq![(k, full)].subrange(1, 1) =~= Seq::<(Seq<char>, TypeKindV)>::empty());
    assert(seq![(k, fwd)].subrange(1, 1) =~= Seq::<(Seq<char>, TypeKindV)>::empty());
}

/// Merge conflict: two structurally different full definitions for the
/// same name surface a conflict carrying both definitions — in either
/// merge order, with the already-present definition kept and listed
/// first.
pub proof fn lemma_merge_conflict(k: Seq<char>, d1: TypeKindV, d2: TypeKindV)
    requires
        !spec_is_forward(d1),
        !spec_is_forward(d2),
        d1 != d2,
    ensures
        spec_merge(seq![(k, d1)], seq![(k, d2)]) == (seq![(k, d1)], Some((d1, d2))),
        spec_merge(seq![(k, d2)], seq![(k, d1)]) == (seq![(k, d2)], Some((d2, d1))),
{
    reveal_with_fuel(spec_merge, 3);
    lemma_lookup_at(seq![(k, d1)], 0);
    lemma_lookup_at(seq![(k, d2)], 0);
}

/// Inserting never breaks name distinctness.
proof fn lemma_insert_distinct(e: TableV, k: Seq<char>, v: TypeKindV)
    requires
        distinct_keys(e),
    ensures
        distinct_keys(spec_insert(e, k, v)),
{
    if has_key(e, k) {
        let i = key_index(e, k);
        assert(0 <= i < e.len() && e[i].0 == k);
        let e2 = e.update(i, (k, v));
        assert forall|p: int, q: int| 0 <= p < q < e2.len() implies e2[p].0 != e2[q].0 by {
            assert(e2[p].0 == e[p].0);
            assert(e2[q].0 == e[q].0);
        }
    } else {
        let e2 = e.push((k, v));
        assert forall|p: int, q: int| 0 <= p < q < e2.len() implies e2[p].0 != e2[q].0 by {
            if q == e.len() {
                assert(e2[q].0 == k);
                assert(e2[p].0 == e[p].0);
                assert(!(e[p].0 == k));
            } else {
                assert(e2[p].0 == e[p].0);
                assert(e2[q].0 == e[q].0);
            }
        }
    }
}

} // verus!
