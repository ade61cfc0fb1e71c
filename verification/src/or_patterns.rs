//! Or-patterns whose alternatives declare variables, multiplied out into
//! one pattern per combination of alternatives, since C# cannot declare a
//! variable inside an or-pattern.

use vstd::prelude::*;
use crate::eir::{
    ChildrenContainer, IdentPat, MatchArm, Pat, RangePat, RecordPat, RecordPatField,
    RecordPatFieldList, RefPat, SlicePat, SlicePatComponents, TuplePat, TupleStructPat,
};
use crate::eir_clone::{clone_match_arm, clone_pat};

verus! {

/// The pattern in an optional position, as a sequence of none or one.
pub open spec fn opt_pat(o: Option<Box<Pat>>) -> Seq<Pat> {
    match o {
        Some(b) => seq![*b],
        None => Seq::empty(),
    }
}

/// The patterns of a record pattern's fields, in order.
pub open spec fn record_field_pats(c: ChildrenContainer<RecordPatField>) -> Seq<Pat>
    decreases c,
{
    match c {
        ChildrenContainer::Empty => Seq::empty(),
        ChildrenContainer::More(f, rest) => seq![f.pat] + record_field_pats(*rest),
    }
}

/// The sub-patterns of a pattern, in the order they are expanded: the
/// alternatives of an or-pattern, and otherwise its sub-patterns in source
/// order (for a slice pattern: the prefix, the rest binding, the suffix).
pub open spec fn pat_children(p: Pat) -> Seq<Pat> {
    match p {
        Pat::IdentPat(i) => opt_pat(i.pat),
        Pat::OrPat(o) => o.pats@,
        Pat::RangePat(r) => opt_pat(r.start) + opt_pat(r.end),
        Pat::RecordPat(r) => record_field_pats(r.record_pat_field_list.fields),
        Pat::RefPat(r) => seq![*r.pat],
        Pat::SlicePat(s) => s.components.prefix@ + opt_pat(s.components.slice) + s.components.suffix@,
        Pat::TuplePat(t) => t.fields@,
        Pat::TupleStructPat(t) => t.fields@,
        _ => Seq::empty(),
    }
}

/// The number of pattern nodes in a pattern.
pub open spec fn pat_size(p: Pat) -> nat
    decreases p,
{
    1 + match p {
        Pat::IdentPat(i) => opt_size(i.pat),
        Pat::OrPat(o) => pats_size(o.pats),
        Pat::RangePat(r) => opt_size(r.start) + opt_size(r.end),
        Pat::RecordPat(r) => fields_size(r.record_pat_field_list.fields),
        Pat::RefPat(r) => pat_size(*r.pat),
        Pat::SlicePat(s) => pats_size(s.components.prefix) + opt_size(s.components.slice)
            + pats_size(s.components.suffix),
        Pat::TuplePat(t) => pats_size(t.fields),
        Pat::TupleStructPat(t) => pats_size(t.fields),
        _ => 0,
    }
}

pub open spec fn opt_size(o: Option<Box<Pat>>) -> nat
    decreases o,
{
    match o {
        Some(b) => pat_size(*b),
        None => 0,
    }
}

pub open spec fn pats_size(c: ChildrenContainer<Pat>) -> nat
    decreases c,
{
    match c {
        ChildrenContainer::Empty => 0,
        ChildrenContainer::More(p, rest) => pat_size(*p) + pats_size(*rest),
    }
}

pub open spec fn fields_size(c: ChildrenContainer<RecordPatField>) -> nat
    decreases c,
{
    match c {
        ChildrenContainer::Empty => 0,
        ChildrenContainer::More(f, rest) => pat_size(f.pat) + fields_size(*rest),
    }
}

proof fn lemma_pats_elem_size(c: ChildrenContainer<Pat>, k: int)
    requires
        0 <= k < c@.len(),
    ensures
        pat_size(c@[k]) <= pats_size(c),
    decreases c,
{
    match c {
        ChildrenContainer::Empty => {},
        ChildrenContainer::More(p, rest) => {
            if k > 0 {
                assert(c@[k] == rest@[k - 1]);
                lemma_pats_elem_size(*rest, k - 1);
            }
        },
    }
}

proof fn lemma_fields_elem_size(c: ChildrenContainer<RecordPatField>, k: int)
    requires
        0 <= k < record_field_pats(c).len(),
    ensures
        pat_size(record_field_pats(c)[k]) <= fields_size(c),
    decreases c,
{
    match c {
        ChildrenContainer::Empty => {},
        ChildrenContainer::More(f, rest) => {
            if k > 0 {
                assert(record_field_pats(c)[k] == record_field_pats(*rest)[k - 1]);
                lemma_fields_elem_size(*rest, k - 1);
            }
        },
    }
}

/// A sub-pattern is smaller than its pattern.
pub proof fn lemma_child_size(p: Pat, k: int)
    requires
        0 <= k < pat_children(p).len(),
    ensures
        pat_size(pat_children(p)[k]) < pat_size(p),
{
    match p {
        Pat::OrPat(o) => {
            lemma_pats_elem_size(o.pats, k);
            assert(pat_size(p) == 1 + pats_size(o.pats));
        },
        Pat::RecordPat(r) => {
            lemma_fields_elem_size(r.record_pat_field_list.fields, k);
            assert(pat_size(p) == 1 + fields_size(r.record_pat_field_list.fields));
        },
        Pat::SlicePat(s) => {
            let c = s.components;
            let n1 = c.prefix@.len();
            let n2 = opt_pat(c.slice).len();
            assert(pat_size(p) == 1 + pats_size(c.prefix) + opt_size(c.slice) + pats_size(c.suffix));
            if k < n1 {
                assert(pat_children(p)[k] == c.prefix@[k]);
                lemma_pats_elem_size(c.prefix, k);
            } else if k < n1 + n2 {
                assert(pat_children(p)[k] == opt_pat(c.slice)[k - n1]);
            } else {
                assert(pat_children(p)[k] == c.suffix@[k - n1 - n2]);
                lemma_pats_elem_size(c.suffix, k - n1 - n2);
            }
        },
        Pat::TuplePat(t) => {
            lemma_pats_elem_size(t.fields, k);
            assert(pat_size(p) == 1 + pats_size(t.fields));
        },
        Pat::TupleStructPat(t) => {
            lemma_pats_elem_size(t.fields, k);
            assert(pat_size(p) == 1 + pats_size(t.fields));
        },
        Pat::IdentPat(i) => {
            assert(pat_size(p) == 1 + opt_size(i.pat));
        },
        Pat::RangePat(r) => {
            assert(pat_size(p) == 1 + opt_size(r.start) + opt_size(r.end));
        },
        Pat::RefPat(r) => {
            assert(pat_size(p) == 1 + pat_size(*r.pat));
        },
        _ => {},
    }
}

/// The container with its `k`-th pattern replaced by `x`.
pub open spec fn replace_pat_at(c: ChildrenContainer<Pat>, k: int, x: Pat) -> ChildrenContainer<Pat>
    decreases c,
{
    match c {
        ChildrenContainer::Empty => ChildrenContainer::Empty,
        ChildrenContainer::More(p, rest) => if k == 0 {
            ChildrenContainer::More(Box::new(x), rest)
        } else {
            ChildrenContainer::More(p, Box::new(replace_pat_at(*rest, k - 1, x)))
        },
    }
}

/// The fields with the pattern of the `k`-th replaced by `x`.
pub open spec fn replace_field_pat_at(c: ChildrenContainer<RecordPatField>, k: int, x: Pat) -> ChildrenContainer<RecordPatField>
    decreases c,
{
    match c {
        ChildrenContainer::Empty => ChildrenContainer::Empty,
        ChildrenContainer::More(f, rest) => if k == 0 {
            ChildrenContainer::More(Box::new(RecordPatField { name_ref: f.name_ref, pat: x, node_info: f.node_info }), rest)
        } else {
            ChildrenContainer::More(f, Box::new(replace_field_pat_at(*rest, k - 1, x)))
        },
    }
}

/// The pattern with its `k`-th sub-pattern replaced by `c`.
pub open spec fn with_child(p: Pat, k: int, c: Pat) -> Pat {
    match p {
        Pat::IdentPat(i) => Pat::IdentPat(IdentPat {
            name: i.name,
            pat: Some(Box::new(c)),
            binds_local: i.binds_local,
            node_info: i.node_info,
        }),
        Pat::RangePat(r) => if r.start.is_some() && k == 0 {
            Pat::RangePat(RangePat { start: Some(Box::new(c)), end: r.end, op_kind: r.op_kind, node_info: r.node_info })
        } else {
            Pat::RangePat(RangePat { start: r.start, end: Some(Box::new(c)), op_kind: r.op_kind, node_info: r.node_info })
        },
        Pat::RecordPat(r) => Pat::RecordPat(RecordPat {
            path: r.path,
            record_pat_field_list: RecordPatFieldList {
                fields: replace_field_pat_at(r.record_pat_field_list.fields, k, c),
                rest: r.record_pat_field_list.rest,
                node_info: r.record_pat_field_list.node_info,
            },
            node_info: r.node_info,
        }),
        Pat::RefPat(r) => Pat::RefPat(RefPat { pat: Box::new(c), mut_token: r.mut_token, node_info: r.node_info }),
        Pat::SlicePat(s) => {
            let n1 = s.components.prefix@.len();
            let n2 = opt_pat(s.components.slice).len();
            let components = if k < n1 {
                SlicePatComponents {
                    prefix: replace_pat_at(s.components.prefix, k, c),
                    slice: s.components.slice,
                    suffix: s.components.suffix,
                    node_info: s.components.node_info,
                }
            } else if k < n1 + n2 {
                SlicePatComponents {
                    prefix: s.components.prefix,
                    slice: Some(Box::new(c)),
                    suffix: s.components.suffix,
                    node_info: s.components.node_info,
                }
            } else {
                SlicePatComponents {
                    prefix: s.components.prefix,
                    slice: s.components.slice,
                    suffix: replace_pat_at(s.components.suffix, k - n1 - n2, c),
                    node_info: s.components.node_info,
                }
            };
            Pat::SlicePat(SlicePat { components, node_info: s.node_info })
        },
        Pat::TuplePat(t) => Pat::TuplePat(TuplePat { fields: replace_pat_at(t.fields, k, c), node_info: t.node_info }),
        Pat::TupleStructPat(t) => Pat::TupleStructPat(TupleStructPat {
            path: t.path,
            fields: replace_pat_at(t.fields, k, c),
            node_info: t.node_info,
        }),
        _ => p,
    }
}

/// Each pattern of `base` with its `k`-th sub-pattern replaced by each
/// pattern of `es` after the first, pattern by pattern of `base`.
pub open spec fn cross_rest(base: Seq<Pat>, k: int, es: Seq<Pat>) -> Seq<Pat>
    decreases base.len(),
{
    if base.len() == 0 {
        Seq::empty()
    } else {
        cross_rest(base.drop_last(), k, es) + es.drop_first().map_values(|e: Pat| with_child(base.last(), k, e))
    }
}

/// Every pattern of `base` combined with every alternative `es` of its
/// `k`-th sub-pattern: first each of `base` with the first alternative,
/// in place, then the other alternatives of each in turn.
pub open spec fn cross(base: Seq<Pat>, k: int, es: Seq<Pat>) -> Seq<Pat> {
    base.map_values(|r: Pat| with_child(r, k, es[0])) + cross_rest(base, k, es)
}

/// The expansion of the sub-patterns of `p` from the `k`-th on, given the
/// expansion `result` so far and whether a variable is declared so far.
pub open spec fn expand_children(p: Pat, k: nat, result: Option<Seq<Pat>>, has_local: bool) -> (Option<Seq<Pat>>, bool)
    decreases pat_size(p), 0nat, pat_children(p).len() - k,
{
    if k >= pat_children(p).len() {
        (result, has_local)
    } else {
        proof {
            lemma_child_size(p, k as int);
        }
        let (expanded, child_has_local) = expand_spec(pat_children(p)[k as int]);
        let next = match expanded {
            Some(es) => Some(cross(
                match result {
                    Some(b) => b,
                    None => seq![p],
                },
                k as int,
                es,
            )),
            None => result,
        };
        expand_children(p, k + 1, next, has_local || child_has_local)
    }
}

/// The alternatives of the or-pattern `p` from the `j`-th on, each as its
/// own expansion or else as itself.
pub open spec fn expand_alternatives(p: Pat, j: nat) -> Seq<Pat>
    decreases pat_size(p), 0nat, pat_children(p).len() - j,
{
    if j >= pat_children(p).len() {
        Seq::empty()
    } else {
        proof {
            lemma_child_size(p, j as int);
        }
        let q = pat_children(p)[j as int];
        let own = match expand_spec(q).0 {
            Some(v) => v,
            None => seq![q],
        };
        own + expand_alternatives(p, j + 1)
    }
}

/// Whether `p` declares a variable, and, where it does inside an
/// or-pattern, the patterns it splits into (one per combination of
/// alternatives, in order); `None` where nothing needs to change.
pub open spec fn expand_spec(p: Pat) -> (Option<Seq<Pat>>, bool)
    decreases pat_size(p), 1nat, 0nat,
{
    match p {
        Pat::OrPat(_) => if pat_children(p).len() == 0 {
            (None, false)
        } else {
            proof {
                lemma_child_size(p, 0);
            }
            let first = pat_children(p)[0];
            let (first_expanded, first_has_local) = expand_spec(first);
            if first_has_local {
                let own = match first_expanded {
                    Some(v) => v,
                    None => seq![first],
                };
                (Some(own + expand_alternatives(p, 1)), true)
            } else {
                (None, false)
            }
        },
        Pat::IdentPat(i) => expand_children(p, 0, None, i.binds_local),
        _ => expand_children(p, 0, None, false),
    }
}

/// Whether the sub-patterns of `p` from the `k`-th on can be expanded.
pub open spec fn children_expandable(p: Pat, k: nat) -> bool
    decreases pat_size(p), 0nat, pat_children(p).len() - k,
{
    if k >= pat_children(p).len() {
        true
    } else {
        proof {
            lemma_child_size(p, k as int);
        }
        expandable(pat_children(p)[k as int]) && children_expandable(p, k + 1)
    }
}

/// Whether `p` can be expanded: every or-pattern in it has alternatives,
/// which all declare variables or all do not, and no pattern has more
/// sub-patterns than a `usize` counts.
pub open spec fn expandable(p: Pat) -> bool
    decreases pat_size(p), 1nat, 0nat,
{
    &&& pat_children(p).len() <= usize::MAX
    &&& children_expandable(p, 0)
    &&& p is OrPat ==> {
        &&& pat_children(p).len() >= 1
        &&& forall|j: int| 0 <= j < pat_children(p).len() ==>
            (#[trigger] expand_spec(pat_children(p)[j])).1 == expand_spec(pat_children(p)[0]).1
    }
}

/// The vector's contents, if there is a vector.
pub open spec fn opt_vec_view(o: Option<Vec<Pat>>) -> Option<Seq<Pat>> {
    match o {
        Some(v) => Some(v@),
        None => None,
    }
}

proof fn lemma_record_field_pats(c: ChildrenContainer<RecordPatField>)
    ensures
        record_field_pats(c).len() == c@.len(),
        forall|k: int| 0 <= k < c@.len() ==> record_field_pats(c)[k] == (#[trigger] c@[k]).pat,
    decreases c,
{
    match c {
        ChildrenContainer::Empty => {},
        ChildrenContainer::More(f, rest) => {
            lemma_record_field_pats(*rest);
            assert forall|k: int| 0 <= k < c@.len() implies record_field_pats(c)[k] == (#[trigger] c@[k]).pat by {
                if k > 0 {
                    assert(c@[k] == rest@[k - 1]);
                }
            }
        },
    }
}

fn pat_children_count(p: &Pat) -> (r: usize)
    requires
        pat_children(*p).len() <= usize::MAX,
    ensures
        r == pat_children(*p).len(),
{
    match p {
        Pat::IdentPat(i) => if i.pat.is_some() { 1 } else { 0 },
        Pat::OrPat(o) => o.pats.len(),
        Pat::RangePat(r) => {
            let a: usize = if r.start.is_some() { 1 } else { 0 };
            let b: usize = if r.end.is_some() { 1 } else { 0 };
            a + b
        },
        Pat::RecordPat(r) => {
            proof {
                lemma_record_field_pats(r.record_pat_field_list.fields);
            }
            r.record_pat_field_list.fields.len()
        },
        Pat::RefPat(_) => 1,
        Pat::SlicePat(s) => {
            let a: usize = s.components.prefix.len();
            let b: usize = if s.components.slice.is_some() { 1 } else { 0 };
            let c: usize = s.components.suffix.len();
            a + b + c
        },
        Pat::TuplePat(t) => t.fields.len(),
        Pat::TupleStructPat(t) => t.fields.len(),
        _ => 0,
    }
}

fn pat_child(p: &Pat, k: usize) -> (r: &Pat)
    requires
        k < pat_children(*p).len(),
    ensures
        *r == pat_children(*p)[k as int],
{
    match p {
        Pat::IdentPat(i) => match &i.pat {
            Some(b) => &**b,
            None => {
                proof {
                    assert(false);
                }
                p
            },
        },
        Pat::OrPat(o) => o.pats.get(k).unwrap(),
        Pat::RangePat(r) => {
            if k == 0 {
                match &r.start {
                    Some(b) => {
                        return &**b;
                    },
                    None => {},
                }
            }
            match &r.end {
                Some(b) => &**b,
                None => {
                    proof {
                        assert(false);
                    }
                    p
                },
            }
        },
        Pat::RecordPat(r) => {
            proof {
                lemma_record_field_pats(r.record_pat_field_list.fields);
            }
            &r.record_pat_field_list.fields.get(k).unwrap().pat
        },
        Pat::RefPat(r) => &*r.pat,
        Pat::SlicePat(s) => {
            let mut j: usize = match index_past(&s.components.prefix, k) {
                None => {
                    return s.components.prefix.get(k).unwrap();
                },
                Some(j) => j,
            };
            match &s.components.slice {
                Some(b) => {
                    if j == 0 {
                        return &**b;
                    }
                    j = j - 1;
                },
                None => {},
            }
            s.components.suffix.get(j).unwrap()
        },
        Pat::TuplePat(t) => t.fields.get(k).unwrap(),
        Pat::TupleStructPat(t) => t.fields.get(k).unwrap(),
        _ => {
            proof {
                assert(false);
            }
            p
        },
    }
}

fn replace_pat_at_exec(c: ChildrenContainer<Pat>, k: usize, x: Pat) -> (r: ChildrenContainer<Pat>)
    ensures
        r == replace_pat_at(c, k as int, x),
    decreases c,
{
    match c {
        ChildrenContainer::Empty => ChildrenContainer::Empty,
        ChildrenContainer::More(p, rest) => if k == 0 {
            ChildrenContainer::More(Box::new(x), rest)
        } else {
            ChildrenContainer::More(p, Box::new(replace_pat_at_exec(*rest, k - 1, x)))
        },
    }
}

fn replace_field_pat_at_exec(c: ChildrenContainer<RecordPatField>, k: usize, x: Pat) -> (r: ChildrenContainer<RecordPatField>)
    ensures
        r == replace_field_pat_at(c, k as int, x),
    decreases c,
{
    match c {
        ChildrenContainer::Empty => ChildrenContainer::Empty,
        ChildrenContainer::More(f, rest) => if k == 0 {
            let RecordPatField { name_ref, pat: _, node_info } = *f;
            ChildrenContainer::More(Box::new(RecordPatField { name_ref, pat: x, node_info }), rest)
        } else {
            ChildrenContainer::More(f, Box::new(replace_field_pat_at_exec(*rest, k - 1, x)))
        },
    }
}

/// `None` where `k` indexes into `c`, else how far past its end `k` is.
fn index_past(c: &ChildrenContainer<Pat>, k: usize) -> (r: Option<usize>)
    ensures
        k < c@.len() ==> r is None,
        k >= c@.len() ==> r == Some((k - c@.len()) as usize),
    decreases c,
{
    match c {
        ChildrenContainer::Empty => Some(k),
        ChildrenContainer::More(_, rest) => if k == 0 {
            None
        } else {
            index_past(rest, k - 1)
        },
    }
}

fn with_child_exec(p: Pat, k: usize, c: Pat) -> (r: Pat)
    ensures
        r == with_child(p, k as int, c),
{
    match p {
        Pat::IdentPat(i) => {
            let IdentPat { name, pat: _, binds_local, node_info } = i;
            Pat::IdentPat(IdentPat { name, pat: Some(Box::new(c)), binds_local, node_info })
        },
        Pat::RangePat(r) => {
            let RangePat { start, end, op_kind, node_info } = r;
            if start.is_some() && k == 0 {
                Pat::RangePat(RangePat { start: Some(Box::new(c)), end, op_kind, node_info })
            } else {
                Pat::RangePat(RangePat { start, end: Some(Box::new(c)), op_kind, node_info })
            }
        },
        Pat::RecordPat(r) => {
            let RecordPat { path, record_pat_field_list, node_info } = r;
            let RecordPatFieldList { fields, rest, node_info: list_info } = record_pat_field_list;
            Pat::RecordPat(RecordPat {
                path,
                record_pat_field_list: RecordPatFieldList {
                    fields: replace_field_pat_at_exec(fields, k, c),
                    rest,
                    node_info: list_info,
                },
                node_info,
            })
        },
        Pat::RefPat(r) => {
            let RefPat { pat: _, mut_token, node_info } = r;
            Pat::RefPat(RefPat { pat: Box::new(c), mut_token, node_info })
        },
        Pat::SlicePat(s) => {
            let SlicePat { components, node_info } = s;
            let SlicePatComponents { prefix, slice, suffix, node_info: comp_info } = components;
            let components = match index_past(&prefix, k) {
                None => SlicePatComponents {
                    prefix: replace_pat_at_exec(prefix, k, c),
                    slice,
                    suffix,
                    node_info: comp_info,
                },
                Some(j) => if slice.is_some() && j == 0 {
                    SlicePatComponents { prefix, slice: Some(Box::new(c)), suffix, node_info: comp_info }
                } else {
                    let j2: usize = if slice.is_some() { j - 1 } else { j };
                    SlicePatComponents {
                        prefix,
                        slice,
                        suffix: replace_pat_at_exec(suffix, j2, c),
                        node_info: comp_info,
                    }
                },
            };
            Pat::SlicePat(SlicePat { components, node_info })
        },
        Pat::TuplePat(t) => {
            let TuplePat { fields, node_info } = t;
            Pat::TuplePat(TuplePat { fields: replace_pat_at_exec(fields, k, c), node_info })
        },
        Pat::TupleStructPat(t) => {
            let TupleStructPat { path, fields, node_info } = t;
            Pat::TupleStructPat(TupleStructPat { path, fields: replace_pat_at_exec(fields, k, c), node_info })
        },
        _ => p,
    }
}

fn cross_exec(base: &Vec<Pat>, k: usize, es: &Vec<Pat>) -> (r: Vec<Pat>)
    requires
        es@.len() >= 1,
    ensures
        r@ == cross(base@, k as int, es@),
{
    let n = base.len();
    let m = es.len();
    let mut out: Vec<Pat> = Vec::new();
    let mut i: usize = 0;
    while i < n
        invariant
            n == base@.len(),
            m == es@.len(),
            m >= 1,
            i <= n,
            out@ == base@.take(i as int).map_values(|r: Pat| with_child(r, k as int, es@[0])),
        decreases n - i,
    {
        let x = with_child_exec(clone_pat(&base[i]), k, clone_pat(&es[0]));
        out.push(x);
        proof {
            assert(base@.take(i + 1).drop_last() =~= base@.take(i as int));
            assert(out@ =~= base@.take(i + 1).map_values(|r: Pat| with_child(r, k as int, es@[0])));
        }
        i = i + 1;
    }
    assert(base@.take(n as int) =~= base@);
    let ghost first = out@;
    i = 0;
    while i < n
        invariant
            n == base@.len(),
            m == es@.len(),
            m >= 1,
            i <= n,
            first == base@.map_values(|r: Pat| with_child(r, k as int, es@[0])),
            out@ == first + cross_rest(base@.take(i as int), k as int, es@),
        decreases n - i,
    {
        let mut j: usize = 1;
        let ghost before = out@;
        while j < m
            invariant
                n == base@.len(),
                m == es@.len(),
                i < n,
                1 <= j <= m,
                out@ == before + es@.subrange(1, j as int).map_values(|e: Pat| with_child(base@[i as int], k as int, e)),
            decreases m - j,
        {
            let x = with_child_exec(clone_pat(&base[i]), k, clone_pat(&es[j]));
            out.push(x);
            proof {
                assert(es@.subrange(1, j + 1).drop_last() =~= es@.subrange(1, j as int));
                assert(out@ =~= before + es@.subrange(1, j + 1).map_values(|e: Pat| with_child(base@[i as int], k as int, e)));
            }
            j = j + 1;
        }
        proof {
            let t = base@.take(i + 1);
            assert(t.drop_last() =~= base@.take(i as int));
            assert(t.last() == base@[i as int]);
            assert(es@.subrange(1, m as int) =~= es@.drop_first());
            assert(cross_rest(t, k as int, es@) == cross_rest(base@.take(i as int), k as int, es@)
                + es@.drop_first().map_values(|e: Pat| with_child(base@[i as int], k as int, e)));
            assert(out@ =~= first + cross_rest(t, k as int, es@));
        }
        i = i + 1;
    }
    assert(base@.take(n as int) =~= base@);
    out
}

/// A pattern is only split when it declares a variable, and then into at
/// least one pattern.
pub proof fn lemma_expand_some(p: Pat)
    ensures
        expand_spec(p).0.is_some() ==> expand_spec(p).1 && expand_spec(p).0.unwrap().len() >= 1,
    decreases pat_size(p), 1nat, 0nat,
{
    match p {
        Pat::OrPat(_) => {
            if pat_children(p).len() > 0 {
                lemma_child_size(p, 0);
                lemma_expand_some(pat_children(p)[0]);
            }
        },
        Pat::IdentPat(i) => lemma_expand_children_some(p, 0, None, i.binds_local),
        _ => lemma_expand_children_some(p, 0, None, false),
    }
}

proof fn lemma_expand_children_some(p: Pat, k: nat, result: Option<Seq<Pat>>, has_local: bool)
    requires
        result.is_some() ==> has_local && result.unwrap().len() >= 1,
    ensures
        expand_children(p, k, result, has_local).0.is_some() ==> expand_children(p, k, result, has_local).1
            && expand_children(p, k, result, has_local).0.unwrap().len() >= 1,
    decreases pat_size(p), 0nat, pat_children(p).len() - k,
{
    if k < pat_children(p).len() {
        lemma_child_size(p, k as int);
        let c = pat_children(p)[k as int];
        lemma_expand_some(c);
        let (expanded, child_has_local) = expand_spec(c);
        let next = match expanded {
            Some(es) => Some(cross(
                match result {
                    Some(b) => b,
                    None => seq![p],
                },
                k as int,
                es,
            )),
            None => result,
        };
        lemma_expand_children_some(p, k + 1, next, has_local || child_has_local);
    }
}

proof fn lemma_children_expandable(p: Pat, k0: nat, k: nat)
    requires
        children_expandable(p, k0),
        k0 <= k < pat_children(p).len(),
    ensures
        expandable(pat_children(p)[k as int]),
    decreases k - k0,
{
    if k0 < k {
        lemma_children_expandable(p, k0 + 1, k);
    }
}

/// Whether `pat` declares a variable, and, where it declares one inside
/// an or-pattern, the patterns it splits into: one per combination of
/// alternatives. `None` means the pattern can stay as it is.
pub fn expand_or_pattern(pat: &Pat) -> (r: (Option<Vec<Pat>>, bool))
    requires
        expandable(*pat),
    ensures
        opt_vec_view(r.0) == expand_spec(*pat).0,
        r.1 == expand_spec(*pat).1,
    decreases pat_size(*pat),
{
    match pat {
        Pat::OrPat(o) => {
            proof {
                lemma_children_expandable(*pat, 0, 0);
                lemma_child_size(*pat, 0);
            }
            let first = o.pats.get(0).unwrap();
            let (first_expanded, first_has_local) = expand_or_pattern(first);
            if !first_has_local {
                return (None, false);
            }
            let mut result = match first_expanded {
                Some(v) => v,
                None => vec![clone_pat(first)],
            };
            let n = o.pats.len();
            let mut j: usize = 1;
            while j < n
                invariant
                    n == pat_children(*pat).len(),
                    1 <= j <= n,
                    *pat is OrPat,
                    pat_children(*pat) == o.pats@,
                    expandable(*pat),
                    expand_spec(*pat).0 == Some(result@ + expand_alternatives(*pat, j as nat)),
                decreases n - j,
            {
                proof {
                    lemma_children_expandable(*pat, 0, j as nat);
                    lemma_child_size(*pat, j as int);
                }
                let q = o.pats.get(j).unwrap();
                let (mapped, _) = expand_or_pattern(q);
                let ghost before = result@;
                match mapped {
                    Some(v) => {
                        let mut v = v;
                        result.append(&mut v);
                    },
                    None => {
                        result.push(clone_pat(q));
                    },
                }
                proof {
                    assert(expand_alternatives(*pat, j as nat) == (match expand_spec(pat_children(*pat)[j as int]).0 {
                        Some(v) => v,
                        None => seq![pat_children(*pat)[j as int]],
                    }) + expand_alternatives(*pat, (j + 1) as nat));
                    assert(before + expand_alternatives(*pat, j as nat) =~= result@ + expand_alternatives(*pat, (j + 1) as nat));
                }
                j = j + 1;
            }
            assert(expand_alternatives(*pat, j as nat) == Seq::<Pat>::empty());
            assert(result@ + Seq::<Pat>::empty() =~= result@);
            (Some(result), true)
        },
        _ => {
            let n = pat_children_count(pat);
            let mut result: Option<Vec<Pat>> = None;
            let mut has_local = match pat {
                Pat::IdentPat(i) => i.binds_local,
                _ => false,
            };
            let mut k: usize = 0;
            while k < n
                invariant
                    n == pat_children(*pat).len(),
                    k <= n,
                    !(*pat is OrPat),
                    expandable(*pat),
                    expand_children(*pat, k as nat, opt_vec_view(result), has_local) == expand_spec(*pat),
                decreases n - k,
            {
                proof {
                    lemma_children_expandable(*pat, 0, k as nat);
                    lemma_child_size(*pat, k as int);
                }
                let child = pat_child(pat, k);
                let (expanded, child_has_local) = expand_or_pattern(child);
                proof {
                    lemma_expand_some(*child);
                }
                let ghost old_result = opt_vec_view(result);
                let ghost old_has_local = has_local;
                let ghost base_view = match old_result {
                    Some(b) => b,
                    None => seq![*pat],
                };
                match expanded {
                    Some(es) => {
                        let base = match result {
                            Some(b) => b,
                            None => {
                                let mut v: Vec<Pat> = Vec::new();
                                v.push(clone_pat(pat));
                                v
                            },
                        };
                        assert(base@ =~= base_view);
                        result = Some(cross_exec(&base, k, &es));
                    },
                    None => {},
                }
                has_local = has_local || child_has_local;
                assert(expand_children(*pat, k as nat, old_result, old_has_local)
                    == expand_children(*pat, (k + 1) as nat, opt_vec_view(result), has_local));
                k = k + 1;
            }
            (result, has_local)
        },
    }
}

/// The arm with its pattern replaced by `p`.
pub open spec fn arm_with_pat(a: MatchArm, p: Pat) -> MatchArm {
    MatchArm { pat: p, guard: a.guard, expr: a.expr, node_info: a.node_info }
}

/// An arm whose pattern splits becomes one arm per pattern, each with the
/// same guard and expression; any other arm stays as it is.
pub open spec fn split_arm(a: MatchArm) -> Seq<MatchArm> {
    match expand_spec(a.pat).0 {
        Some(ps) => ps.map_values(|p: Pat| arm_with_pat(a, p)),
        None => seq![a],
    }
}

/// The arms, each split where its pattern splits, in order.
pub open spec fn split_arms(c: ChildrenContainer<MatchArm>) -> Seq<MatchArm>
    decreases c,
{
    match c {
        ChildrenContainer::Empty => Seq::empty(),
        ChildrenContainer::More(a, rest) => split_arm(*a) + split_arms(*rest),
    }
}

/// Whether the pattern of every arm can be expanded.
pub open spec fn arms_expandable(c: ChildrenContainer<MatchArm>) -> bool
    decreases c,
{
    match c {
        ChildrenContainer::Empty => true,
        ChildrenContainer::More(a, rest) => expandable(a.pat) && arms_expandable(*rest),
    }
}

/// The pass that splits the arms of a `match` whose or-patterns declare
/// variables.
pub struct MatchOrPatternDefinitions;

fn split_arm_exec(arm: MatchArm) -> (r: Vec<MatchArm>)
    requires
        expandable(arm.pat),
    ensures
        r@ == split_arm(arm),
{
    let (expanded, _) = expand_or_pattern(&arm.pat);
    match expanded {
        Some(ps) => {
            let mut out: Vec<MatchArm> = Vec::new();
            let mut i: usize = 0;
            while i < ps.len()
                invariant
                    i <= ps@.len(),
                    out@ == ps@.take(i as int).map_values(|p: Pat| arm_with_pat(arm, p)),
                decreases ps@.len() - i,
            {
                let mut a = clone_match_arm(&arm);
                a.pat = clone_pat(&ps[i]);
                out.push(a);
                proof {
                    assert(ps@.take(i + 1).drop_last() =~= ps@.take(i as int));
                    assert(out@ =~= ps@.take(i + 1).map_values(|p: Pat| arm_with_pat(arm, p)));
                }
                i = i + 1;
            }
            assert(ps@.take(ps@.len() as int) =~= ps@);
            out
        },
        None => vec![arm],
    }
}

pub(crate) fn split_arms_exec(arms: ChildrenContainer<MatchArm>) -> (r: Vec<MatchArm>)
    requires
        arms_expandable(arms),
    ensures
        r@ == split_arms(arms),
    decreases arms,
{
    match arms {
        ChildrenContainer::Empty => Vec::new(),
        ChildrenContainer::More(a, rest) => {
            let mut first = split_arm_exec(*a);
            let mut others = split_arms_exec(*rest);
            first.append(&mut others);
            first
        },
    }
}

impl MatchOrPatternDefinitions {
    /// Splits every arm whose or-patterns declare variables into one arm
    /// per combination of alternatives.
    pub fn split_match_arms(&mut self, arms: &mut ChildrenContainer<MatchArm>)
        requires
            arms_expandable(*old(arms)),
        ensures
            final(arms)@ == split_arms(*old(arms)),
    {
        let mut taken = ChildrenContainer::Empty;
        core::mem::swap(&mut taken, arms);
        let v = split_arms_exec(taken);
        *arms = ChildrenContainer::from_vec(v);
    }
}

} // verus!
