//! Patterns as C# pattern code.
//!
//! What name resolution and type inference say of a pattern node (what a
//! path or identifier names, how many fields a tuple has, a literal's
//! value) is handed in as plain facts, keyed by the node's syntax node.

use vstd::prelude::*;
use crate::eir::{AstRef, ChildrenContainer, NameRef, NodeInfo, Pat, RangeOp, RangePat, RecordPatField};
use crate::emitter::{emit_literal, literal_text, BindingNames, LiteralValue, NamesState};
use crate::names::join_with;
use crate::or_patterns::{fields_size, opt_size, pat_size, pats_size};
use crate::output::Code;

verus! {

/// What name resolution and type inference say of one pattern node.
pub enum PatFact {
    /// An identifier that names a constant struct or variant: its C# name.
    ConstructableIdent(String),
    /// An identifier that names some other constant item: how it reads.
    OtherConstIdent(String),
    /// An identifier that binds a local: the local's Rust name.
    Local(String),
    /// A path to a struct or variant: its C# name and number of fields.
    Constructable { cs_name: String, field_count: usize },
    /// A path to a constant: its C# path.
    Const(String),
    /// A tuple pattern: the number of fields of the tuple type.
    TupleArity(usize),
    /// A literal pattern: the literal's value.
    Literal(LiteralValue),
    /// A path that resolves to none of these: its source text.
    Unresolved(String),
}

/// The facts of one body's patterns: a fact per syntax node, and the
/// source text of name references.
pub struct PatFacts {
    pub facts: Vec<(u64, PatFact)>,
    pub names: Vec<(u64, String)>,
}

/// The last fact recorded for syntax node `id`.
pub open spec fn fact_in(facts: Seq<(u64, PatFact)>, id: u64) -> Option<PatFact>
    decreases facts.len(),
{
    if facts.len() == 0 {
        None
    } else if facts.last().0 == id {
        Some(facts.last().1)
    } else {
        fact_in(facts.drop_last(), id)
    }
}

/// The fact of a pattern node: none for a node that has no syntax node.
pub open spec fn fact_of(facts: PatFacts, info: NodeInfo<AstRef>) -> Option<PatFact> {
    match info {
        NodeInfo::Ast(a) => fact_in(facts.facts@, a.id),
        NodeInfo::NoAst => None,
    }
}

/// The last source text recorded for syntax node `id`.
pub open spec fn text_in(names: Seq<(u64, String)>, id: u64) -> Option<Seq<char>>
    decreases names.len(),
{
    if names.len() == 0 {
        None
    } else if names.last().0 == id {
        Some(names.last().1@)
    } else {
        text_in(names.drop_last(), id)
    }
}

/// The text of a name reference: a C# name as it is, a source name as the
/// facts record it.
pub open spec fn name_ref_text(facts: PatFacts, n: NameRef) -> Option<Seq<char>> {
    match n {
        NameRef::CSharp(s) => Some(s@),
        NameRef::Ast(a) => text_in(facts.names@, a.id),
    }
}

/// The total size of a sequence of patterns.
pub open spec fn seq_size(ps: Seq<Pat>) -> nat
    decreases ps.len(),
{
    if ps.len() == 0 {
        0
    } else {
        seq_size(ps.drop_last()) + pat_size(ps.last())
    }
}

/// The total size of the patterns of a sequence of record fields.
pub open spec fn field_seq_size(fs: Seq<RecordPatField>) -> nat
    decreases fs.len(),
{
    if fs.len() == 0 {
        0
    } else {
        field_seq_size(fs.drop_last()) + pat_size(fs.last().pat)
    }
}

pub proof fn lemma_seq_size_front(x: Pat, s: Seq<Pat>)
    ensures
        seq_size(seq![x] + s) == pat_size(x) + seq_size(s),
    decreases s.len(),
{
    let xs = seq![x] + s;
    if s.len() > 0 {
        assert(xs.drop_last() =~= seq![x] + s.drop_last());
        assert(xs.last() == s.last());
        lemma_seq_size_front(x, s.drop_last());
        assert(seq_size(xs) == seq_size(xs.drop_last()) + pat_size(xs.last()));
        assert(seq_size(s) == seq_size(s.drop_last()) + pat_size(s.last()));
    } else {
        assert(xs =~= seq![x]);
        assert(xs.drop_last() =~= Seq::<Pat>::empty());
        assert(seq_size(xs) == seq_size(xs.drop_last()) + pat_size(xs.last()));
    }
}

pub proof fn lemma_field_seq_size_front(x: RecordPatField, s: Seq<RecordPatField>)
    ensures
        field_seq_size(seq![x] + s) == pat_size(x.pat) + field_seq_size(s),
    decreases s.len(),
{
    let xs = seq![x] + s;
    if s.len() > 0 {
        assert(xs.drop_last() =~= seq![x] + s.drop_last());
        assert(xs.last() == s.last());
        lemma_field_seq_size_front(x, s.drop_last());
        assert(field_seq_size(xs) == field_seq_size(xs.drop_last()) + pat_size(xs.last().pat));
        assert(field_seq_size(s) == field_seq_size(s.drop_last()) + pat_size(s.last().pat));
    } else {
        assert(xs =~= seq![x]);
        assert(xs.drop_last() =~= Seq::<RecordPatField>::empty());
        assert(field_seq_size(xs) == field_seq_size(xs.drop_last()) + pat_size(xs.last().pat));
    }
}

/// The size of a container's patterns, summed over its view.
pub proof fn lemma_seq_size_children(c: ChildrenContainer<Pat>)
    ensures
        seq_size(c@) == pats_size(c),
    decreases c,
{
    match c {
        ChildrenContainer::Empty => {},
        ChildrenContainer::More(p, rest) => {
            lemma_seq_size_children(*rest);
            lemma_seq_size_front(*p, rest@);
        },
    }
}

/// The size of a container's field patterns, summed over its view.
pub proof fn lemma_field_seq_size_children(c: ChildrenContainer<RecordPatField>)
    ensures
        field_seq_size(c@) == fields_size(c),
    decreases c,
{
    match c {
        ChildrenContainer::Empty => {},
        ChildrenContainer::More(f, rest) => {
            lemma_field_seq_size_children(*rest);
            lemma_field_seq_size_front(*f, rest@);
        },
    }
}

/// A prefix of a sequence of patterns is no larger than the sequence.
pub proof fn lemma_seq_size_take(ps: Seq<Pat>, k: int)
    requires
        0 <= k <= ps.len(),
    ensures
        seq_size(ps.take(k)) <= seq_size(ps),
    decreases ps.len(),
{
    if k < ps.len() {
        assert(ps.drop_last().take(k) =~= ps.take(k));
        lemma_seq_size_take(ps.drop_last(), k);
    } else {
        assert(ps.take(k) =~= ps);
    }
}

/// A suffix of a sequence of patterns is no larger than the sequence.
pub proof fn lemma_seq_size_skip(ps: Seq<Pat>, k: int)
    requires
        0 <= k <= ps.len(),
    ensures
        seq_size(ps.skip(k)) <= seq_size(ps),
    decreases ps.len(),
{
    if k < ps.len() {
        assert(ps.drop_last().skip(k) =~= ps.skip(k).drop_last());
        lemma_seq_size_skip(ps.drop_last(), k);
    } else {
        assert(ps.skip(k) =~= Seq::<Pat>::empty());
    }
}

/// Every pattern of a sequence is no larger than the sequence.
pub proof fn lemma_seq_size_elem(ps: Seq<Pat>, i: int)
    requires
        0 <= i < ps.len(),
    ensures
        pat_size(ps[i]) <= seq_size(ps),
    decreases ps.len(),
{
    if i < ps.len() - 1 {
        lemma_seq_size_elem(ps.drop_last(), i);
    }
}

/// `n` underscores.
pub open spec fn underscores(n: nat) -> Seq<Seq<char>> {
    Seq::new(n, |i: int| "_"@)
}

/// The position of the first rest pattern among `ps`, if there is one.
pub open spec fn first_rest(ps: Seq<Pat>) -> Option<int>
    decreases ps.len(),
{
    if ps.len() == 0 {
        None
    } else {
        match first_rest(ps.drop_last()) {
            Some(k) => Some(k),
            None => if ps.last() is RestPat { Some(ps.len() - 1) } else { None },
        }
    }
}

/// The smaller of two numbers.
pub open spec fn at_most(a: nat, b: nat) -> nat {
    if a < b { a } else { b }
}

/// The codes of `n` field positions whose first codes are `front` and
/// whose last ones are `back`, the last position first; `_` in between.
/// Where the two overlap, `back` wins.
pub open spec fn place_codes(n: nat, front: Seq<Seq<char>>, back: Seq<Seq<char>>) -> Seq<Seq<char>> {
    Seq::new(n, |i: int|
        if n - 1 - i < back.len() {
            back[n - 1 - i]
        } else if i < front.len() {
            front[i]
        } else {
            "_"@
        })
}

/// A pattern's C# code and the binding names after it, emitted from
/// binding state `st` (see `emit_pattern`).
pub open spec fn pat_emit(p: Pat, facts: PatFacts, st: NamesState) -> (Seq<char>, NamesState)
    decreases pat_size(p), 0nat, 0nat,
{
    match p {
        Pat::WildcardPat(_) => ("{} _"@, st),
        Pat::IdentPat(i) => match fact_of(facts, i.node_info) {
            Some(PatFact::ConstructableIdent(cs)) => (cs@, st),
            Some(PatFact::OtherConstIdent(t)) => ("/* Unresolved ident */"@ + t@, st),
            Some(PatFact::Local(rust)) => {
                let name = st.next_name(rust@);
                let st1 = st.bind(i.name, rust@);
                match i.pat {
                    Some(sub) => {
                        proof {
                            assert(pat_size(p) == 1 + opt_size(i.pat));
                        }
                        let (c, st2) = pat_emit(*sub, facts, st1);
                        (c + " "@ + name, st2)
                    },
                    None => ("var "@ + name, st1),
                }
            },
            _ => (Seq::empty(), st),
        },
        Pat::TupleStructPat(t) => match fact_of(facts, t.node_info) {
            Some(PatFact::Constructable { cs_name, field_count }) => {
                proof {
                    lemma_seq_size_children(t.fields);
                }
                let (codes, st1) = tuple_like_emit(field_count as nat, t.fields@, facts, st);
                (cs_name@ + "{"@ + join_with(numbered(codes), ","@) + "}"@, st1)
            },
            _ => ("Unknown"@, st),
        },
        Pat::PathPat(pp) => match fact_of(facts, pp.node_info) {
            Some(PatFact::Const(path)) => (path@, st),
            Some(PatFact::Constructable { cs_name, .. }) => (cs_name@, st),
            Some(PatFact::Unresolved(text)) => ("Unknown /* bad path resolution: "@ + text@ + " */"@, st),
            _ => ("Unknown /* bad path resolution:  */"@, st),
        },
        Pat::RecordPat(r) => match fact_of(facts, r.node_info) {
            Some(PatFact::Constructable { cs_name, .. }) => {
                let fs = r.record_pat_field_list.fields@;
                if fs.len() == 0 {
                    (cs_name@ + "{"@ + "}"@, st)
                } else {
                    proof {
                        lemma_field_seq_size_children(r.record_pat_field_list.fields);
                    }
                    let (codes, st1) = fields_emit(fs, facts, st);
                    (cs_name@ + "{"@ + join_with(codes, ","@) + "}"@, st1)
                }
            },
            Some(PatFact::Unresolved(text)) => ("Unknown /* Bad record path resolution: "@ + text@ + " */"@, st),
            _ => ("Unknown /* Bad record path resolution:  */"@, st),
        },
        Pat::LiteralPat(l) => match fact_of(facts, l.node_info) {
            Some(PatFact::Literal(v)) => (literal_text(v), st),
            _ => (Seq::empty(), st),
        },
        Pat::OrPat(o) => {
            proof {
                lemma_seq_size_children(o.pats);
            }
            let (codes, st1) = pats_emit(o.pats@, facts, st);
            ("("@ + join_with(codes, " or "@) + ")"@, st1)
        },
        Pat::SlicePat(s) => {
            proof {
                lemma_seq_size_children(s.components.prefix);
            }
            let (codes, st1) = pats_emit(s.components.prefix@, facts, st);
            ("["@ + join_with(codes, ","@) + "]"@, st1)
        },
        Pat::TuplePat(t) => match fact_of(facts, t.node_info) {
            Some(PatFact::TupleArity(n)) => {
                proof {
                    lemma_seq_size_children(t.fields);
                }
                let (codes, st1) = tuple_like_emit(n as nat, t.fields@, facts, st);
                ("("@ + join_with(codes, ","@) + ")"@, st1)
            },
            _ => (Seq::empty(), st),
        },
        Pat::RangePat(r) => {
            proof {
                assert(pat_size(p) == 1 + opt_size(r.start) + opt_size(r.end));
            }
            match (r.start, r.op_kind, r.end) {
            (Some(lo), RangeOp::Exclusive, Some(hi)) => {
                let (a, st1) = pat_emit(*lo, facts, st);
                let (b, st2) = pat_emit(*hi, facts, st1);
                ("(>="@ + a + " and <"@ + b + ")"@, st2)
            },
            (Some(lo), RangeOp::Inclusive, Some(hi)) => {
                let (a, st1) = pat_emit(*lo, facts, st);
                let (b, st2) = pat_emit(*hi, facts, st1);
                ("(>="@ + a + " and <="@ + b + ")"@, st2)
            },
            (Some(lo), RangeOp::Exclusive, None) => {
                let (a, st1) = pat_emit(*lo, facts, st);
                ("(>="@ + a + ")"@, st1)
            },
            (None, RangeOp::Exclusive, Some(hi)) => {
                let (b, st1) = pat_emit(*hi, facts, st);
                ("(<"@ + b + ")"@, st1)
            },
            (None, RangeOp::Inclusive, Some(hi)) => {
                let (b, st1) = pat_emit(*hi, facts, st);
                ("(<="@ + b + ")"@, st1)
            },
            _ => (Seq::empty(), st),
        }},
        Pat::RefPat(r) => {
            proof {
                assert(pat_size(p) == 1 + pat_size(*r.pat));
            }
            pat_emit(*r.pat, facts, st)
        },
        Pat::RestPat(_) => (Seq::empty(), st),
    }
}

/// The patterns of `ps` emitted in order.
pub open spec fn pats_emit(ps: Seq<Pat>, facts: PatFacts, st: NamesState) -> (Seq<Seq<char>>, NamesState)
    decreases seq_size(ps), 1nat, ps.len(),
{
    if ps.len() == 0 {
        (Seq::empty(), st)
    } else {
        let (cs, st1) = pats_emit(ps.drop_last(), facts, st);
        let (c, st2) = pat_emit(ps.last(), facts, st1);
        (cs.push(c), st2)
    }
}

/// The last `m` patterns of `ps` emitted from the last one backwards: the
/// `j`-th code is that of `ps[len - 1 - j]`.
pub open spec fn pats_emit_rev(ps: Seq<Pat>, m: nat, facts: PatFacts, st: NamesState) -> (Seq<Seq<char>>, NamesState)
    decreases seq_size(ps), 1nat, ps.len(),
{
    if ps.len() == 0 || m == 0 {
        (Seq::empty(), st)
    } else {
        let (c, st1) = pat_emit(ps.last(), facts, st);
        let (cs, st2) = pats_emit_rev(ps.drop_last(), (m - 1) as nat, facts, st1);
        (seq![c] + cs, st2)
    }
}

/// The field patterns of a record pattern, each as `f_<field>: <pattern>`.
pub open spec fn fields_emit(fs: Seq<RecordPatField>, facts: PatFacts, st: NamesState) -> (Seq<Seq<char>>, NamesState)
    decreases field_seq_size(fs), 1nat, fs.len(),
{
    if fs.len() == 0 {
        (Seq::empty(), st)
    } else {
        let (cs, st1) = fields_emit(fs.drop_last(), facts, st);
        let f = fs.last();
        let (c, st2) = pat_emit(f.pat, facts, st1);
        let name = match name_ref_text(facts, f.name_ref) {
            Some(t) => t,
            None => Seq::empty(),
        };
        (cs.push("f_"@ + name + ": "@ + c), st2)
    }
}

/// The codes of the `n` fields of a tuple-like pattern with sub-patterns
/// `ps`: a lone rest pattern stands for `_` in every field; with a rest
/// pattern elsewhere, the patterns before it fill the first fields (in
/// order), those after it the last fields (from the last one backwards),
/// and `_` the rest; without one, each pattern fills its field.
pub open spec fn tuple_like_emit(n: nat, ps: Seq<Pat>, facts: PatFacts, st: NamesState) -> (Seq<Seq<char>>, NamesState)
    decreases seq_size(ps), 2nat, 0nat,
{
    if ps.len() == 1 && ps[0] is RestPat {
        (underscores(n), st)
    } else {
        match first_rest(ps) {
            Some(k) => {
                let prefix = ps.take(k);
                let suffix = ps.skip(k + 1);
                proof {
                    lemma_first_rest_bound(ps);
                    lemma_seq_size_take(ps, k);
                    lemma_seq_size_take(prefix, at_most(k as nat, n) as int);
                    lemma_seq_size_skip(ps, k + 1);
                }
                let (front, st1) = pats_emit(prefix.take(at_most(k as nat, n) as int), facts, st);
                let (back, st2) = pats_emit_rev(suffix, at_most(suffix.len(), n), facts, st1);
                (place_codes(n, front, back), st2)
            },
            None => pats_emit(ps, facts, st),
        }
    }
}

pub proof fn lemma_first_rest_bound(ps: Seq<Pat>)
    ensures
        first_rest(ps) matches Some(k) ==> 0 <= k < ps.len() && ps[k] is RestPat
            && forall|j: int| 0 <= j < k ==> !(ps[j] is RestPat),
        first_rest(ps) is None ==> forall|j: int| 0 <= j < ps.len() ==> !(ps[j] is RestPat),
    decreases ps.len(),
{
    if ps.len() > 0 {
        lemma_first_rest_bound(ps.drop_last());
        assert(forall|j: int| 0 <= j < ps.len() - 1 ==> ps.drop_last()[j] == ps[j]);
    }
}

/// Field codes numbered as positional fields: `f_<i>: <code>`.
pub open spec fn numbered(codes: Seq<Seq<char>>) -> Seq<Seq<char>> {
    Seq::new(codes.len(), |i: int| "f_"@ + crate::text::decimal(i as nat) + ": "@ + codes[i])
}


/// Whether a pattern can be emitted: every identifier that names no
/// constant binds a local, every literal has its value, every path the
/// code needs to mention resolved or its text is known, a tuple pattern's
/// arity is known, a range pattern has one of the accepted shapes, a slice
/// pattern has no middle binding, and no rest pattern stands where a
/// pattern is emitted.
pub open spec fn pat_ok(p: Pat, facts: PatFacts) -> bool
    decreases pat_size(p), 0nat, 0nat,
{
    match p {
        Pat::WildcardPat(_) => true,
        Pat::IdentPat(i) => match fact_of(facts, i.node_info) {
            Some(PatFact::ConstructableIdent(_)) => true,
            Some(PatFact::OtherConstIdent(_)) => true,
            Some(PatFact::Local(_)) => match i.pat {
                Some(sub) => {
                    proof {
                        assert(pat_size(p) == 1 + opt_size(i.pat));
                    }
                    pat_ok(*sub, facts)
                },
                None => true,
            },
            _ => false,
        },
        Pat::TupleStructPat(t) => match fact_of(facts, t.node_info) {
            Some(PatFact::Constructable { field_count, .. }) => {
                proof {
                    lemma_seq_size_children(t.fields);
                }
                tuple_like_ok(field_count as nat, t.fields@, facts)
            },
            _ => true,
        },
        Pat::PathPat(pp) => match fact_of(facts, pp.node_info) {
            Some(PatFact::Const(_)) => true,
            Some(PatFact::Constructable { .. }) => true,
            Some(PatFact::Unresolved(_)) => true,
            _ => false,
        },
        Pat::RecordPat(r) => match fact_of(facts, r.node_info) {
            Some(PatFact::Constructable { .. }) => {
                proof {
                    lemma_field_seq_size_children(r.record_pat_field_list.fields);
                }
                fields_ok(r.record_pat_field_list.fields@, facts)
            },
            Some(PatFact::Unresolved(_)) => true,
            _ => false,
        },
        Pat::LiteralPat(l) => fact_of(facts, l.node_info) matches Some(PatFact::Literal(_)),
        Pat::OrPat(o) => {
            proof {
                lemma_seq_size_children(o.pats);
            }
            pats_ok(o.pats@, facts)
        },
        Pat::SlicePat(s) => {
            proof {
                lemma_seq_size_children(s.components.prefix);
            }
            s.components.slice is None && pats_ok(s.components.prefix@, facts)
        },
        Pat::TuplePat(t) => match fact_of(facts, t.node_info) {
            Some(PatFact::TupleArity(n)) => {
                proof {
                    lemma_seq_size_children(t.fields);
                }
                tuple_like_ok(n as nat, t.fields@, facts)
            },
            _ => false,
        },
        Pat::RangePat(r) => {
            proof {
                assert(pat_size(p) == 1 + opt_size(r.start) + opt_size(r.end));
            }
            match (r.start, r.op_kind, r.end) {
                (Some(lo), RangeOp::Exclusive, Some(hi)) => pat_ok(*lo, facts) && pat_ok(*hi, facts),
                (Some(lo), RangeOp::Inclusive, Some(hi)) => pat_ok(*lo, facts) && pat_ok(*hi, facts),
                (Some(lo), RangeOp::Exclusive, None) => pat_ok(*lo, facts),
                (None, RangeOp::Exclusive, Some(hi)) => pat_ok(*hi, facts),
                (None, RangeOp::Inclusive, Some(hi)) => pat_ok(*hi, facts),
                _ => false,
            }
        },
        Pat::RefPat(r) => {
            proof {
                assert(pat_size(p) == 1 + pat_size(*r.pat));
            }
            pat_ok(*r.pat, facts)
        },
        Pat::RestPat(_) => false,
    }
}

/// Whether every pattern of `ps` can be emitted.
pub open spec fn pats_ok(ps: Seq<Pat>, facts: PatFacts) -> bool
    decreases seq_size(ps), 1nat, ps.len(),
{
    if ps.len() == 0 {
        true
    } else {
        pats_ok(ps.drop_last(), facts) && pat_ok(ps.last(), facts)
    }
}

/// Whether every field pattern of `fs` can be emitted and every field's
/// name is known.
pub open spec fn fields_ok(fs: Seq<RecordPatField>, facts: PatFacts) -> bool
    decreases field_seq_size(fs), 1nat, fs.len(),
{
    if fs.len() == 0 {
        true
    } else {
        fields_ok(fs.drop_last(), facts) && pat_ok(fs.last().pat, facts) && name_ref_text(
            facts,
            fs.last().name_ref,
        ) is Some
    }
}

/// Whether the patterns of a tuple-like pattern that are emitted can be.
pub open spec fn tuple_like_ok(n: nat, ps: Seq<Pat>, facts: PatFacts) -> bool
    decreases seq_size(ps), 2nat, 0nat,
{
    if ps.len() == 1 && ps[0] is RestPat {
        true
    } else {
        match first_rest(ps) {
            Some(k) => {
                let prefix = ps.take(k);
                let suffix = ps.skip(k + 1);
                let m = at_most(suffix.len(), n);
                proof {
                    lemma_first_rest_bound(ps);
                    lemma_seq_size_take(ps, k);
                    lemma_seq_size_take(prefix, at_most(k as nat, n) as int);
                    lemma_seq_size_skip(ps, k + 1);
                    lemma_seq_size_skip(suffix, suffix.len() - m);
                }
                pats_ok(prefix.take(at_most(k as nat, n) as int), facts) && pats_ok(
                    suffix.skip(suffix.len() - m),
                    facts,
                )
            },
            None => pats_ok(ps, facts),
        }
    }
}


/// Every pattern of a sequence that can be emitted as a whole can be
/// emitted on its own.
pub proof fn lemma_pats_ok_elem(ps: Seq<Pat>, facts: PatFacts, i: int)
    requires
        pats_ok(ps, facts),
        0 <= i < ps.len(),
    ensures
        pat_ok(ps[i], facts),
    decreases ps.len(),
{
    if i < ps.len() - 1 {
        lemma_pats_ok_elem(ps.drop_last(), facts, i);
    }
}

/// The patterns of a sequence can be emitted as a whole if each can.
pub proof fn lemma_pats_ok_all(ps: Seq<Pat>, facts: PatFacts)
    requires
        forall|i: int| 0 <= i < ps.len() ==> pat_ok(#[trigger] ps[i], facts),
    ensures
        pats_ok(ps, facts),
    decreases ps.len(),
{
    if ps.len() > 0 {
        lemma_pats_ok_all(ps.drop_last(), facts);
    }
}

/// Emitting one more pattern from the back extends the backwards codes.
pub proof fn lemma_rev_step(ps: Seq<Pat>, j: nat, facts: PatFacts, st: NamesState)
    requires
        j < ps.len(),
    ensures
        pats_emit_rev(ps, j + 1, facts, st) == ({
            let (cs, st1) = pats_emit_rev(ps, j, facts, st);
            let (c, st2) = pat_emit(ps[ps.len() - 1 - j], facts, st1);
            (cs.push(c), st2)
        }),
    decreases j,
{
    if j > 0 {
        let (c0, st1) = pat_emit(ps.last(), facts, st);
        lemma_rev_step(ps.drop_last(), (j - 1) as nat, facts, st1);
        assert(ps.drop_last()[ps.drop_last().len() - 1 - (j - 1)] == ps[ps.len() - 1 - j]);
        let (rest, st2) = pats_emit_rev(ps.drop_last(), (j - 1) as nat, facts, st1);
        let (c, st3) = pat_emit(ps[ps.len() - 1 - j], facts, st2);
        assert(seq![c0] + rest.push(c) =~= (seq![c0] + rest).push(c));
    } else {
        let (c, st1) = pat_emit(ps.last(), facts, st);
        assert(pats_emit_rev(ps.drop_last(), 0, facts, st1).0 =~= Seq::<Seq<char>>::empty());
        assert(seq![c] + Seq::<Seq<char>>::empty() =~= Seq::<Seq<char>>::empty().push(c));
    }
}

/// A fresh code holding `s`.
pub(crate) fn code_of(s: &str) -> (r: Code)
    ensures
        r@.buf == s@,
        r@.indent == 0,
{
    let mut c = Code::new();
    c.w(s);
    assert(c@.buf =~= s@);
    c
}

/// The fact recorded for a pattern node.
pub(crate) fn lookup_fact<'a>(facts: &'a PatFacts, info: &NodeInfo<AstRef>) -> (r: Option<&'a PatFact>)
    ensures
        match r {
            Some(f) => fact_of(*facts, *info) == Some(*f),
            None => fact_of(*facts, *info) is None,
        },
{
    match info {
        NodeInfo::Ast(a) => {
            let ghost fs = facts.facts@;
            let mut i = facts.facts.len();
            assert(fs.take(fs.len() as int) =~= fs);
            while i > 0
                invariant
                    i <= fs.len(),
                    fs == facts.facts@,
                    *info == NodeInfo::Ast(*a),
                    fact_in(fs, a.id) == fact_in(fs.take(i as int), a.id),
                decreases i,
            {
                assert(fs.take(i as int).drop_last() =~= fs.take(i - 1));
                assert(fs.take(i as int).last() == fs[i - 1]);
                if facts.facts[i - 1].0 == a.id {
                    assert(fact_in(fs, a.id) == Some(fs[i - 1].1));
                    return Some(&facts.facts[i - 1].1);
                }
                i = i - 1;
            }
            None
        },
        NodeInfo::NoAst => None,
    }
}

/// The text of a name reference.
pub(crate) fn lookup_name(facts: &PatFacts, n: &NameRef) -> (r: Option<String>)
    ensures
        match r {
            Some(t) => name_ref_text(*facts, *n) == Some(t@),
            None => name_ref_text(*facts, *n) is None,
        },
{
    match n {
        NameRef::CSharp(s) => Some(s.clone()),
        NameRef::Ast(a) => {
            let ghost ns = facts.names@;
            let mut i = facts.names.len();
            assert(ns.take(ns.len() as int) =~= ns);
            while i > 0
                invariant
                    i <= ns.len(),
                    ns == facts.names@,
                    *n == NameRef::Ast(*a),
                    text_in(ns, a.id) == text_in(ns.take(i as int), a.id),
                decreases i,
            {
                assert(ns.take(i as int).drop_last() =~= ns.take(i - 1));
                assert(ns.take(i as int).last() == ns[i - 1]);
                if facts.names[i - 1].0 == a.id {
                    assert(text_in(ns, a.id) == Some(ns[i - 1].1@));
                    return Some(facts.names[i - 1].1.clone());
                }
                i = i - 1;
            }
            None
        },
    }
}

/// The source text recorded for syntax node `id`.
pub(crate) fn text_of(facts: &PatFacts, id: u64) -> (r: Option<String>)
    ensures
        match r {
            Some(t) => text_in(facts.names@, id) == Some(t@),
            None => text_in(facts.names@, id) is None,
        },
{
    lookup_name(facts, &NameRef::Ast(AstRef { id }))
}

/// References to the patterns of a container, in order.
fn pat_refs<'a>(c: &'a ChildrenContainer<Pat>) -> (v: Vec<&'a Pat>)
    ensures
        v@.len() == c@.len(),
        forall|i: int| 0 <= i < v@.len() ==> *(#[trigger] v@[i]) == c@[i],
{
    let mut v: Vec<&'a Pat> = Vec::new();
    let mut cur = c;
    let ghost mut k: int = 0;
    loop
        invariant
            0 <= k <= c@.len(),
            cur@ == c@.skip(k),
            v@.len() == k,
            forall|i: int| 0 <= i < k ==> *(#[trigger] v@[i]) == c@[i],
        decreases cur@.len(),
    {
        match cur {
            ChildrenContainer::Empty => {
                assert(c@.skip(k).len() == 0);
                return v;
            },
            ChildrenContainer::More(p, rest) => {
                assert(cur@ == seq![**p] + rest@);
                assert(c@.skip(k)[0] == c@[k]);
                assert(c@[k] == cur@[0]);
                v.push(&**p);
                assert(cur@.skip(1) =~= rest@);
                assert(c@.skip(k).skip(1) =~= c@.skip(k + 1));
                cur = rest;
                proof {
                    k = k + 1;
                }
            },
        }
    }
}

/// Emits the patterns of a container in order (see `pats_emit`).
fn emit_pats(c: &ChildrenContainer<Pat>, facts: &PatFacts, names: &mut BindingNames) -> (r: Vec<Code>)
    requires
        pats_ok(c@, *facts),
        old(names)@.fits(),
    ensures
        crate::emitter::code_texts(r@) == pats_emit(c@, *facts, old(names)@).0,
        final(names)@ == pats_emit(c@, *facts, old(names)@).1,
        final(names)@.fits(),
        crate::emitter::all_closed(r@),
    decreases seq_size(c@), 1nat, 0nat,
{
    let ghost st0 = names@;
    let v = pat_refs(c);
    let mut out: Vec<Code> = Vec::new();
    let mut i: usize = 0;
    assert(c@.take(0) =~= Seq::<Pat>::empty());
    assert(crate::emitter::code_texts(out@) =~= Seq::<Seq<char>>::empty());
    while i < v.len()
        invariant
            i <= v@.len(),
            v@.len() == c@.len(),
            forall|j: int| 0 <= j < v@.len() ==> *(#[trigger] v@[j]) == c@[j],
            pats_ok(c@, *facts),
            crate::emitter::code_texts(out@) == pats_emit(c@.take(i as int), *facts, st0).0,
            names@ == pats_emit(c@.take(i as int), *facts, st0).1,
            names@.fits(),
            crate::emitter::all_closed(out@),
        decreases v@.len() - i,
    {
        proof {
            lemma_seq_size_elem(c@, i as int);
            lemma_pats_ok_elem(c@, *facts, i as int);
        }
        let ghost before = out@;
        let code = emit_pattern(v[i], facts, names);
        out.push(code);
        proof {
            let t = c@.take(i + 1);
            assert(t.drop_last() =~= c@.take(i as int));
            assert(t.last() == c@[i as int]);
            assert(crate::emitter::code_texts(out@) =~= crate::emitter::code_texts(before).push(code@.buf));
        }
        i = i + 1;
    }
    assert(c@.take(i as int) =~= c@);
    out
}

/// Emits the field patterns of a record pattern (see `fields_emit`).
fn emit_fields(c: &ChildrenContainer<RecordPatField>, facts: &PatFacts, names: &mut BindingNames) -> (r: Vec<Code>)
    requires
        fields_ok(c@, *facts),
        old(names)@.fits(),
    ensures
        crate::emitter::code_texts(r@) == fields_emit(c@, *facts, old(names)@).0,
        final(names)@ == fields_emit(c@, *facts, old(names)@).1,
        final(names)@.fits(),
        crate::emitter::all_closed(r@),
    decreases field_seq_size(c@), 1nat, 0nat,
{
    let ghost st0 = names@;
    let mut out: Vec<Code> = Vec::new();
    let mut cur = c;
    let ghost mut k: int = 0;
    assert(c@.take(0) =~= Seq::<RecordPatField>::empty());
    assert(crate::emitter::code_texts(out@) =~= Seq::<Seq<char>>::empty());
    loop
        invariant
            0 <= k <= c@.len(),
            cur@ == c@.skip(k),
            st0 == old(names)@,
            fields_ok(c@, *facts),
            crate::emitter::code_texts(out@) == fields_emit(c@.take(k), *facts, st0).0,
            names@ == fields_emit(c@.take(k), *facts, st0).1,
            names@.fits(),
            crate::emitter::all_closed(out@),
        decreases cur@.len(),
    {
        match cur {
            ChildrenContainer::Empty => {
                assert(cur@.len() == 0);
                assert(c@.skip(k).len() == 0);
                assert(k == c@.len());
                assert(c@.take(k) =~= c@);
                assert(fields_emit(c@.take(k), *facts, st0) == fields_emit(c@, *facts, st0));
                return out;
            },
            ChildrenContainer::More(f, rest) => {
                assert(cur@ == seq![**f] + rest@);
                assert(c@.skip(k)[0] == c@[k]);
                assert(cur@[0] == **f);
                assert(c@[k] == **f);
                proof {
                    lemma_fields_ok_elem(c@, *facts, k);
                    lemma_field_seq_size_elem(c@, k);
                }
                let name = lookup_name(facts, &f.name_ref);
                let name = match name {
                    Some(t) => t,
                    None => {
                        proof {
                            assert(false);
                        }
                        String::new()
                    },
                };
                let ghost before = out@;
                let pc = emit_pattern(&f.pat, facts, names);
                let mut fc = Code::new();
                fc.w("f_");
                fc.w(name);
                fc.w(": ");
                fc.w(pc);
                out.push(fc);
                proof {
                    let t = c@.take(k + 1);
                    assert(t.drop_last() =~= c@.take(k));
                    assert(t.last() == c@[k]);
                    assert(crate::emitter::code_texts(out@) =~= crate::emitter::code_texts(before).push(fc@.buf));
                }
                assert(cur@.skip(1) =~= rest@);
                assert(c@.skip(k).skip(1) =~= c@.skip(k + 1));
                cur = rest;
                proof {
                    k = k + 1;
                }
            },
        }
    }
}

proof fn lemma_fields_ok_elem(fs: Seq<RecordPatField>, facts: PatFacts, i: int)
    requires
        fields_ok(fs, facts),
        0 <= i < fs.len(),
    ensures
        pat_ok(fs[i].pat, facts),
        name_ref_text(facts, fs[i].name_ref) is Some,
    decreases fs.len(),
{
    if i < fs.len() - 1 {
        lemma_fields_ok_elem(fs.drop_last(), facts, i);
    }
}

proof fn lemma_field_seq_size_elem(fs: Seq<RecordPatField>, i: int)
    requires
        0 <= i < fs.len(),
    ensures
        pat_size(fs[i].pat) <= field_seq_size(fs),
    decreases fs.len(),
{
    if i < fs.len() - 1 {
        lemma_field_seq_size_elem(fs.drop_last(), i);
    }
}


/// Emits the field codes of a tuple-like pattern (see `tuple_like_emit`).
fn emit_tuple_like(n: usize, c: &ChildrenContainer<Pat>, facts: &PatFacts, names: &mut BindingNames) -> (r: Vec<Code>)
    requires
        tuple_like_ok(n as nat, c@, *facts),
        old(names)@.fits(),
    ensures
        crate::emitter::code_texts(r@) == tuple_like_emit(n as nat, c@, *facts, old(names)@).0,
        final(names)@ == tuple_like_emit(n as nat, c@, *facts, old(names)@).1,
        final(names)@.fits(),
        crate::emitter::all_closed(r@),
    decreases seq_size(c@), 2nat, 0nat,
{
    let ghost ps = c@;
    let ghost st0 = names@;
    let v = pat_refs(c);
    if v.len() == 1 && matches!(v[0], Pat::RestPat(_)) {
        let mut out: Vec<Code> = Vec::new();
        let mut i: usize = 0;
        while i < n
            invariant
                i <= n,
                out@.len() == i,
                forall|j: int| 0 <= j < i ==> (#[trigger] out@[j])@.buf == "_"@ && out@[j]@.indent == 0,
            decreases n - i,
        {
            out.push(code_of("_"));
            i = i + 1;
        }
        assert(crate::emitter::code_texts(out@) =~= underscores(n as nat));
        return out;
    }
    // The first rest pattern.
    let mut k: usize = 0;
    while k < v.len() && !matches!(v[k], Pat::RestPat(_))
        invariant
            k <= v@.len(),
            v@.len() == ps.len(),
            forall|j: int| 0 <= j < v@.len() ==> *(#[trigger] v@[j]) == ps[j],
            forall|j: int| 0 <= j < k ==> !(ps[j] is RestPat),
        decreases v@.len() - k,
    {
        k = k + 1;
    }
    proof {
        lemma_first_rest_bound(ps);
    }
    if k == v.len() {
        proof {
            assert(first_rest(ps) is None) by {
                if let Some(f) = first_rest(ps) {
                    assert(ps[f] is RestPat);
                }
            }
            assert(!(ps.len() == 1 && ps[0] is RestPat));
        }
        return emit_pats(c, facts, names);
    }
    proof {
        assert(first_rest(ps) == Some(k as int)) by {
            if let Some(f) = first_rest(ps) {
                assert(f == k);
            } else {
                assert(ps[k as int] is RestPat);
            }
        }
    }
    let ghost prefix = ps.take(k as int);
    let ghost suffix = ps.skip(k + 1);
    let m1 = if k < n { k } else { n };
    let slen = v.len() - k - 1;
    let m2 = if slen < n { slen } else { n };
    proof {
        lemma_seq_size_take(ps, k as int);
        lemma_seq_size_take(prefix, m1 as int);
        lemma_seq_size_skip(ps, k + 1);
    }
    // The patterns before the rest pattern, in order.
    let ghost front_ps = prefix.take(m1 as int);
    assert(front_ps =~= ps.take(m1 as int));
    let mut front: Vec<Code> = Vec::new();
    let mut i: usize = 0;
    assert(front_ps.take(0) =~= Seq::<Pat>::empty());
    assert(crate::emitter::code_texts(front@) =~= Seq::<Seq<char>>::empty());
    while i < m1
        invariant
            i <= m1,
            m1 <= k < v@.len(),
            v@.len() == ps.len(),
            forall|j: int| 0 <= j < v@.len() ==> *(#[trigger] v@[j]) == ps[j],
            front_ps == ps.take(m1 as int),
            pats_ok(front_ps, *facts),
            seq_size(front_ps) <= seq_size(ps),
            ps == c@,
            front@.len() == i,
            crate::emitter::code_texts(front@) == pats_emit(front_ps.take(i as int), *facts, st0).0,
            names@ == pats_emit(front_ps.take(i as int), *facts, st0).1,
            names@.fits(),
            crate::emitter::all_closed(front@),
        decreases m1 - i,
    {
        proof {
            lemma_seq_size_elem(front_ps, i as int);
            lemma_pats_ok_elem(front_ps, *facts, i as int);
            assert(front_ps[i as int] == ps[i as int]);
            assert(pat_size(*v@[i as int]) <= seq_size(c@));
        }
        let ghost before = front@;
        let code = emit_pattern(v[i], facts, names);
        front.push(code);
        proof {
            let t = front_ps.take(i + 1);
            assert(t.drop_last() =~= front_ps.take(i as int));
            assert(t.last() == front_ps[i as int]);
            assert(crate::emitter::code_texts(front@) =~= crate::emitter::code_texts(before).push(code@.buf));
        }
        i = i + 1;
    }
    assert(front_ps.take(m1 as int) =~= front_ps);
    let ghost st1 = names@;
    // The patterns after it, from the last one backwards.
    let mut back: Vec<Code> = Vec::new();
    let mut j: usize = 0;
    assert(crate::emitter::code_texts(back@) =~= pats_emit_rev(suffix, 0, *facts, st1).0);
    proof {
        lemma_seq_size_skip(suffix, suffix.len() - m2);
    }
    while j < m2
        invariant
            j <= m2,
            m2 <= slen,
            slen == suffix.len(),
            suffix == ps.skip(k + 1),
            k < v@.len(),
            v@.len() == ps.len(),
            forall|x: int| 0 <= x < v@.len() ==> *(#[trigger] v@[x]) == ps[x],
            pats_ok(suffix.skip(suffix.len() - m2), *facts),
            seq_size(suffix) <= seq_size(ps),
            ps == c@,
            back@.len() == j,
            crate::emitter::code_texts(back@) == pats_emit_rev(suffix, j as nat, *facts, st1).0,
            names@ == pats_emit_rev(suffix, j as nat, *facts, st1).1,
            names@.fits(),
            crate::emitter::all_closed(back@),
        decreases m2 - j,
    {
        let idx = v.len() - 1 - j;
        proof {
            let tail = suffix.skip(suffix.len() - m2);
            assert(tail[m2 - 1 - j] == suffix[suffix.len() - 1 - j]);
            lemma_pats_ok_elem(tail, *facts, m2 - 1 - j);
            assert(suffix[suffix.len() - 1 - j] == ps[idx as int]);
            lemma_seq_size_elem(suffix, suffix.len() - 1 - j);
            lemma_rev_step(suffix, j as nat, *facts, st1);
            assert(pat_size(*v@[idx as int]) <= seq_size(c@));
        }
        let ghost before = back@;
        let code = emit_pattern(v[idx], facts, names);
        back.push(code);
        proof {
            assert(crate::emitter::code_texts(back@) =~= crate::emitter::code_texts(before).push(code@.buf));
        }
        j = j + 1;
    }
    // The fields: `_`, the front codes, then the back codes from the last field.
    let mut out: Vec<Code> = Vec::new();
    let mut x: usize = 0;
    while x < n
        invariant
            x <= n,
            out@.len() == x,
            forall|y: int| 0 <= y < x ==> (#[trigger] out@[y])@.buf == "_"@ && out@[y]@.indent == 0,
        decreases n - x,
    {
        out.push(code_of("_"));
        x = x + 1;
    }
    let mut y: usize = 0;
    while y < front.len()
        invariant
            y <= front@.len(),
            front@.len() == m1,
            m1 <= n,
            out@.len() == n,
            crate::emitter::all_closed(front@),
            forall|z: int| 0 <= z < y ==> (#[trigger] out@[z]) == front@[z],
            forall|z: int| y <= z < n ==> (#[trigger] out@[z])@.buf == "_"@,
            crate::emitter::all_closed(out@),
        decreases front@.len() - y,
    {
        out[y] = front[y].clone();
        y = y + 1;
    }
    let mut z: usize = 0;
    while z < back.len()
        invariant
            z <= back@.len(),
            back@.len() == m2,
            m2 <= n,
            front@.len() == m1,
            m1 <= n,
            out@.len() == n,
            crate::emitter::all_closed(back@),
            forall|w: int| n - z <= w < n ==> (#[trigger] out@[w]) == back@[n - 1 - w],
            forall|w: int| 0 <= w < n - z && w < m1 ==> (#[trigger] out@[w]) == front@[w],
            forall|w: int| 0 <= w < n - z && w >= m1 ==> (#[trigger] out@[w])@.buf == "_"@,
            crate::emitter::all_closed(out@),
        decreases back@.len() - z,
    {
        out[n - 1 - z] = back[z].clone();
        z = z + 1;
    }
    proof {
        let fr = crate::emitter::code_texts(front@);
        let bk = crate::emitter::code_texts(back@);
        assert(crate::emitter::code_texts(out@) =~= place_codes(n as nat, fr, bk));
    }
    out
}


/// Appends `items` with `sep` between them, then `close`.
fn finish_joined(mut out: Code, items: &Vec<Code>, sep: &str, close: &str) -> (r: Code)
    requires
        crate::emitter::all_closed(items@),
        out@.indent == 0,
    ensures
        r@.buf == out@.buf + join_with(crate::emitter::code_texts(items@), sep@) + close@,
        r@.indent == 0,
{
    let ghost start = out@.buf;
    crate::emitter::write_joined(&mut out, items, sep);
    out.w(close);
    assert(out@.buf =~= start + join_with(crate::emitter::code_texts(items@), sep@) + close@);
    out
}

/// The range pattern `r` with its kind of range set to `op`.
pub open spec fn with_range_op(r: RangePat, op: RangeOp) -> RangePat {
    RangePat { start: r.start, end: r.end, op_kind: op, node_info: r.node_info }
}

/// The range pattern `r` with only its lower bound.
pub open spec fn lower_part(r: RangePat) -> RangePat {
    RangePat { start: r.start, end: None, op_kind: RangeOp::Exclusive, node_info: r.node_info }
}

/// The range pattern `r` with only its upper bound.
pub open spec fn upper_part(r: RangePat) -> RangePat {
    RangePat { start: None, end: r.end, op_kind: r.op_kind, node_info: r.node_info }
}

/// A range pattern with both bounds is the conjunction of the pattern of
/// its lower bound and the pattern of its upper bound (`(>=lo)` and `(<hi)`
/// or `(<=hi)` give `(>=lo and <hi)` or `(>=lo and <=hi)`), its bounds
/// emitted in order; and an exclusive range never reads as the inclusive
/// one with the same bounds, with one bound or with both: its upper bound
/// is one character shorter (`<` where the inclusive one has `<=`).
pub proof fn lemma_range_pattern_bounds(r: RangePat, facts: PatFacts, st: NamesState)
    requires
        r.end is Some,
    ensures
        r.start is Some ==> {
            let (lt, st1) = pat_emit(Pat::RangePat(lower_part(r)), facts, st);
            let (ut, st2) = pat_emit(Pat::RangePat(upper_part(r)), facts, st1);
            pat_emit(Pat::RangePat(r), facts, st) == (lt.drop_last() + " and "@ + ut.drop_first(), st2)
        },
        pat_emit(Pat::RangePat(with_range_op(r, RangeOp::Exclusive)), facts, st).0
            != pat_emit(Pat::RangePat(with_range_op(r, RangeOp::Inclusive)), facts, st).0,
        pat_emit(Pat::RangePat(with_range_op(r, RangeOp::Exclusive)), facts, st).0.len() + 1
            == pat_emit(Pat::RangePat(with_range_op(r, RangeOp::Inclusive)), facts, st).0.len(),
{
    reveal_strlit("(>=");
    reveal_strlit(" and <");
    reveal_strlit(" and <=");
    reveal_strlit(" and ");
    reveal_strlit(")");
    reveal_strlit("(<");
    reveal_strlit("(<=");
    reveal_strlit("<");
    reveal_strlit("<=");
    let hi = *r.end.unwrap();
    let ex = with_range_op(r, RangeOp::Exclusive);
    let inc = with_range_op(r, RangeOp::Inclusive);
    assert(pat_size(Pat::RangePat(r)) == 1 + opt_size(r.start) + opt_size(r.end));
    match r.start {
        Some(lo) => {
            let (a, st1) = pat_emit(*lo, facts, st);
            let (b, st2) = pat_emit(hi, facts, st1);
            let lt = pat_emit(Pat::RangePat(lower_part(r)), facts, st).0;
            assert(lt == "(>="@ + a + ")"@);
            assert(pat_emit(Pat::RangePat(lower_part(r)), facts, st).1 == st1);
            let ut = pat_emit(Pat::RangePat(upper_part(r)), facts, st1).0;
            assert(lt.drop_last() =~= "(>="@ + a);
            match r.op_kind {
                RangeOp::Exclusive => {
                    assert(ut == "(<"@ + b + ")"@);
                    assert(ut.drop_first() =~= "<"@ + b + ")"@);
                    assert(pat_emit(Pat::RangePat(r), facts, st).0 =~= lt.drop_last() + " and "@ + ut.drop_first());
                },
                RangeOp::Inclusive => {
                    assert(ut == "(<="@ + b + ")"@);
                    assert(ut.drop_first() =~= "<="@ + b + ")"@);
                    assert(pat_emit(Pat::RangePat(r), facts, st).0 =~= lt.drop_last() + " and "@ + ut.drop_first());
                },
            }
            assert(pat_emit(Pat::RangePat(ex), facts, st).0.len() + 1 == pat_emit(Pat::RangePat(inc), facts, st).0.len());
        },
        None => {
            let b = pat_emit(hi, facts, st).0;
            assert(pat_emit(Pat::RangePat(ex), facts, st).0 == "(<"@ + b + ")"@);
            assert(pat_emit(Pat::RangePat(inc), facts, st).0 == "(<="@ + b + ")"@);
            assert(pat_emit(Pat::RangePat(ex), facts, st).0.len() + 1 == pat_emit(Pat::RangePat(inc), facts, st).0.len());
        },
    }
}

/// The C# pattern of `pat`, binding the locals it declares to new names in
/// `names` (see `pat_emit`).
pub fn emit_pattern(pat: &Pat, facts: &PatFacts, names: &mut BindingNames) -> (r: Code)
    requires
        pat_ok(*pat, *facts),
        old(names)@.fits(),
    ensures
        r@.buf == pat_emit(*pat, *facts, old(names)@).0,
        final(names)@ == pat_emit(*pat, *facts, old(names)@).1,
        final(names)@.fits(),
        r@.indent == 0,
    decreases pat_size(*pat), 0nat, 0nat,
{
    let ghost st0 = names@;
    match pat {
        Pat::WildcardPat(_) => code_of("{} _"),
        Pat::IdentPat(i) => {
            match lookup_fact(facts, &i.node_info) {
                Some(PatFact::ConstructableIdent(cs)) => code_of(cs.as_str()),
                Some(PatFact::OtherConstIdent(t)) => {
                    let mut out = code_of("/* Unresolved ident */");
                    out.w(t.as_str());
                    out
                },
                Some(PatFact::Local(rust)) => {
                    let name = names.alloc_binding(i.name, rust.as_str());
                    match &i.pat {
                        Some(sub) => {
                            proof {
                                assert(pat_size(*pat) == 1 + opt_size(i.pat));
                            }
                            let mut out = emit_pattern(sub, facts, names);
                            out.w(" ");
                            out.w(name);
                            out
                        },
                        None => {
                            let mut out = code_of("var ");
                            out.w(name);
                            out
                        },
                    }
                },
                _ => {
                    proof {
                        assert(false);
                    }
                    Code::new()
                },
            }
        },
        Pat::TupleStructPat(t) => {
            match lookup_fact(facts, &t.node_info) {
                Some(PatFact::Constructable { cs_name, field_count }) => {
                    proof {
                        lemma_seq_size_children(t.fields);
                    }
                    let codes = emit_tuple_like(*field_count, &t.fields, facts, names);
                    let mut numbered_codes: Vec<Code> = Vec::new();
                    let mut k: usize = 0;
                    while k < codes.len()
                        invariant
                            k <= codes@.len(),
                            crate::emitter::all_closed(codes@),
                            numbered_codes@.len() == k,
                            crate::emitter::all_closed(numbered_codes@),
                            forall|j: int| 0 <= j < k ==> (#[trigger] numbered_codes@[j])@.buf
                                == numbered(crate::emitter::code_texts(codes@))[j],
                        decreases codes@.len() - k,
                    {
                        let mut c = code_of("f_");
                        c.w(k);
                        c.w(": ");
                        assert(codes@[k as int]@.indent == 0);
                        c.w(&codes[k]);
                        numbered_codes.push(c);
                        k = k + 1;
                    }
                    assert(crate::emitter::code_texts(numbered_codes@) =~= numbered(
                        crate::emitter::code_texts(codes@),
                    ));
                    let mut out = code_of(cs_name.as_str());
                    out.w("{");
                    finish_joined(out, &numbered_codes, ",", "}")
                },
                _ => code_of("Unknown"),
            }
        },
        Pat::PathPat(pp) => {
            match lookup_fact(facts, &pp.node_info) {
                Some(PatFact::Const(path)) => code_of(path.as_str()),
                Some(PatFact::Constructable { cs_name, .. }) => code_of(cs_name.as_str()),
                Some(PatFact::Unresolved(text)) => {
                    let mut out = code_of("Unknown /* bad path resolution: ");
                    out.w(text.as_str());
                    out.w(" */");
                    out
                },
                _ => {
                    proof {
                        assert(false);
                    }
                    Code::new()
                },
            }
        },
        Pat::RecordPat(r) => {
            match lookup_fact(facts, &r.node_info) {
                Some(PatFact::Constructable { cs_name, .. }) => {
                    let mut out = code_of(cs_name.as_str());
                    out.w("{");
                    if matches!(r.record_pat_field_list.fields, ChildrenContainer::Empty) {
                        out.w("}");
                        out
                    } else {
                        proof {
                            lemma_field_seq_size_children(r.record_pat_field_list.fields);
                        }
                        let codes = emit_fields(&r.record_pat_field_list.fields, facts, names);
                        finish_joined(out, &codes, ",", "}")
                    }
                },
                Some(PatFact::Unresolved(text)) => {
                    let mut out = code_of("Unknown /* Bad record path resolution: ");
                    out.w(text.as_str());
                    out.w(" */");
                    out
                },
                _ => {
                    proof {
                        assert(false);
                    }
                    Code::new()
                },
            }
        },
        Pat::LiteralPat(l) => {
            match lookup_fact(facts, &l.node_info) {
                Some(PatFact::Literal(v)) => emit_literal(v),
                _ => {
                    proof {
                        assert(false);
                    }
                    Code::new()
                },
            }
        },
        Pat::OrPat(o) => {
            proof {
                lemma_seq_size_children(o.pats);
            }
            let codes = emit_pats(&o.pats, facts, names);
            finish_joined(code_of("("), &codes, " or ", ")")
        },
        Pat::SlicePat(s) => {
            proof {
                lemma_seq_size_children(s.components.prefix);
            }
            let codes = emit_pats(&s.components.prefix, facts, names);
            finish_joined(code_of("["), &codes, ",", "]")
        },
        Pat::TuplePat(t) => {
            match lookup_fact(facts, &t.node_info) {
                Some(PatFact::TupleArity(n)) => {
                    proof {
                        lemma_seq_size_children(t.fields);
                    }
                    let codes = emit_tuple_like(*n, &t.fields, facts, names);
                    finish_joined(code_of("("), &codes, ",", ")")
                },
                _ => {
                    proof {
                        assert(false);
                    }
                    Code::new()
                },
            }
        },
        Pat::RangePat(r) => {
            proof {
                assert(pat_size(*pat) == 1 + opt_size(r.start) + opt_size(r.end));
            }
            match (&r.start, r.op_kind, &r.end) {
                (Some(lo), RangeOp::Exclusive, Some(hi)) => {
                    let a = emit_pattern(lo, facts, names);
                    let b = emit_pattern(hi, facts, names);
                    let mut out = code_of("(>=");
                    out.w(a);
                    out.w(" and <");
                    out.w(b);
                    out.w(")");
                    out
                },
                (Some(lo), RangeOp::Inclusive, Some(hi)) => {
                    let a = emit_pattern(lo, facts, names);
                    let b = emit_pattern(hi, facts, names);
                    let mut out = code_of("(>=");
                    out.w(a);
                    out.w(" and <=");
                    out.w(b);
                    out.w(")");
                    out
                },
                (Some(lo), RangeOp::Exclusive, None) => {
                    let a = emit_pattern(lo, facts, names);
                    let mut out = code_of("(>=");
                    out.w(a);
                    out.w(")");
                    out
                },
                (None, RangeOp::Exclusive, Some(hi)) => {
                    let b = emit_pattern(hi, facts, names);
                    let mut out = code_of("(<");
                    out.w(b);
                    out.w(")");
                    out
                },
                (None, RangeOp::Inclusive, Some(hi)) => {
                    let b = emit_pattern(hi, facts, names);
                    let mut out = code_of("(<=");
                    out.w(b);
                    out.w(")");
                    out
                },
                _ => {
                    proof {
                        assert(false);
                    }
                    Code::new()
                },
            }
        },
        Pat::RefPat(r) => {
            proof {
                assert(pat_size(*pat) == 1 + pat_size(*r.pat));
            }
            emit_pattern(&r.pat, facts, names)
        },
        Pat::RestPat(_) => {
            proof {
                assert(false);
            }
            Code::new()
        },
    }
}

} // verus!
