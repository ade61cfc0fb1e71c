//! Dyn compatibility of traits: what keeps a trait from being used as
//! `dyn Trait`, and which of those reasons its C# interface can live with.
//!
//! Whether a type mentions `Self`, whether an item requires `Self: Sized`
//! and which supertraits a trait has need name resolution; they come in as
//! plain facts.

use vstd::prelude::*;

verus! {

/// Why a method keeps its trait from being dyn compatible.
#[derive(PartialEq, Eq, Structural, Clone, Copy)]
pub enum MethodViolationCode {
    StaticMethod,
    ReferencesSelfInput,
    ReferencesSelfOutput,
    ReferencesImplTraitInTrait,
    AsyncFn,
    WhereClauseReferencesSelf,
    Generic,
    UndispatchableReceiver,
}

/// Why a trait is not dyn compatible; a method or constant by its identity.
#[derive(PartialEq, Eq, Structural, Clone, Copy)]
pub enum DynCompatibilityViolation {
    SizedSelf,
    SelfReferential,
    Method(u64, MethodViolationCode),
    AssocConst(u64),
}

/// A method as far as its dyn compatibility depends on it: whether it
/// takes `self`, whether it is `async`, for each other parameter whether
/// its type mentions `Self`, and whether its return type and the
/// constraints of its generic parameters do.
pub struct MethodFacts {
    pub id: u64,
    pub has_self: bool,
    pub is_async: bool,
    pub param_refs_self: Vec<bool>,
    pub ret_refs_self: bool,
    pub where_refs_self: bool,
}

/// An item of a trait or of one of its supertraits.
pub enum AssocItemFacts {
    Const(u64),
    Function(MethodFacts),
    TypeAlias,
}

/// An item with whether its generics require `Self: Sized`.
pub struct AssocEntry {
    pub item: AssocItemFacts,
    pub self_sized: bool,
}

/// A trait as far as its dyn compatibility depends on it: whether `Sized`
/// is among its supertraits, whether its predicates mention `Self`, and
/// its items with those of its supertraits.
pub struct TraitDynFacts {
    pub sized_supertrait: bool,
    pub predicates_ref_self: bool,
    pub items: Vec<AssocEntry>,
}

/// `xs` with `x` added where `cond` holds.
pub open spec fn push_if<T>(xs: Seq<T>, cond: bool, x: T) -> Seq<T> {
    if cond { xs.push(x) } else { xs }
}

/// Whether one of `bs` holds.
pub open spec fn any_true(bs: Seq<bool>) -> bool {
    exists|i: int| 0 <= i < bs.len() && bs[i]
}

/// The violations of method `m`, in order: a static method, an `async`
/// one, `Self` in a parameter, in the return type, in a constraint.
pub open spec fn method_violations(m: MethodFacts) -> Seq<MethodViolationCode> {
    let v0 = push_if(Seq::empty(), !m.has_self, MethodViolationCode::StaticMethod);
    let v1 = push_if(v0, m.is_async, MethodViolationCode::AsyncFn);
    let v2 = push_if(v1, any_true(m.param_refs_self@), MethodViolationCode::ReferencesSelfInput);
    let v3 = push_if(v2, m.ret_refs_self, MethodViolationCode::ReferencesSelfOutput);
    push_if(v3, m.where_refs_self, MethodViolationCode::WhereClauseReferencesSelf)
}

/// The violations that item `e` brings: none where it requires
/// `Self: Sized` or is a type; a constant; each violation of a method.
pub open spec fn item_violations(e: AssocEntry) -> Seq<DynCompatibilityViolation> {
    if e.self_sized {
        Seq::empty()
    } else {
        match e.item {
            AssocItemFacts::Const(id) => seq![DynCompatibilityViolation::AssocConst(id)],
            AssocItemFacts::Function(m) => method_violations(m).map_values(
                |c: MethodViolationCode| DynCompatibilityViolation::Method(m.id, c),
            ),
            AssocItemFacts::TypeAlias => Seq::empty(),
        }
    }
}

/// The violations of the items `es`, in order.
pub open spec fn items_violations(es: Seq<AssocEntry>) -> Seq<DynCompatibilityViolation>
    decreases es.len(),
{
    if es.len() == 0 {
        Seq::empty()
    } else {
        items_violations(es.drop_last()) + item_violations(es.last())
    }
}

/// All violations of trait `t`, in order: `Sized` as supertrait, `Self` in
/// its predicates, then those of its items.
pub open spec fn trait_violations(t: TraitDynFacts) -> Seq<DynCompatibilityViolation> {
    let v0 = push_if(Seq::empty(), t.sized_supertrait, DynCompatibilityViolation::SizedSelf);
    let v1 = push_if(v0, t.predicates_ref_self, DynCompatibilityViolation::SelfReferential);
    v1 + items_violations(t.items@)
}

/// Whether the C# interface of a trait can live with violation `v`:
/// interfaces are sized, generic and `async` methods and methods returning
/// `impl Trait` work; the rest does not.
pub open spec fn allowed_spec(v: DynCompatibilityViolation) -> bool {
    match v {
        DynCompatibilityViolation::SizedSelf => true,
        DynCompatibilityViolation::SelfReferential => false,
        DynCompatibilityViolation::Method(_, c) => c == MethodViolationCode::Generic || c
            == MethodViolationCode::ReferencesImplTraitInTrait || c == MethodViolationCode::AsyncFn,
        DynCompatibilityViolation::AssocConst(_) => false,
    }
}

/// A method's violations are exactly these, each at most once: it is
/// static, it is `async`, some parameter other than `self` mentions `Self`,
/// its return type does, a constraint does.
pub proof fn lemma_method_violations_exact(m: MethodFacts)
    ensures
        method_violations(m).contains(MethodViolationCode::StaticMethod) <==> !m.has_self,
        method_violations(m).contains(MethodViolationCode::AsyncFn) <==> m.is_async,
        method_violations(m).contains(MethodViolationCode::ReferencesSelfInput)
            <==> exists|k: int| 0 <= k < m.param_refs_self@.len() && m.param_refs_self@[k],
        method_violations(m).contains(MethodViolationCode::ReferencesSelfOutput) <==> m.ret_refs_self,
        method_violations(m).contains(MethodViolationCode::WhereClauseReferencesSelf) <==> m.where_refs_self,
        !method_violations(m).contains(MethodViolationCode::ReferencesImplTraitInTrait),
        !method_violations(m).contains(MethodViolationCode::Generic),
        !method_violations(m).contains(MethodViolationCode::UndispatchableReceiver),
        method_violations(m).no_duplicates(),
{
    let input = exists|k: int| 0 <= k < m.param_refs_self@.len() && m.param_refs_self@[k];
    let v0 = push_if(Seq::<MethodViolationCode>::empty(), !m.has_self, MethodViolationCode::StaticMethod);
    let v1 = push_if(v0, m.is_async, MethodViolationCode::AsyncFn);
    let v2 = push_if(v1, input, MethodViolationCode::ReferencesSelfInput);
    let v3 = push_if(v2, m.ret_refs_self, MethodViolationCode::ReferencesSelfOutput);
    let v4 = push_if(v3, m.where_refs_self, MethodViolationCode::WhereClauseReferencesSelf);
    assert(any_true(m.param_refs_self@) == input);
    assert(method_violations(m) == v4);
    assert(Seq::<MethodViolationCode>::empty().no_duplicates());
    lemma_push_if(Seq::<MethodViolationCode>::empty(), !m.has_self, MethodViolationCode::StaticMethod);
    lemma_push_if(v0, m.is_async, MethodViolationCode::AsyncFn);
    lemma_push_if(v1, input, MethodViolationCode::ReferencesSelfInput);
    lemma_push_if(v2, m.ret_refs_self, MethodViolationCode::ReferencesSelfOutput);
    lemma_push_if(v3, m.where_refs_self, MethodViolationCode::WhereClauseReferencesSelf);
}

/// What `push_if` holds: what `xs` held, and `x` where `cond` is true; with
/// no element twice where `xs` had none and lacked `x`.
proof fn lemma_push_if<T>(xs: Seq<T>, cond: bool, x: T)
    ensures
        forall|y: T| #[trigger] push_if(xs, cond, x).contains(y) <==> xs.contains(y) || (cond && y == x),
        xs.no_duplicates() && !xs.contains(x) ==> push_if(xs, cond, x).no_duplicates(),
{
    if cond {
        let ys = xs.push(x);
        assert forall|y: T| #[trigger] ys.contains(y) <==> xs.contains(y) || y == x by {
            if ys.contains(y) {
                let i = choose|i: int| 0 <= i < ys.len() && ys[i] == y;
                if i < xs.len() {
                    assert(xs[i] == y);
                }
            }
            if xs.contains(y) {
                let i = choose|i: int| 0 <= i < xs.len() && xs[i] == y;
                assert(ys[i] == y);
            }
            if y == x {
                assert(ys[xs.len() as int] == x);
            }
        }
        if xs.no_duplicates() && !xs.contains(x) {
            assert forall|i: int, j: int| 0 <= i < ys.len() && 0 <= j < ys.len() && i != j implies ys[i] != ys[j] by {
                if i < xs.len() && j < xs.len() {
                    assert(ys[i] == xs[i] && ys[j] == xs[j]);
                } else if i < xs.len() {
                    assert(ys[i] == xs[i]);
                } else if j < xs.len() {
                    assert(ys[j] == xs[j]);
                }
            }
        }
    }
}

/// The violations of the items include each violation of each item.
proof fn lemma_items_violations_include(es: Seq<AssocEntry>, i: int, x: DynCompatibilityViolation)
    requires
        0 <= i < es.len(),
        item_violations(es[i]).contains(x),
    ensures
        items_violations(es).contains(x),
    decreases es.len(),
{
    let prefix = items_violations(es.drop_last());
    let last = item_violations(es.last());
    assert(items_violations(es) == prefix + last);
    if i == es.len() - 1 {
        let j = choose|j: int| 0 <= j < last.len() && last[j] == x;
        assert((prefix + last)[prefix.len() + j] == x);
    } else {
        assert(es.drop_last()[i] == es[i]);
        lemma_items_violations_include(es.drop_last(), i, x);
        let j = choose|j: int| 0 <= j < prefix.len() && prefix[j] == x;
        assert((prefix + last)[j] == x);
    }
}

/// A trait with a method that is not bound by `Self: Sized` and has a
/// parameter other than `self` that mentions `Self` has that violation,
/// which its C# interface cannot live with: the interface takes `Self` as a
/// parameter.
pub proof fn lemma_self_input_needs_self(t: TraitDynFacts, i: int, k: int)
    requires
        0 <= i < t.items@.len(),
        !t.items@[i].self_sized,
        t.items@[i].item is Function,
        0 <= k < t.items@[i].item->Function_0.param_refs_self@.len(),
        t.items@[i].item->Function_0.param_refs_self@[k],
    ensures
        trait_violations(t).contains(DynCompatibilityViolation::Method(
            t.items@[i].item->Function_0.id,
            MethodViolationCode::ReferencesSelfInput,
        )),
        exists|j: int| 0 <= j < trait_violations(t).len() && !allowed_spec(#[trigger] trait_violations(t)[j]),
{
    let m = t.items@[i].item->Function_0;
    let x = DynCompatibilityViolation::Method(m.id, MethodViolationCode::ReferencesSelfInput);
    lemma_method_violations_exact(m);
    let mv = method_violations(m);
    let c = choose|c: int| 0 <= c < mv.len() && mv[c] == MethodViolationCode::ReferencesSelfInput;
    let iv = item_violations(t.items@[i]);
    assert(iv[c] == x);
    lemma_items_violations_include(t.items@, i, x);
    let its = items_violations(t.items@);
    let j = choose|j: int| 0 <= j < its.len() && its[j] == x;
    let v0 = push_if(Seq::empty(), t.sized_supertrait, DynCompatibilityViolation::SizedSelf);
    let v1 = push_if(v0, t.predicates_ref_self, DynCompatibilityViolation::SelfReferential);
    assert(trait_violations(t) == v1 + its);
    assert(trait_violations(t)[v1.len() + j] == x);
    assert(!allowed_spec(x));
}

/// The violations of method `m` (see `method_violations`).
pub fn virtual_call_violations_for_method(m: &MethodFacts) -> (r: Vec<MethodViolationCode>)
    ensures
        r@ == method_violations(*m),
{
    let mut r: Vec<MethodViolationCode> = Vec::new();
    if !m.has_self {
        r.push(MethodViolationCode::StaticMethod);
    }
    if m.is_async {
        r.push(MethodViolationCode::AsyncFn);
    }
    let mut any = false;
    let mut i: usize = 0;
    while i < m.param_refs_self.len()
        invariant
            i <= m.param_refs_self@.len(),
            any == (exists|k: int| 0 <= k < i && m.param_refs_self@[k]),
        decreases m.param_refs_self@.len() - i,
    {
        if m.param_refs_self[i] {
            any = true;
        }
        i = i + 1;
    }
    if any {
        r.push(MethodViolationCode::ReferencesSelfInput);
    }
    if m.ret_refs_self {
        r.push(MethodViolationCode::ReferencesSelfOutput);
    }
    if m.where_refs_self {
        r.push(MethodViolationCode::WhereClauseReferencesSelf);
    }
    r
}

/// All violations of trait `t`, or `None` where it has none (see
/// `trait_violations`).
pub fn dyn_compatibility_all_violations_alt(t: &TraitDynFacts) -> (r: Option<Vec<DynCompatibilityViolation>>)
    ensures
        match r {
            Some(v) => v@ == trait_violations(*t) && v@.len() > 0,
            None => trait_violations(*t).len() == 0,
        },
{
    let mut violations: Vec<DynCompatibilityViolation> = Vec::new();
    if t.sized_supertrait {
        violations.push(DynCompatibilityViolation::SizedSelf);
    }
    if t.predicates_ref_self {
        violations.push(DynCompatibilityViolation::SelfReferential);
    }
    let ghost head = violations@;
    let mut i: usize = 0;
    assert(items_violations(t.items@.take(0)) =~= Seq::<DynCompatibilityViolation>::empty());
    while i < t.items.len()
        invariant
            i <= t.items@.len(),
            violations@ =~= head + items_violations(t.items@.take(i as int)),
        decreases t.items@.len() - i,
    {
        assert(t.items@.take(i + 1).drop_last() =~= t.items@.take(i as int));
        let e = &t.items[i];
        let ghost before = violations@;
        if !e.self_sized {
            match &e.item {
                AssocItemFacts::Const(id) => {
                    violations.push(DynCompatibilityViolation::AssocConst(*id));
                },
                AssocItemFacts::Function(m) => {
                    let codes = virtual_call_violations_for_method(m);
                    let mut k: usize = 0;
                    while k < codes.len()
                        invariant
                            k <= codes@.len(),
                            codes@ == method_violations(*m),
                            violations@ =~= before + codes@.take(k as int).map_values(
                                |c: MethodViolationCode| DynCompatibilityViolation::Method(m.id, c),
                            ),
                        decreases codes@.len() - k,
                    {
                        violations.push(DynCompatibilityViolation::Method(m.id, codes[k]));
                        assert(codes@.take(k + 1).map_values(
                            |c: MethodViolationCode| DynCompatibilityViolation::Method(m.id, c),
                        ) =~= codes@.take(k as int).map_values(
                            |c: MethodViolationCode| DynCompatibilityViolation::Method(m.id, c),
                        ).push(DynCompatibilityViolation::Method(m.id, codes@[k as int])));
                        k = k + 1;
                    }
                    assert(codes@.take(k as int) =~= codes@);
                },
                AssocItemFacts::TypeAlias => {},
            }
        }
        assert(violations@ =~= before + item_violations(t.items@[i as int]));
        i = i + 1;
    }
    assert(t.items@.take(i as int) =~= t.items@);
    if violations.len() == 0 {
        None
    } else {
        Some(violations)
    }
}

/// Whether the C# interface of a trait can live with violation `v` (see
/// `allowed_spec`).
pub fn allowed_violation(v: &DynCompatibilityViolation) -> (r: bool)
    ensures
        r == allowed_spec(*v),
{
    match v {
        DynCompatibilityViolation::SizedSelf => true,
        DynCompatibilityViolation::SelfReferential => false,
        DynCompatibilityViolation::Method(_, c) => match c {
            MethodViolationCode::Generic => true,
            MethodViolationCode::ReferencesImplTraitInTrait => true,
            MethodViolationCode::AsyncFn => true,
            MethodViolationCode::StaticMethod => false,
            MethodViolationCode::ReferencesSelfInput => false,
            MethodViolationCode::ReferencesSelfOutput => false,
            MethodViolationCode::WhereClauseReferencesSelf => false,
            MethodViolationCode::UndispatchableReceiver => false,
        },
        DynCompatibilityViolation::AssocConst(_) => false,
    }
}

/// Whether the C# interface of trait `t` takes its `Self` type as a
/// parameter: it has a violation that the interface cannot live with.
pub fn with_self_in_cs(t: &TraitDynFacts) -> (r: bool)
    ensures
        r == exists|k: int| 0 <= k < trait_violations(*t).len() && !allowed_spec(#[trigger] trait_violations(*t)[k]),
{
    match dyn_compatibility_all_violations_alt(t) {
        Some(vs) => {
            let mut i: usize = 0;
            while i < vs.len()
                invariant
                    i <= vs@.len(),
                    vs@ == trait_violations(*t),
                    forall|k: int| 0 <= k < i ==> allowed_spec(#[trigger] vs@[k]),
                decreases vs@.len() - i,
            {
                if !allowed_violation(&vs[i]) {
                    return true;
                }
                i = i + 1;
            }
            false
        },
        None => false,
    }
}

} // verus!
