//! Items declared inside function bodies. They are written after the
//! function, in nested static classes: one per module on the way from the
//! function's module down to the module that holds the item.

use vstd::prelude::*;
use crate::adt::{adt_state, emit_adt_with_impls, impl_emittable, impl_values, AdtFacts, CfgItemFacts, ImplFacts, emitted};
use crate::body::{find, lookup};
use crate::names::{mod_simple_name, mod_simple_name_spec, module_chain_ok, ModuleFacts};
use crate::body::{lemma_ends_newline, lemma_mark_keeps};
use crate::output::{at_line_boundary, dec_indent, inc_indent, Code, CodeState};

verus! {

/// An impl block met among the items: its identity, the key of the type it
/// is for where that is a struct, enum or union, and its facts.
pub struct ImplRef {
    pub id: u64,
    pub self_adt: Option<u64>,
    pub facts: ImplFacts,
}

/// An item declared in a function body. A type comes with its key and the
/// impl blocks of its module.
pub enum DeferredItem {
    Function(CfgItemFacts),
    Adt { key: u64, facts: AdtFacts, module_impls: Vec<ImplRef> },
    Impl(ImplRef),
}

/// An item with the keys of the modules from the one below the function's
/// module down to the one that holds it.
pub struct DeferredEntry {
    pub path: Vec<u64>,
    pub item: DeferredItem,
}

/// The items of a function body, in order, with the facts of each module
/// that a path names.
pub struct DeferredFacts {
    pub entries: Vec<DeferredEntry>,
    pub modules: Vec<(u64, ModuleFacts)>,
}

/// The impl blocks that entry `e` brings: itself for an impl, the impls of
/// its module for a type.
pub open spec fn entry_impls(e: DeferredEntry) -> Seq<ImplRef> {
    match e.item {
        DeferredItem::Impl(r) => seq![r],
        DeferredItem::Adt { module_impls, .. } => module_impls@,
        DeferredItem::Function(_) => Seq::empty(),
    }
}

/// The impl blocks that `es` bring, in order.
pub open spec fn all_impls(es: Seq<DeferredEntry>) -> Seq<ImplRef>
    decreases es.len(),
{
    if es.len() == 0 {
        Seq::empty()
    } else {
        all_impls(es.drop_last()) + entry_impls(es.last())
    }
}

/// Whether an impl block with identity `id` is among `rs`.
pub open spec fn has_id(rs: Seq<ImplRef>, id: u64) -> bool {
    exists|j: int| 0 <= j < rs.len() && (#[trigger] rs[j]).id == id
}

/// The impl blocks of `rs` for the type with key `key`, each once, in the
/// order they first come.
pub open spec fn impls_of(rs: Seq<ImplRef>, key: u64) -> Seq<ImplRef>
    decreases rs.len(),
{
    if rs.len() == 0 {
        Seq::empty()
    } else {
        let prev = impls_of(rs.drop_last(), key);
        if rs.last().self_adt == Some(key) && !has_id(prev, rs.last().id) {
            prev.push(rs.last())
        } else {
            prev
        }
    }
}

/// The facts of the impl blocks `rs`.
pub open spec fn ref_facts(rs: Seq<ImplRef>) -> Seq<ImplFacts> {
    rs.map_values(|r: ImplRef| r.facts)
}

/// Whether `q` lies strictly below `p`.
pub open spec fn extends(q: Seq<u64>, p: Seq<u64>) -> bool {
    q.len() > p.len() && q.take(p.len() as int) == p
}

/// The keys of the modules right below `p` that hold items of `es`, each
/// once, in the order they first come.
pub open spec fn next_keys(p: Seq<u64>, es: Seq<DeferredEntry>) -> Seq<u64>
    decreases es.len(),
{
    if es.len() == 0 {
        Seq::empty()
    } else {
        let prev = next_keys(p, es.drop_last());
        let q = es.last().path@;
        if extends(q, p) && !prev.contains(q[p.len() as int]) {
            prev.push(q[p.len() as int])
        } else {
            prev
        }
    }
}

/// The length of the longest path of `es`.
pub open spec fn max_depth(es: Seq<DeferredEntry>) -> nat
    decreases es.len(),
{
    if es.len() == 0 {
        0
    } else {
        let m = max_depth(es.drop_last());
        if es.last().path@.len() > m { es.last().path@.len() } else { m }
    }
}

/// The state after item `item`: the class of a type with the impls of it
/// among all items; nothing for a function or an impl that can be written.
pub open spec fn item_state(st: CodeState, item: DeferredItem, d: DeferredFacts) -> CodeState {
    match item {
        DeferredItem::Adt { key, facts, .. } => adt_state(st, facts, ref_facts(impls_of(all_impls(d.entries@), key))),
        _ => st,
    }
}

/// The state after the items among the first `n` whose path is `p`.
pub open spec fn block_items_state(st: CodeState, p: Seq<u64>, d: DeferredFacts, n: nat) -> CodeState
    decreases n,
{
    if n == 0 {
        st
    } else {
        let prev = block_items_state(st, p, d, (n - 1) as nat);
        let e = d.entries@[n - 1];
        if e.path@ == p { item_state(prev, e.item, d) } else { prev }
    }
}

/// The line that opens the class of module key `k`: `private` where it is
/// right below the function's module, else `public`.
pub open spec fn block_head_text(k: u64, root: bool, d: DeferredFacts) -> Seq<char> {
    (if root { "private"@ } else { "public"@ }) + " static partial class "@
        + mod_simple_name_spec(lookup(d.modules@, k).unwrap()) + (" {"@ + "\n"@)
}

/// The state after the class of the module at path `p` (not empty): the
/// opening line, then one more indentation step for its items and the
/// classes of the modules below it, then one less and the closing brace.
pub open spec fn block_state(st: CodeState, p: Seq<u64>, root: bool, d: DeferredFacts) -> CodeState
    decreases max_depth(d.entries@) - p.len(), 1nat, 0nat,
{
    let st0 = CodeState { buf: st.buf + block_head_text(p.last(), root, d) + seq![inc_indent()], indent: st.indent + 1 };
    let st1 = block_items_state(st0, p, d, d.entries@.len());
    let st2 = blocks_state(st1, p, next_keys(p, d.entries@), false, d);
    CodeState {
        buf: st2.buf + seq![dec_indent()] + ("}"@ + "\n"@),
        indent: if st2.indent > 0 { (st2.indent - 1) as nat } else { 0 },
    }
}

/// The state after the classes of the modules `ks` right below `p`.
pub open spec fn blocks_state(st: CodeState, p: Seq<u64>, ks: Seq<u64>, root: bool, d: DeferredFacts) -> CodeState
    decreases max_depth(d.entries@) - p.len(), 0nat, ks.len(),
{
    if ks.len() == 0 || p.len() >= max_depth(d.entries@) {
        st
    } else {
        block_state(blocks_state(st, p, ks.drop_last(), root, d), p.push(ks.last()), root, d)
    }
}

/// The state after the items of a function body: nothing without any; else
/// a comment and the class of each module right below the function's.
pub open spec fn deferred_state(st: CodeState, d: DeferredFacts) -> CodeState {
    if d.entries@.len() == 0 {
        st
    } else {
        blocks_state(
            st.push_text("// function local items"@ + "\n"@),
            Seq::empty(),
            next_keys(Seq::empty(), d.entries@),
            true,
            d,
        )
    }
}

/// Each module right below a path gets one class: the keys of the modules
/// below `p` are distinct.
pub proof fn lemma_next_keys_distinct(p: Seq<u64>, es: Seq<DeferredEntry>)
    ensures
        next_keys(p, es).no_duplicates(),
    decreases es.len(),
{
    if es.len() > 0 {
        lemma_next_keys_distinct(p, es.drop_last());
    }
}

/// The class of a type lists each of its impl blocks once: the impl
/// blocks of a type have distinct identities, and each is for that type.
pub proof fn lemma_impls_of_distinct(rs: Seq<ImplRef>, key: u64)
    ensures
        forall|i: int, j: int|
            0 <= i < j < impls_of(rs, key).len() ==> #[trigger] impls_of(rs, key)[i].id != #[trigger] impls_of(rs, key)[j].id,
        forall|i: int| 0 <= i < impls_of(rs, key).len() ==> (#[trigger] impls_of(rs, key)[i]).self_adt == Some(key),
    decreases rs.len(),
{
    if rs.len() > 0 {
        lemma_impls_of_distinct(rs.drop_last(), key);
        let prev = impls_of(rs.drop_last(), key);
        if rs.last().self_adt == Some(key) && !has_id(prev, rs.last().id) {
            assert forall|i: int| 0 <= i < prev.len() implies prev[i].id != rs.last().id by {
                if prev[i].id == rs.last().id {
                    assert(has_id(prev, rs.last().id));
                }
            }
        }
    }
}

/// Whether the items of `d` can be written: each path is not empty and
/// each module on it is known, with the modules its class name depends on;
/// no function among the items is translated (that would write its
/// signature, which stops the generator); and each impl block that the
/// items bring can be written.
pub open spec fn deferred_ok(d: DeferredFacts) -> bool {
    &&& forall|i: int| 0 <= i < d.entries@.len() ==> (#[trigger] d.entries@[i]).path@.len() > 0
    &&& forall|i: int, j: int|
        0 <= i < d.entries@.len() && 0 <= j < d.entries@[i].path@.len() ==> {
            &&& lookup(d.modules@, #[trigger] d.entries@[i].path@[j]) is Some
            &&& module_chain_ok(lookup(d.modules@, d.entries@[i].path@[j]).unwrap())
        }
    &&& forall|i: int|
        0 <= i < d.entries@.len() ==> match (#[trigger] d.entries@[i]).item {
            DeferredItem::Function(c) => !emitted(c),
            _ => true,
        }
    &&& forall|k: int| 0 <= k < all_impls(d.entries@).len() ==> impl_emittable(#[trigger] all_impls(d.entries@)[k].facts)
}

/// Whether `p` starts the path of an entry of `es`.
pub open spec fn starts_entry(p: Seq<u64>, es: Seq<DeferredEntry>) -> bool {
    exists|i: int| 0 <= i < es.len() && #[trigger] es[i].path@.len() >= p.len() && es[i].path@.take(p.len() as int) == p
}

/// The impl blocks that `v` refers to.
pub open spec fn ref_values<'a>(v: Seq<&'a ImplRef>) -> Seq<ImplRef> {
    v.map_values(|r: &'a ImplRef| *r)
}

proof fn lemma_max_depth(es: Seq<DeferredEntry>, i: int)
    requires
        0 <= i < es.len(),
    ensures
        es[i].path@.len() <= max_depth(es),
    decreases es.len(),
{
    if i < es.len() - 1 {
        lemma_max_depth(es.drop_last(), i);
    }
}

proof fn lemma_next_keys_sound(p: Seq<u64>, es: Seq<DeferredEntry>, k: int)
    requires
        0 <= k < next_keys(p, es).len(),
    ensures
        exists|i: int|
            0 <= i < es.len() && extends(#[trigger] es[i].path@, p) && es[i].path@[p.len() as int] == next_keys(p, es)[k],
    decreases es.len(),
{
    let prev = next_keys(p, es.drop_last());
    if k < prev.len() {
        lemma_next_keys_sound(p, es.drop_last(), k);
        let i = choose|i: int|
            0 <= i < es.drop_last().len() && extends(#[trigger] es.drop_last()[i].path@, p)
                && es.drop_last()[i].path@[p.len() as int] == prev[k];
        assert(es[i] == es.drop_last()[i]);
    } else {
        let i = es.len() - 1;
        assert(extends(es[i].path@, p));
    }
}

proof fn lemma_impls_of_from(rs: Seq<ImplRef>, key: u64, k: int)
    requires
        0 <= k < impls_of(rs, key).len(),
    ensures
        exists|j: int| 0 <= j < rs.len() && #[trigger] rs[j] == impls_of(rs, key)[k],
    decreases rs.len(),
{
    let prev = impls_of(rs.drop_last(), key);
    if k < prev.len() {
        lemma_impls_of_from(rs.drop_last(), key, k);
        let j = choose|j: int| 0 <= j < rs.drop_last().len() && #[trigger] rs.drop_last()[j] == prev[k];
        assert(rs[j] == rs.drop_last()[j]);
    } else {
        assert(rs[rs.len() - 1] == impls_of(rs, key)[k]);
    }
}

/// The length of the longest path of `es`.
fn max_path_len(es: &Vec<DeferredEntry>) -> (r: usize)
    ensures
        r == max_depth(es@),
{
    let mut m: usize = 0;
    let mut i: usize = 0;
    while i < es.len()
        invariant
            i <= es@.len(),
            m == max_depth(es@.take(i as int)),
        decreases es@.len() - i,
    {
        assert(es@.take(i + 1).drop_last() =~= es@.take(i as int));
        if es[i].path.len() > m {
            m = es[i].path.len();
        }
        i = i + 1;
    }
    assert(es@.take(i as int) =~= es@);
    m
}

/// Whether two paths are the same.
fn same_path(q: &Vec<u64>, p: &Vec<u64>) -> (r: bool)
    ensures
        r == (q@ == p@),
{
    if q.len() != p.len() {
        return false;
    }
    let mut j: usize = 0;
    while j < p.len()
        invariant
            j <= p@.len(),
            q@.len() == p@.len(),
            forall|k: int| 0 <= k < j ==> q@[k] == p@[k],
        decreases p@.len() - j,
    {
        if q[j] != p[j] {
            return false;
        }
        j = j + 1;
    }
    assert(q@ =~= p@);
    true
}

/// Whether `q` lies strictly below `p`.
fn path_extends(q: &Vec<u64>, p: &Vec<u64>) -> (r: bool)
    ensures
        r == extends(q@, p@),
{
    if q.len() <= p.len() {
        return false;
    }
    let mut j: usize = 0;
    while j < p.len()
        invariant
            j <= p@.len(),
            q@.len() > p@.len(),
            forall|k: int| 0 <= k < j ==> q@[k] == p@[k],
        decreases p@.len() - j,
    {
        if q[j] != p[j] {
            assert(q@.take(p@.len() as int)[j as int] != p@[j as int]);
            return false;
        }
        j = j + 1;
    }
    assert(q@.take(p@.len() as int) =~= p@);
    true
}

/// Whether `k` is among `v`.
fn contains_key(v: &Vec<u64>, k: u64) -> (r: bool)
    ensures
        r == v@.contains(k),
{
    let mut j: usize = 0;
    while j < v.len()
        invariant
            j <= v@.len(),
            forall|i: int| 0 <= i < j ==> v@[i] != k,
        decreases v@.len() - j,
    {
        if v[j] == k {
            assert(v@[j as int] == k);
            return true;
        }
        j = j + 1;
    }
    false
}

/// The keys of the modules right below `p` that hold items of `es`.
fn next_keys_of(p: &Vec<u64>, es: &Vec<DeferredEntry>) -> (r: Vec<u64>)
    ensures
        r@ == next_keys(p@, es@),
{
    let mut r: Vec<u64> = Vec::new();
    let mut i: usize = 0;
    while i < es.len()
        invariant
            i <= es@.len(),
            r@ == next_keys(p@, es@.take(i as int)),
        decreases es@.len() - i,
    {
        assert(es@.take(i + 1).drop_last() =~= es@.take(i as int));
        let q = &es[i].path;
        if path_extends(q, p) {
            let k = q[p.len()];
            if !contains_key(&r, k) {
                r.push(k);
            }
        }
        i = i + 1;
    }
    assert(es@.take(i as int) =~= es@);
    r
}

/// The impl blocks that `es` bring, in order.
fn collect_impls<'a>(es: &'a Vec<DeferredEntry>) -> (r: Vec<&'a ImplRef>)
    ensures
        ref_values(r@) == all_impls(es@),
{
    let mut r: Vec<&'a ImplRef> = Vec::new();
    let mut i: usize = 0;
    assert(ref_values(r@) =~= all_impls(es@.take(0)));
    while i < es.len()
        invariant
            i <= es@.len(),
            ref_values(r@) =~= all_impls(es@.take(i as int)),
        decreases es@.len() - i,
    {
        let ghost before = ref_values(r@);
        assert(es@.take(i + 1).drop_last() =~= es@.take(i as int));
        match &es[i].item {
            DeferredItem::Impl(x) => {
                r.push(x);
            },
            DeferredItem::Adt { module_impls, .. } => {
                let mut j: usize = 0;
                while j < module_impls.len()
                    invariant
                        j <= module_impls@.len(),
                        ref_values(r@) =~= before + module_impls@.take(j as int),
                    decreases module_impls@.len() - j,
                {
                    let ghost old_r = r@;
                    r.push(&module_impls[j]);
                    assert(ref_values(r@) =~= ref_values(old_r).push(module_impls@[j as int]));
                    assert(module_impls@.take(j + 1) =~= module_impls@.take(j as int).push(module_impls@[j as int]));
                    j = j + 1;
                }
                assert(module_impls@.take(j as int) =~= module_impls@);
            },
            DeferredItem::Function(_) => {},
        }
        assert(ref_values(r@) =~= before + entry_impls(es@[i as int]));
        i = i + 1;
    }
    assert(es@.take(i as int) =~= es@);
    r
}

/// The impl blocks among `all` for the type with key `key`, each once.
fn impls_for<'a>(all: &Vec<&'a ImplRef>, key: u64) -> (r: Vec<&'a ImplFacts>)
    ensures
        impl_values(r@) == ref_facts(impls_of(ref_values(all@), key)),
{
    let ghost rs = ref_values(all@);
    let mut sel: Vec<&'a ImplRef> = Vec::new();
    let mut i: usize = 0;
    assert(ref_values(sel@) =~= impls_of(rs.take(0), key));
    while i < all.len()
        invariant
            i <= all@.len(),
            rs == ref_values(all@),
            ref_values(sel@) =~= impls_of(rs.take(i as int), key),
        decreases all@.len() - i,
    {
        assert(rs.take(i + 1).drop_last() =~= rs.take(i as int));
        let x = all[i];
        let mut seen = false;
        let mut j: usize = 0;
        while j < sel.len()
            invariant
                j <= sel@.len(),
                seen == (exists|k: int| 0 <= k < j && (#[trigger] ref_values(sel@)[k]).id == x.id),
            decreases sel@.len() - j,
        {
            assert(ref_values(sel@)[j as int] == *sel@[j as int]);
            if sel[j].id == x.id {
                seen = true;
            }
            j = j + 1;
        }
        assert(seen == has_id(ref_values(sel@), x.id));
        if x.self_adt == Some(key) && !seen {
            sel.push(x);
        }
        i = i + 1;
    }
    assert(rs.take(i as int) =~= rs);
    let mut r: Vec<&'a ImplFacts> = Vec::new();
    let mut k: usize = 0;
    while k < sel.len()
        invariant
            k <= sel@.len(),
            impl_values(r@) =~= ref_facts(ref_values(sel@)).take(k as int),
        decreases sel@.len() - k,
    {
        let ghost old_r = r@;
        r.push(&sel[k].facts);
        assert(impl_values(r@) =~= impl_values(old_r).push(sel@[k as int].facts));
        assert(ref_facts(ref_values(sel@))[k as int] == sel@[k as int].facts);
        k = k + 1;
    }
    assert(ref_facts(ref_values(sel@)).take(k as int) =~= ref_facts(ref_values(sel@)));
    r
}

/// `p` with `k` added at the end.
fn extend_path(p: &Vec<u64>, k: u64) -> (q: Vec<u64>)
    ensures
        q@ == p@.push(k),
{
    let mut q: Vec<u64> = Vec::new();
    let mut j: usize = 0;
    while j < p.len()
        invariant
            j <= p@.len(),
            q@ =~= p@.take(j as int),
        decreases p@.len() - j,
    {
        q.push(p[j]);
        j = j + 1;
    }
    q.push(k);
    assert(q@ =~= p@.push(k));
    q
}

/// Appends item `item` of `d`; `all` is every impl block that the items of
/// `d` bring.
fn emit_item(out: &mut Code, item: &DeferredItem, d: &DeferredFacts, all: &Vec<&ImplRef>)
    requires
        deferred_ok(*d),
        ref_values(all@) == all_impls(d.entries@),
        old(out)@.indent + 3 < usize::MAX,
    ensures
        final(out)@ == item_state(old(out)@, *item, *d),
        final(out)@.indent == old(out)@.indent,
        at_line_boundary(old(out)@.buf) ==> at_line_boundary(final(out)@.buf),
{
    match item {
        DeferredItem::Adt { key, facts, .. } => {
            let impls = impls_for(all, *key);
            proof {
                let rs = all_impls(d.entries@);
                let sel = impls_of(rs, *key);
                assert forall|k: int| 0 <= k < impl_values(impls@).len() implies impl_emittable(
                    #[trigger] impl_values(impls@)[k],
                ) by {
                    lemma_impls_of_from(rs, *key, k);
                    let j = choose|j: int| 0 <= j < rs.len() && #[trigger] rs[j] == sel[k];
                    assert(impl_emittable(rs[j].facts));
                    assert(impl_values(impls@)[k] == ref_facts(sel)[k]);
                }
            }
            emit_adt_with_impls(out, facts, &impls);
        },
        _ => {},
    }
}

/// Appends the class of the module at path `p` (see `block_state`); `m`
/// is the length of the longest path.
fn emit_block(out: &mut Code, p: &Vec<u64>, root: bool, d: &DeferredFacts, all: &Vec<&ImplRef>, m: usize)
    requires
        deferred_ok(*d),
        ref_values(all@) == all_impls(d.entries@),
        m == max_depth(d.entries@),
        p@.len() > 0,
        starts_entry(p@, d.entries@),
        old(out)@.indent + (m - p@.len()) + 4 < usize::MAX,
    ensures
        final(out)@ == block_state(old(out)@, p@, root, *d),
        final(out)@.indent == old(out)@.indent,
        at_line_boundary(final(out)@.buf),
    decreases max_depth(d.entries@) - p@.len(), 1nat, 0nat,
{
    let ghost start = old(out)@;
    let ghost w = choose|i: int|
        0 <= i < d.entries@.len() && #[trigger] d.entries@[i].path@.len() >= p@.len()
            && d.entries@[i].path@.take(p@.len() as int) == p@;
    proof {
        lemma_max_depth(d.entries@, w);
        assert(p@.last() == d.entries@[w].path@[p@.len() - 1]);
    }
    let key = p[p.len() - 1];
    let module = find(&d.modules, key);
    let name = match module {
        Some(mf) => mod_simple_name(mf),
        None => {
            proof {
                assert(false);
            }
            String::new()
        },
    };
    if root {
        out.w("private");
    } else {
        out.w("public");
    }
    out.w(" static partial class ").w(&name).wln(" {");
    let ghost s0 = out@.buf;
    proof {
        reveal_strlit("\n");
        assert(s0 =~= start.buf + block_head_text(key, root, *d));
        lemma_ends_newline(start.buf, block_head_text(key, root, *d));
        lemma_mark_keeps(s0, inc_indent());
        assert(s0 + seq![inc_indent()] =~= s0.push(inc_indent()));
    }
    out.indent();
    let ghost st0 = out@;
    let mut i: usize = 0;
    while i < d.entries.len()
        invariant
            i <= d.entries@.len(),
            deferred_ok(*d),
            ref_values(all@) == all_impls(d.entries@),
            out@ == block_items_state(st0, p@, *d, i as nat),
            out@.indent == st0.indent,
            st0.indent + 3 < usize::MAX,
            at_line_boundary(out@.buf),
        decreases d.entries@.len() - i,
    {
        if same_path(&d.entries[i].path, p) {
            emit_item(out, &d.entries[i].item, d, all);
        }
        i = i + 1;
    }
    let ks = next_keys_of(p, &d.entries);
    emit_blocks(out, p, &ks, false, d, all, m);
    out.dedent();
    out.wln("}");
    proof {
        reveal_strlit("}");
        let st2 = blocks_state(block_items_state(st0, p@, *d, d.entries@.len()), p@, ks@, false, *d);
        assert(out@.buf =~= st2.buf + seq![dec_indent()] + ("}"@ + "\n"@));
        lemma_ends_newline(st2.buf + seq![dec_indent()], "}"@ + "\n"@);
        assert(st2.buf + seq![dec_indent()] + ("}"@ + "\n"@) =~= st2.buf + seq![dec_indent()] + ("}"@ + "\n"@));
    }
}

/// Appends the classes of the modules `ks` right below `p` (see
/// `blocks_state`).
fn emit_blocks(
    out: &mut Code,
    p: &Vec<u64>,
    ks: &Vec<u64>,
    root: bool,
    d: &DeferredFacts,
    all: &Vec<&ImplRef>,
    m: usize,
)
    requires
        deferred_ok(*d),
        ref_values(all@) == all_impls(d.entries@),
        m == max_depth(d.entries@),
        ks@ == next_keys(p@, d.entries@),
        old(out)@.indent + (m - p@.len()) + 3 < usize::MAX,
    ensures
        final(out)@ == blocks_state(old(out)@, p@, ks@, root, *d),
        final(out)@.indent == old(out)@.indent,
        at_line_boundary(old(out)@.buf) ==> at_line_boundary(final(out)@.buf),
    decreases max_depth(d.entries@) - p@.len(), 0nat, ks@.len(),
{
    let ghost start = old(out)@;
    if p.len() >= m {
        return;
    }
    assert(ks@.take(0) =~= Seq::<u64>::empty());
    let mut i: usize = 0;
    while i < ks.len()
        invariant
            i <= ks@.len(),
            p@.len() < m,
            deferred_ok(*d),
            ref_values(all@) == all_impls(d.entries@),
            m == max_depth(d.entries@),
            ks@ == next_keys(p@, d.entries@),
            start.indent + (m - p@.len()) + 3 < usize::MAX,
            out@ == blocks_state(start, p@, ks@.take(i as int), root, *d),
            out@.indent == start.indent,
            i > 0 || out@ == start,
            at_line_boundary(start.buf) || i > 0 ==> at_line_boundary(out@.buf),
        decreases ks@.len() - i,
    {
        let q = extend_path(p, ks[i]);
        proof {
            lemma_next_keys_sound(p@, d.entries@, i as int);
            let w = choose|w: int|
                0 <= w < d.entries@.len() && extends(#[trigger] d.entries@[w].path@, p@)
                    && d.entries@[w].path@[p@.len() as int] == next_keys(p@, d.entries@)[i as int];
            let path = d.entries@[w].path@;
            assert(path.take(q@.len() as int) =~= q@);
            assert(starts_entry(q@, d.entries@));
            assert(ks@.take(i + 1).drop_last() =~= ks@.take(i as int));
        }
        emit_block(out, &q, root, d, all, m);
        i = i + 1;
    }
    assert(ks@.take(i as int) =~= ks@);
}

/// Appends the items declared in a function body (see `deferred_state`).
pub fn emit_deferred(out: &mut Code, d: &DeferredFacts)
    requires
        deferred_ok(*d),
        old(out)@.indent + max_depth(d.entries@) + 4 < usize::MAX,
    ensures
        final(out)@ == deferred_state(old(out)@, *d),
{
    if d.entries.len() == 0 {
        return;
    }
    out.wln("// function local items");
    let all = collect_impls(&d.entries);
    let m = max_path_len(&d.entries);
    let root_path: Vec<u64> = Vec::new();
    let ks = next_keys_of(&root_path, &d.entries);
    assert(root_path@ =~= Seq::<u64>::empty());
    emit_blocks(out, &root_path, &ks, true, d, &all, m);
}

} // verus!
