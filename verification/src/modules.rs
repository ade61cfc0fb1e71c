//! The classes of a crate: one static partial class per module, holding
//! the interfaces of its traits, its functions, the classes of its types
//! with the impls found for them across the crate, and the classes of its
//! submodules.

use vstd::prelude::*;
use crate::adt::{adt_state, emit_adt_with_impls, emitted, impl_emittable, impl_values, is_emitted, AdtFacts, CfgItemFacts, ImplFacts};
use crate::body::lemma_ends_newline;
use crate::decl::{emit_trait, trait_items_emittable, trait_text, TraitFacts};
use crate::item_exclusion::{attrs_view, is_r2cs_native, is_r2cs_native_spec, AttrFacts};
use crate::names::{mod_simple_name, mod_simple_name_spec, module_chain_ok, ModuleFacts};
use crate::output::{at_line_boundary, blank_line_spec, dec_indent, inc_indent, Code, CodeState};
use crate::text::str_equals;

verus! {

/// A declaration of a module: a trait, a constant, a function (its name,
/// and itself as an item), a type with the key its impls are found by, or a
/// submodule.
pub enum ModuleDecl {
    Trait(TraitFacts),
    Const,
    Function { name: String, item: CfgItemFacts },
    Adt { facts: AdtFacts, key: String },
    Module(ModuleTree),
}

/// A module with its declarations in order: what its class name depends
/// on, itself as an item, and its attributes.
pub struct ModuleTree {
    pub facts: ModuleFacts,
    pub item: CfgItemFacts,
    pub attrs: Option<Vec<AttrFacts>>,
    pub decls: Vec<ModuleDecl>,
}

/// The impl blocks found for the type with key `key`: those of the first
/// entry for it, none where there is none.
pub open spec fn map_lookup<'a>(map: Seq<(String, Vec<&'a ImplFacts>)>, key: Seq<char>) -> Seq<ImplFacts>
    decreases map.len(),
{
    if map.len() == 0 {
        Seq::empty()
    } else if map[0].0@ == key {
        impl_values(map[0].1@)
    } else {
        map_lookup(map.drop_first(), key)
    }
}

/// The state after the trait interfaces among the first `n` declarations.
pub open spec fn traits_state(st: CodeState, ds: Seq<ModuleDecl>, n: nat) -> CodeState
    decreases n,
{
    if n == 0 {
        st
    } else {
        let prev = traits_state(st, ds, (n - 1) as nat);
        match ds[n - 1] {
            ModuleDecl::Trait(t) => blank_line_spec(prev.push_text(trait_text(t))),
            _ => prev,
        }
    }
}

/// The state after the comments on the functions among the first `n`
/// declarations of the module whose class is `name`.
pub open spec fn fns_state(st: CodeState, ds: Seq<ModuleDecl>, name: Seq<char>, n: nat) -> CodeState
    decreases n,
{
    if n == 0 {
        st
    } else {
        let prev = fns_state(st, ds, name, (n - 1) as nat);
        match ds[n - 1] {
            ModuleDecl::Function { name: f, .. } => prev.push_text(
                "// function "@ + f@ + " in module "@ + name + "\n"@,
            ),
            _ => prev,
        }
    }
}

/// The state after the classes of the types among the first `n`
/// declarations, each with the impls that `map` holds for its key.
pub open spec fn adts_state<'a>(st: CodeState, ds: Seq<ModuleDecl>, map: Seq<(String, Vec<&'a ImplFacts>)>, n: nat) -> CodeState
    decreases n,
{
    if n == 0 {
        st
    } else {
        let prev = adts_state(st, ds, map, (n - 1) as nat);
        match ds[n - 1] {
            ModuleDecl::Adt { facts, key } => adt_state(prev, facts, map_lookup(map, key@)),
            _ => prev,
        }
    }
}

/// The state after the class of module `m`, with the impls that `map`
/// holds for its types: nothing where it is not translated; a placeholder where it is
/// native; else its class with, in this order, the interfaces of its
/// traits, comments on its functions, the classes of its types and the
/// classes of its submodules.
pub open spec fn module_state<'a>(st: CodeState, m: ModuleTree, map: Seq<(String, Vec<&'a ImplFacts>)>) -> CodeState
    decreases m, 1nat, 0nat,
{
    let name = mod_simple_name_spec(m.facts);
    let ds = m.decls@;
    if !emitted(m.item) {
        st
    } else if is_r2cs_native_spec(attrs_view(m.attrs)) {
        st.push_text(
            "// r2cs native, manual implementation expected"@ + "\n"@ + "public static partial class "@ + name + " {}"@
                + "\n"@,
        )
    } else {
        let st0 = CodeState {
            buf: st.buf + "public static partial class "@ + name + " "@ + "{\n"@ + seq![inc_indent()],
            indent: st.indent + 1,
        };
        let st1 = traits_state(st0, ds, ds.len());
        let st2 = fns_state(st1, ds, name, ds.len());
        let st3 = adts_state(st2, ds, map, ds.len());
        let st4 = submodules_state(st3, m, map, ds.len());
        CodeState {
            buf: st4.buf + seq![dec_indent()] + "}\n"@,
            indent: if st4.indent > 0 { (st4.indent - 1) as nat } else { 0 },
        }
    }
}

/// The state after the classes of the submodules among the first `n`
/// declarations of `m`.
pub open spec fn submodules_state<'a>(st: CodeState, m: ModuleTree, map: Seq<(String, Vec<&'a ImplFacts>)>, n: nat) -> CodeState
    decreases m, 0nat, n,
{
    if n == 0 || n > m.decls@.len() {
        st
    } else {
        let prev = submodules_state(st, m, map, (n - 1) as nat);
        match m.decls@[n - 1] {
            ModuleDecl::Module(sub) => {
                proof {
                    assert(decreases_to!(m => m.decls));
                    vstd::std_specs::vec::axiom_vec_decreases_to_view(m.decls);
                    vstd::seq::axiom_seq_index_decreases(m.decls@, n - 1);
                }
                module_state(prev, sub, map)
            },
            _ => prev,
        }
    }
}

/// The nesting depth of module `m`: one more than its deepest submodule.
pub open spec fn module_depth(m: ModuleTree) -> nat
    decreases m, 1nat, 0nat,
{
    1 + submodules_depth(m, m.decls@.len())
}

/// The greatest depth among the submodules in the first `n` declarations
/// of `m`.
pub open spec fn submodules_depth(m: ModuleTree, n: nat) -> nat
    decreases m, 0nat, n,
{
    if n == 0 || n > m.decls@.len() {
        0
    } else {
        let prev = submodules_depth(m, (n - 1) as nat);
        match m.decls@[n - 1] {
            ModuleDecl::Module(sub) => {
                proof {
                    vstd::std_specs::vec::axiom_vec_decreases_to_view(m.decls);
                    vstd::seq::axiom_seq_index_decreases(m.decls@, n - 1);
                }
                let d = module_depth(sub);
                if d > prev { d } else { prev }
            },
            _ => prev,
        }
    }
}

/// Whether the class of module `m` can be written: where it is translated,
/// its class name can be computed, and unless it is native, each of its
/// declarations can be written: a trait whose interface holds no function
/// signature, no constant (constants of modules are not supported), no
/// translated function (that would write its signature, which stops the
/// generator), and submodules that can be written.
pub open spec fn module_ok(m: ModuleTree) -> bool
    decreases m, 1nat, 0nat,
{
    !emitted(m.item) || (module_chain_ok(m.facts) && (is_r2cs_native_spec(attrs_view(m.attrs)) || decls_ok(
        m,
        m.decls@.len(),
    )))
}

/// Whether the first `n` declarations of `m` can be written.
pub open spec fn decls_ok(m: ModuleTree, n: nat) -> bool
    decreases m, 0nat, n,
{
    if n == 0 || n > m.decls@.len() {
        true
    } else {
        decls_ok(m, (n - 1) as nat) && match m.decls@[n - 1] {
            ModuleDecl::Trait(t) => trait_items_emittable(t.items@),
            ModuleDecl::Const => false,
            ModuleDecl::Function { item, .. } => !emitted(item),
            ModuleDecl::Adt { .. } => true,
            ModuleDecl::Module(sub) => {
                proof {
                    vstd::std_specs::vec::axiom_vec_decreases_to_view(m.decls);
                    vstd::seq::axiom_seq_index_decreases(m.decls@, n - 1);
                }
                module_ok(sub)
            },
        }
    }
}

/// Whether the members of every impl block in `map` can be written.
pub open spec fn map_ok<'a>(map: Seq<(String, Vec<&'a ImplFacts>)>) -> bool {
    forall|i: int, j: int|
        0 <= i < map.len() && 0 <= j < map[i].1@.len() ==> impl_emittable(*#[trigger] map[i].1@[j])
}

proof fn lemma_map_lookup_ok<'a>(map: Seq<(String, Vec<&'a ImplFacts>)>, key: Seq<char>)
    requires
        map_ok(map),
    ensures
        forall|k: int| 0 <= k < map_lookup(map, key).len() ==> impl_emittable(#[trigger] map_lookup(map, key)[k]),
    decreases map.len(),
{
    if map.len() > 0 && map[0].0@ != key {
        assert(map_lookup(map, key) == map_lookup(map.drop_first(), key));
        assert forall|i: int, j: int|
            0 <= i < map.drop_first().len() && 0 <= j < map.drop_first()[i].1@.len() implies impl_emittable(
            *#[trigger] map.drop_first()[i].1@[j],
        ) by {
            assert(map.drop_first()[i] == map[i + 1]);
        }
        lemma_map_lookup_ok(map.drop_first(), key);
    } else if map.len() > 0 {
        assert forall|k: int| 0 <= k < map_lookup(map, key).len() implies impl_emittable(
            #[trigger] map_lookup(map, key)[k],
        ) by {
            assert(map_lookup(map, key)[k] == *map[0].1@[k]);
            assert(impl_emittable(*map[0].1@[k]));
        }
    }
}

/// The impl blocks that `map` holds for `key`.
fn lookup_impls<'a, 'b>(map: &'b Vec<(String, Vec<&'a ImplFacts>)>, key: &str) -> (r: Option<&'b Vec<&'a ImplFacts>>)
    ensures
        match r {
            Some(v) => impl_values(v@) == map_lookup(map@, key@),
            None => map_lookup(map@, key@) == Seq::<ImplFacts>::empty(),
        },
{
    let mut i: usize = 0;
    assert(map@.skip(0) =~= map@);
    while i < map.len()
        invariant
            i <= map@.len(),
            map_lookup(map@, key@) == map_lookup(map@.skip(i as int), key@),
        decreases map@.len() - i,
    {
        assert(map@.skip(i as int).drop_first() =~= map@.skip(i + 1));
        assert(map@.skip(i as int)[0] == map@[i as int]);
        if str_equals(map[i].0.as_str(), key) {
            return Some(&map[i].1);
        }
        i = i + 1;
    }
    None
}

/// Appends the interfaces of the traits among `ds`.
fn emit_traits(out: &mut Code, ds: &Vec<ModuleDecl>)
    requires
        forall|i: int| 0 <= i < ds@.len() ==> (#[trigger] ds@[i] matches ModuleDecl::Trait(t) ==> trait_items_emittable(t.items@)),
        old(out)@.indent + 1 < usize::MAX,
    ensures
        final(out)@ == traits_state(old(out)@, ds@, ds@.len()),
        final(out)@.indent == old(out)@.indent,
        at_line_boundary(old(out)@.buf) ==> at_line_boundary(final(out)@.buf),
{
    let ghost start = old(out)@;
    let mut i: usize = 0;
    while i < ds.len()
        invariant
            i <= ds@.len(),
            forall|k: int| 0 <= k < ds@.len() ==> (#[trigger] ds@[k] matches ModuleDecl::Trait(t) ==> trait_items_emittable(t.items@)),
            out@ == traits_state(start, ds@, i as nat),
            out@.indent == start.indent,
            start.indent + 1 < usize::MAX,
            at_line_boundary(start.buf) ==> at_line_boundary(out@.buf),
        decreases ds@.len() - i,
    {
        match &ds[i] {
            ModuleDecl::Trait(t) => {
                assert(ds@[i as int] matches ModuleDecl::Trait(t2) && trait_items_emittable(t2.items@));
                emit_trait(out, t);
            },
            _ => {},
        }
        i = i + 1;
    }
}

/// Appends a comment for each function among `ds` of the module whose
/// class is `name`.
fn emit_fn_comments(out: &mut Code, ds: &Vec<ModuleDecl>, name: &str)
    ensures
        final(out)@ == fns_state(old(out)@, ds@, name@, ds@.len()),
        final(out)@.indent == old(out)@.indent,
        at_line_boundary(old(out)@.buf) ==> at_line_boundary(final(out)@.buf),
{
    let ghost start = old(out)@;
    let mut i: usize = 0;
    while i < ds.len()
        invariant
            i <= ds@.len(),
            out@ == fns_state(start, ds@, name@, i as nat),
            out@.indent == start.indent,
            at_line_boundary(start.buf) ==> at_line_boundary(out@.buf),
        decreases ds@.len() - i,
    {
        match &ds[i] {
            ModuleDecl::Function { name: f, .. } => {
                let ghost before = out@;
                out.w("// function ").w(f).w(" in module ").w(name).w("\n");
                assert(out@.buf =~= before.buf + ("// function "@ + f@ + " in module "@ + name@ + "\n"@));
                proof {
                    reveal_strlit("\n");
                    lemma_ends_newline(before.buf, "// function "@ + f@ + " in module "@ + name@ + "\n"@);
                }
            },
            _ => {},
        }
        i = i + 1;
    }
}

/// Appends the classes of the types among `ds` with the impls that `map`
/// holds for them.
fn emit_adts<'a>(out: &mut Code, ds: &Vec<ModuleDecl>, map: &Vec<(String, Vec<&'a ImplFacts>)>)
    requires
        map_ok(map@),
        old(out)@.indent + 3 < usize::MAX,
    ensures
        final(out)@ == adts_state(old(out)@, ds@, map@, ds@.len()),
        final(out)@.indent == old(out)@.indent,
        at_line_boundary(old(out)@.buf) ==> at_line_boundary(final(out)@.buf),
{
    let ghost start = old(out)@;
    let empty: Vec<&'a ImplFacts> = Vec::new();
    let mut i: usize = 0;
    while i < ds.len()
        invariant
            i <= ds@.len(),
            map_ok(map@),
            empty@.len() == 0,
            out@ == adts_state(start, ds@, map@, i as nat),
            out@.indent == start.indent,
            start.indent + 3 < usize::MAX,
            at_line_boundary(start.buf) ==> at_line_boundary(out@.buf),
        decreases ds@.len() - i,
    {
        match &ds[i] {
            ModuleDecl::Adt { facts, key } => {
                let impls = match lookup_impls(map, key.as_str()) {
                    Some(v) => v,
                    None => {
                        assert(impl_values(empty@) =~= Seq::<ImplFacts>::empty());
                        &empty
                    },
                };
                proof {
                    lemma_map_lookup_ok(map@, key@);
                }
                emit_adt_with_impls(out, facts, impls);
            },
            _ => {},
        }
        i = i + 1;
    }
}

/// Appends the class of module `m`, with the impls that `map` holds for
/// its types (see `module_state`).
pub fn emit_module<'a>(out: &mut Code, m: &ModuleTree, map: &Vec<(String, Vec<&'a ImplFacts>)>)
    requires
        module_ok(*m),
        map_ok(map@),
        old(out)@.indent + module_depth(*m) + 3 < usize::MAX,
    ensures
        final(out)@ == module_state(old(out)@, *m, map@),
        final(out)@.indent == old(out)@.indent,
        at_line_boundary(old(out)@.buf) ==> at_line_boundary(final(out)@.buf),
    decreases m,
{
    let ghost start = old(out)@;
    if !is_emitted(&m.item) {
        return;
    }
    let name = mod_simple_name(&m.facts);
    if is_r2cs_native(&m.attrs) {
        out.wln("// r2cs native, manual implementation expected");
        out.w("public static partial class ").w(&name).wln(" {}");
        assert(out@.buf =~= start.buf + ("// r2cs native, manual implementation expected"@ + "\n"@
            + "public static partial class "@ + name@ + " {}"@ + "\n"@));
        proof {
            reveal_strlit("\n");
            lemma_ends_newline(start.buf, "// r2cs native, manual implementation expected"@ + "\n"@
                + "public static partial class "@ + name@ + " {}"@ + "\n"@);
        }
        return;
    }
    out.w("public static partial class ").w(&name).w(" ");
    let ghost pre = out@.buf;
    out.open_brace();
    let ghost st0 = out@;
    proof {
        crate::decl::lemma_open_brace_boundary(pre);
    }
    assert(st0.buf =~= start.buf + "public static partial class "@ + name@ + " "@ + "{\n"@ + seq![inc_indent()]);
    proof {
        assert forall|i: int| 0 <= i < m.decls@.len() implies (#[trigger] m.decls@[i] matches ModuleDecl::Trait(t)
            ==> trait_items_emittable(t.items@)) by {
            lemma_decls_ok_at(*m, m.decls@.len(), i);
        }
    }
    emit_traits(out, &m.decls);
    emit_fn_comments(out, &m.decls, name.as_str());
    emit_adts(out, &m.decls, map);
    let ghost st3 = out@;
    let mut i: usize = 0;
    while i < m.decls.len()
        invariant
            i <= m.decls@.len(),
            module_ok(*m),
            emitted(m.item),
            !is_r2cs_native_spec(attrs_view(m.attrs)),
            map_ok(map@),
            out@ == submodules_state(st3, *m, map@, i as nat),
            out@.indent == start.indent + 1,
            at_line_boundary(out@.buf),
            start.indent + module_depth(*m) + 3 < usize::MAX,
        decreases m.decls@.len() - i,
    {
        match &m.decls[i] {
            ModuleDecl::Module(sub) => {
                proof {
                    vstd::std_specs::vec::axiom_vec_decreases_to_view(m.decls);
                    vstd::seq::axiom_seq_index_decreases(m.decls@, i as int);
                    lemma_decls_ok_at(*m, m.decls@.len(), i as int);
                    lemma_depth_at(*m, m.decls@.len(), i as int);
                }
                emit_module(out, sub, map);
            },
            _ => {},
        }
        i = i + 1;
    }
    let ghost st4 = out@;
    out.dedent();
    out.wln("}");
    proof {
        reveal_strlit("}");
        reveal_strlit("\n");
        reveal_strlit("}\n");
        assert(out@.buf =~= st4.buf + seq![dec_indent()] + "}\n"@);
        let name_spec = mod_simple_name_spec(m.facts);
        let spec0 = CodeState {
            buf: start.buf + "public static partial class "@ + name_spec + " "@ + "{\n"@ + seq![inc_indent()],
            indent: start.indent + 1,
        };
        assert(st0 == spec0);
        assert(st4 == submodules_state(
            adts_state(fns_state(traits_state(spec0, m.decls@, m.decls@.len()), m.decls@, name_spec, m.decls@.len()), m.decls@, map@, m.decls@.len()),
            *m,
            map@,
            m.decls@.len(),
        ));
    }
}

proof fn lemma_decls_ok_at(m: ModuleTree, n: nat, i: int)
    requires
        decls_ok(m, n),
        0 <= i < n <= m.decls@.len(),
    ensures
        match m.decls@[i] {
            ModuleDecl::Trait(t) => trait_items_emittable(t.items@),
            ModuleDecl::Const => false,
            ModuleDecl::Function { item, .. } => !emitted(item),
            ModuleDecl::Adt { .. } => true,
            ModuleDecl::Module(sub) => module_ok(sub),
        },
    decreases n,
{
    if i < n - 1 {
        lemma_decls_ok_at(m, (n - 1) as nat, i);
    }
}

proof fn lemma_depth_at(m: ModuleTree, n: nat, i: int)
    requires
        0 <= i < n <= m.decls@.len(),
    ensures
        m.decls@[i] matches ModuleDecl::Module(sub) ==> module_depth(sub) <= submodules_depth(m, n),
    decreases n,
{
    if i < n - 1 {
        lemma_depth_at(m, (n - 1) as nat, i);
    }
}

/// An impl block of a module: the key of the type it is for, where that
/// is a struct, enum or union, and its facts.
pub struct ImplEntry {
    pub adt_key: Option<String>,
    pub facts: ImplFacts,
}

/// A module of the crate, as an item, with its impl blocks.
pub struct ModuleImpls {
    pub module_item: CfgItemFacts,
    pub impls: Vec<ImplEntry>,
}

/// The translated impl blocks among `es` for the type with key `key`.
pub open spec fn entries_for(es: Seq<ImplEntry>, key: Seq<char>) -> Seq<ImplFacts>
    decreases es.len(),
{
    if es.len() == 0 {
        Seq::empty()
    } else {
        entries_for(es.drop_last(), key) + (if emitted(es.last().facts.impl_item) && (es.last().adt_key matches Some(
            k,
        ) && k@ == key) {
            seq![es.last().facts]
        } else {
            Seq::empty()
        })
    }
}

/// The impl blocks found for the type with key `key` across the modules
/// `ms`: in order, the translated ones of the translated modules.
pub open spec fn crate_impls(ms: Seq<ModuleImpls>, key: Seq<char>) -> Seq<ImplFacts>
    decreases ms.len(),
{
    if ms.len() == 0 {
        Seq::empty()
    } else {
        crate_impls(ms.drop_last(), key) + (if emitted(ms.last().module_item) {
            entries_for(ms.last().impls@, key)
        } else {
            Seq::empty()
        })
    }
}

/// Whether the members of every impl block of the crate can be written.
pub open spec fn crate_impls_ok(ms: Seq<ModuleImpls>) -> bool {
    forall|i: int, j: int|
        0 <= i < ms.len() && 0 <= j < ms[i].impls@.len() ==> impl_emittable(#[trigger] ms[i].impls@[j].facts)
}

/// Whether the keys of `map` are distinct.
pub open spec fn distinct_keys<'a>(map: Seq<(String, Vec<&'a ImplFacts>)>) -> bool {
    forall|i: int, j: int| 0 <= i < j < map.len() ==> map[i].0@ != map[j].0@
}

/// With distinct keys, the lookup of a key is the entry that has it.
proof fn lemma_lookup_at<'a>(map: Seq<(String, Vec<&'a ImplFacts>)>, j: int)
    requires
        distinct_keys(map),
        0 <= j < map.len(),
    ensures
        map_lookup(map, map[j].0@) == impl_values(map[j].1@),
    decreases j,
{
    if j > 0 {
        assert(map[0].0@ != map[j].0@);
        assert forall|a: int, b: int| 0 <= a < b < map.drop_first().len() implies map.drop_first()[a].0@
            != map.drop_first()[b].0@ by {
            assert(map.drop_first()[a] == map[a + 1]);
            assert(map.drop_first()[b] == map[b + 1]);
        }
        assert(map.drop_first()[j - 1] == map[j]);
        lemma_lookup_at(map.drop_first(), j - 1);
    }
}

/// With distinct keys, a key that no entry has finds nothing.
proof fn lemma_lookup_absent<'a>(map: Seq<(String, Vec<&'a ImplFacts>)>, key: Seq<char>)
    requires
        forall|i: int| 0 <= i < map.len() ==> map[i].0@ != key,
    ensures
        map_lookup(map, key) == Seq::<ImplFacts>::empty(),
    decreases map.len(),
{
    if map.len() > 0 {
        assert forall|i: int| 0 <= i < map.drop_first().len() implies map.drop_first()[i].0@ != key by {
            assert(map.drop_first()[i] == map[i + 1]);
        }
        lemma_lookup_absent(map.drop_first(), key);
    }
}

/// With distinct keys, the lookup of `key` is the entry that has it, or
/// nothing.
proof fn lemma_lookup_cases<'a>(map: Seq<(String, Vec<&'a ImplFacts>)>, key: Seq<char>)
    requires
        distinct_keys(map),
    ensures
        (exists|j: int| 0 <= j < map.len() && map[j].0@ == key && map_lookup(map, key) == impl_values(map[j].1@))
            || ((forall|i: int| 0 <= i < map.len() ==> map[i].0@ != key) && map_lookup(map, key) == Seq::<
            ImplFacts,
        >::empty()),
{
    if exists|j: int| 0 <= j < map.len() && map[j].0@ == key {
        let j = choose|j: int| 0 <= j < map.len() && map[j].0@ == key;
        lemma_lookup_at(map, j);
    } else {
        lemma_lookup_absent(map, key);
    }
}

/// Adds `r` to the impls of key `key` in `map`.
fn add_impl<'a>(map: &mut Vec<(String, Vec<&'a ImplFacts>)>, key: &String, r: &'a ImplFacts)
    requires
        distinct_keys(old(map)@),
    ensures
        distinct_keys(final(map)@),
        forall|k: Seq<char>| #[trigger] map_lookup(final(map)@, k) == if k == key@ {
            map_lookup(old(map)@, k).push(*r)
        } else {
            map_lookup(old(map)@, k)
        },
        forall|i: int, j: int|
            0 <= i < final(map)@.len() && 0 <= j < final(map)@[i].1@.len() ==> (*#[trigger] final(map)@[i].1@[j] == *r
                || exists|a: int, b: int|
                0 <= a < old(map)@.len() && 0 <= b < old(map)@[a].1@.len() && *old(map)@[a].1@[b]
                    == *final(map)@[i].1@[j]),
{
    let ghost before = map@;
    let mut j: usize = 0;
    while j < map.len()
        invariant
            j <= map@.len(),
            map@ == before,
            before == old(map)@,
            distinct_keys(before),
            forall|i: int| 0 <= i < j ==> map@[i].0@ != key@,
        decreases map@.len() - j,
    {
        if str_equals(map[j].0.as_str(), key.as_str()) {
            let mut entry = map.remove(j);
            let ghost removed = entry;
            entry.1.push(r);
            map.insert(j, entry);
            proof {
                assert(removed == before[j as int]);
                assert(map@[j as int].0 == before[j as int].0);
                assert(map@[j as int].1@ == before[j as int].1@.push(r));
                assert forall|a: int| 0 <= a < map@.len() && a != j implies map@[a] == before[a] by {}
                assert forall|a: int, b: int| 0 <= a < b < map@.len() implies map@[a].0@ != map@[b].0@ by {
                    assert(map@[a].0@ == before[a].0@);
                    assert(map@[b].0@ == before[b].0@);
                }
                assert forall|k: Seq<char>| #[trigger] map_lookup(map@, k) == if k == key@ {
                    map_lookup(before, k).push(*r)
                } else {
                    map_lookup(before, k)
                } by {
                    lemma_lookup_cases(before, k);
                    lemma_lookup_cases(map@, k);
                    if k == key@ {
                        lemma_lookup_at(before, j as int);
                        lemma_lookup_at(map@, j as int);
                        assert(impl_values(map@[j as int].1@) =~= impl_values(before[j as int].1@).push(*r));
                    } else {
                        if exists|a: int| 0 <= a < before.len() && before[a].0@ == k {
                            let a = choose|a: int| 0 <= a < before.len() && before[a].0@ == k;
                            lemma_lookup_at(before, a);
                            lemma_lookup_at(map@, a);
                        } else {
                            assert forall|i: int| 0 <= i < map@.len() implies map@[i].0@ != k by {
                                assert(map@[i].0@ == before[i].0@);
                            }
                            lemma_lookup_absent(map@, k);
                            lemma_lookup_absent(before, k);
                        }
                    }
                }
                assert forall|a: int, b: int|
                    0 <= a < map@.len() && 0 <= b < map@[a].1@.len() implies (*#[trigger] map@[a].1@[b] == *r || exists|
                    c: int,
                    d: int,
                |
                    0 <= c < before.len() && 0 <= d < before[c].1@.len() && *before[c].1@[d] == *map@[a].1@[b]) by {
                    if a != j || b < before[j as int].1@.len() {
                        assert(*before[a].1@[b] == *map@[a].1@[b]);
                    }
                }
            }
            return;
        }
        j = j + 1;
    }
    let mut v: Vec<&'a ImplFacts> = Vec::new();
    v.push(r);
    map.push((key.clone(), v));
    proof {
        assert forall|a: int, b: int| 0 <= a < b < map@.len() implies map@[a].0@ != map@[b].0@ by {
            if b < before.len() {
                assert(map@[a] == before[a]);
                assert(map@[b] == before[b]);
            }
        }
        assert forall|k: Seq<char>| #[trigger] map_lookup(map@, k) == if k == key@ {
            map_lookup(before, k).push(*r)
        } else {
            map_lookup(before, k)
        } by {
            lemma_lookup_cases(before, k);
            if k == key@ {
                lemma_lookup_absent(before, k);
                lemma_lookup_at(map@, before.len() as int);
                assert(impl_values(map@[before.len() as int].1@) =~= seq![*r]);
                assert(Seq::<ImplFacts>::empty().push(*r) =~= seq![*r]);
            } else {
                if exists|a: int| 0 <= a < before.len() && before[a].0@ == k {
                    let a = choose|a: int| 0 <= a < before.len() && before[a].0@ == k;
                    lemma_lookup_at(before, a);
                    assert(map@[a] == before[a]);
                    lemma_lookup_at(map@, a);
                } else {
                    assert forall|i: int| 0 <= i < map@.len() implies map@[i].0@ != k by {
                        if i < before.len() {
                            assert(map@[i] == before[i]);
                        }
                    }
                    lemma_lookup_absent(map@, k);
                }
            }
        }
        assert forall|a: int, b: int|
            0 <= a < map@.len() && 0 <= b < map@[a].1@.len() implies (*#[trigger] map@[a].1@[b] == *r || exists|
            c: int,
            d: int,
        | 0 <= c < before.len() && 0 <= d < before[c].1@.len() && *before[c].1@[d] == *map@[a].1@[b]) by {
            if a < before.len() {
                assert(map@[a] == before[a]);
            }
        }
    }
}

/// The impl blocks of the crate grouped by the key of their type: each key
/// finds the impls that `crate_impls` gives for it.
pub fn collect_adt_impls<'a>(ms: &'a Vec<ModuleImpls>) -> (r: Vec<(String, Vec<&'a ImplFacts>)>)
    requires
        crate_impls_ok(ms@),
    ensures
        forall|k: Seq<char>| #[trigger] map_lookup(r@, k) == crate_impls(ms@, k),
        map_ok(r@),
{
    let mut map: Vec<(String, Vec<&'a ImplFacts>)> = Vec::new();
    let mut i: usize = 0;
    proof {
        assert forall|k: Seq<char>| #[trigger] map_lookup(map@, k) == crate_impls(ms@.take(0), k) by {
            assert(ms@.take(0) =~= Seq::<ModuleImpls>::empty());
        }
    }
    while i < ms.len()
        invariant
            i <= ms@.len(),
            crate_impls_ok(ms@),
            distinct_keys(map@),
            map_ok(map@),
            forall|k: Seq<char>| #[trigger] map_lookup(map@, k) == crate_impls(ms@.take(i as int), k),
        decreases ms@.len() - i,
    {
        let m = &ms[i];
        assert(ms@.take(i + 1).drop_last() =~= ms@.take(i as int));
        if is_emitted(&m.module_item) {
            let mut j: usize = 0;
            proof {
                assert forall|k: Seq<char>| #[trigger] map_lookup(map@, k) == crate_impls(ms@.take(i as int), k)
                    + entries_for(m.impls@.take(0), k) by {
                    assert(m.impls@.take(0) =~= Seq::<ImplEntry>::empty());
                    assert(crate_impls(ms@.take(i as int), k) + Seq::<ImplFacts>::empty() =~= crate_impls(ms@.take(i as int), k));
                }
            }
            while j < m.impls.len()
                invariant
                    i < ms@.len(),
                    j <= m.impls@.len(),
                    *m == ms@[i as int],
                    crate_impls_ok(ms@),
                    distinct_keys(map@),
                    map_ok(map@),
                    forall|k: Seq<char>| #[trigger] map_lookup(map@, k) == crate_impls(ms@.take(i as int), k)
                        + entries_for(m.impls@.take(j as int), k),
                decreases m.impls@.len() - j,
            {
                let e = &m.impls[j];
                assert(m.impls@.take(j + 1).drop_last() =~= m.impls@.take(j as int));
                let ghost before = map@;
                if is_emitted(&e.facts.impl_item) {
                    match &e.adt_key {
                        Some(key) => {
                            assert(impl_emittable(ms@[i as int].impls@[j as int].facts));
                            add_impl(&mut map, key, &e.facts);
                        },
                        None => {},
                    }
                }
                proof {
                    assert forall|k: Seq<char>| #[trigger] map_lookup(map@, k) == crate_impls(ms@.take(i as int), k)
                        + entries_for(m.impls@.take(j + 1), k) by {
                        assert(map_lookup(before, k) == crate_impls(ms@.take(i as int), k) + entries_for(m.impls@.take(j as int), k));
                        if emitted(e.facts.impl_item) && (e.adt_key matches Some(kk) && kk@ == k) {
                            assert(map_lookup(map@, k) =~= crate_impls(ms@.take(i as int), k) + entries_for(m.impls@.take(j + 1), k));
                        } else {
                            assert(entries_for(m.impls@.take(j + 1), k) =~= entries_for(m.impls@.take(j as int), k));
                        }
                    }
                }
                j = j + 1;
            }
            proof {
                assert(m.impls@.take(j as int) =~= m.impls@);
            }
        } else {
            proof {
                assert forall|k: Seq<char>| #[trigger] map_lookup(map@, k) == crate_impls(ms@.take(i + 1), k) by {
                    assert(crate_impls(ms@.take(i as int), k) + Seq::<ImplFacts>::empty() =~= crate_impls(ms@.take(i as int), k));
                }
            }
        }
        i = i + 1;
    }
    assert(ms@.take(i as int) =~= ms@);
    map
}

/// The classes of a module depend on the impl blocks only through what
/// each key finds: two groupings that find the same impls for every key
/// give the same classes.
pub proof fn lemma_module_state_lookup<'a, 'b>(
    st: CodeState,
    m: ModuleTree,
    map1: Seq<(String, Vec<&'a ImplFacts>)>,
    map2: Seq<(String, Vec<&'b ImplFacts>)>,
)
    requires
        forall|k: Seq<char>| #[trigger] map_lookup(map1, k) == map_lookup(map2, k),
    ensures
        module_state(st, m, map1) == module_state(st, m, map2),
    decreases m, 1nat, 0nat,
{
    let ds = m.decls@;
    if emitted(m.item) && !is_r2cs_native_spec(attrs_view(m.attrs)) {
        let name = mod_simple_name_spec(m.facts);
        let st0 = CodeState {
            buf: st.buf + "public static partial class "@ + name + " "@ + "{\n"@ + seq![inc_indent()],
            indent: st.indent + 1,
        };
        let st2 = fns_state(traits_state(st0, ds, ds.len()), ds, name, ds.len());
        lemma_adts_state_lookup(st2, ds, map1, map2, ds.len());
        lemma_submodules_state_lookup(adts_state(st2, ds, map1, ds.len()), m, map1, map2, ds.len());
    }
}

proof fn lemma_adts_state_lookup<'a, 'b>(
    st: CodeState,
    ds: Seq<ModuleDecl>,
    map1: Seq<(String, Vec<&'a ImplFacts>)>,
    map2: Seq<(String, Vec<&'b ImplFacts>)>,
    n: nat,
)
    requires
        forall|k: Seq<char>| #[trigger] map_lookup(map1, k) == map_lookup(map2, k),
    ensures
        adts_state(st, ds, map1, n) == adts_state(st, ds, map2, n),
    decreases n,
{
    if n > 0 {
        lemma_adts_state_lookup(st, ds, map1, map2, (n - 1) as nat);
        match ds[n - 1] {
            ModuleDecl::Adt { facts, key } => {
                assert(map_lookup(map1, key@) == map_lookup(map2, key@));
            },
            _ => {},
        }
    }
}

proof fn lemma_submodules_state_lookup<'a, 'b>(
    st: CodeState,
    m: ModuleTree,
    map1: Seq<(String, Vec<&'a ImplFacts>)>,
    map2: Seq<(String, Vec<&'b ImplFacts>)>,
    n: nat,
)
    requires
        forall|k: Seq<char>| #[trigger] map_lookup(map1, k) == map_lookup(map2, k),
    ensures
        submodules_state(st, m, map1, n) == submodules_state(st, m, map2, n),
    decreases m, 0nat, n,
{
    if n > 0 && n <= m.decls@.len() {
        lemma_submodules_state_lookup(st, m, map1, map2, (n - 1) as nat);
        match m.decls@[n - 1] {
            ModuleDecl::Module(sub) => {
                vstd::std_specs::vec::axiom_vec_decreases_to_view(m.decls);
                vstd::seq::axiom_seq_index_decreases(m.decls@, n - 1);
                lemma_module_state_lookup(submodules_state(st, m, map1, (n - 1) as nat), sub, map1, map2);
            },
            _ => {},
        }
    }
}

/// Appends the classes of the crate whose root module is `root`, with the
/// impl blocks of its modules `ms` found for the types by their keys (see
/// `crate_impls`; by `lemma_module_state_lookup`, the grouping found is
/// all that matters).
pub fn emit_crate(out: &mut Code, ms: &Vec<ModuleImpls>, root: &ModuleTree)
    requires
        crate_impls_ok(ms@),
        module_ok(*root),
        old(out)@.indent + module_depth(*root) + 3 < usize::MAX,
    ensures
        exists|map: Seq<(String, Vec<&ImplFacts>)>|
            (forall|k: Seq<char>| #[trigger] map_lookup(map, k) == crate_impls(ms@, k)) && final(out)@
                == module_state(old(out)@, *root, map),
{
    let map = collect_adt_impls(ms);
    emit_module(out, root, &map);
}

} // verus!
