//! Top-level items (functions, structs, enums, modules, inherent impls) →
//! C# declarations. Function bodies come from MIR.

use vstd::prelude::*;
use crate::mir::{body_state, compile_mir_body, lemma_body_level, ty_or_unknown, Body, Place};
use crate::names::join_with;
use crate::naming;
use crate::text::{decimal, push_decimal, push_str, to_string, views};
use crate::types::{cs_path_spec, def_id_to_cs_path, join_strings, ty_to_cs, DefPath, RustTy};
use crate::writer::{CsWriter, WriterState};

verus! {

/// What debug information says a source name stands for: a place, or
/// something else.
pub struct VarDebugInfo {
    pub name: String,
    pub place: Option<Place>,
}

/// A function (free, or a method of an inherent impl).
pub struct FnDef {
    pub name: String,
    pub param_tys: Vec<RustTy>,
    pub ret_ty: RustTy,
    pub body: Body,
    pub var_debug_info: Vec<VarDebugInfo>,
}

/// A field of a struct or enum variant.
pub struct FieldDef {
    pub name: String,
    pub ty: RustTy,
}

/// An enum variant.
pub struct VariantDef {
    pub name: String,
    pub fields: Vec<FieldDef>,
}

/// The self type of an impl: a path (with the definition it resolves to,
/// if any), or another kind of type.
pub enum ImplSelfTy {
    Path(Option<DefPath>),
    Other,
}

/// An item of an impl block.
pub enum ImplItem {
    Fn(FnDef),
    Other,
}

/// A free item of a module.
#[allow(inconsistent_fields)]
pub enum Item {
    Fn(FnDef),
    Struct { name: String, fields: Vec<FieldDef> },
    Enum { name: String, variants: Vec<VariantDef> },
    Mod { name: String, items: Vec<Item> },
    Impl { of_trait: bool, self_ty: ImplSelfTy, items: Vec<ImplItem> },
    Other,
}

/// Whether debug entry `d` names local `idx`, a parameter of a function with
/// `arg_count` parameters, with no projection.
pub open spec fn names_param(d: VarDebugInfo, idx: nat, arg_count: nat) -> bool {
    &&& 1 <= idx <= arg_count
    &&& d.place matches Some(p)
    &&& p.projection@.len() == 0
    &&& p.local == idx
}

/// The source name of parameter local `idx` among the first `n` debug
/// entries: the last entry that names it.
pub open spec fn debug_name(infos: Seq<VarDebugInfo>, n: nat, idx: nat, arg_count: nat) -> Option<Seq<char>>
    decreases n,
{
    if n == 0 || n > infos.len() {
        None
    } else if names_param(infos[n - 1], idx, arg_count) {
        Some(infos[n - 1].name@)
    } else {
        debug_name(infos, (n - 1) as nat, idx, arg_count)
    }
}

/// The C# parameter for parameter `i` (local `_<i+1>`): its type, its local
/// name, and its source name in a comment where debug information has one.
pub open spec fn param_text(f: FnDef, i: nat) -> Seq<char> {
    let idx = i + 1;
    ty_or_unknown(f.param_tys@[i as int]) + " "@ + "_"@ + decimal(idx)
        + match debug_name(f.var_debug_info@, f.var_debug_info@.len(), idx, f.body.arg_count as nat) {
            Some(n) => " /* "@ + n + " */"@,
            None => Seq::empty(),
        }
}

/// The C# parameters of `f`.
pub open spec fn params_text(f: FnDef) -> Seq<Seq<char>> {
    Seq::new(f.param_tys@.len(), |i: int| param_text(f, i as nat))
}

/// The writer after a function: its signature (`public static`, return type,
/// `m_<name>`, parameters), then its body in braces.
pub open spec fn fn_state(st: WriterState, f: FnDef) -> WriterState {
    body_state(
        st.write_line("public static "@ + ty_or_unknown(f.ret_ty) + " "@ + "m_"@ + f.name@ + "("@
            + join_with(params_text(f), ", "@) + ")"@).write_line("{"@).indent(),
        f.body,
    ).dedent().write_line("}"@)
}

/// The writer after the field lines of `fs`.
pub open spec fn fields_state(st: WriterState, fs: Seq<FieldDef>, n: nat) -> WriterState
    decreases n,
{
    if n == 0 || n > fs.len() {
        st
    } else {
        fields_state(st, fs, (n - 1) as nat).write_line(
            "public "@ + ty_or_unknown(fs[n - 1].ty) + " "@ + "f_"@ + fs[n - 1].name@ + ";"@,
        )
    }
}

/// The writer after a struct: `public struct s_<name>` with a public field
/// per Rust field.
pub open spec fn struct_state(st: WriterState, name: Seq<char>, fs: Seq<FieldDef>) -> WriterState {
    fields_state(st.write_line("public struct "@ + "s_"@ + name).write_line("{"@).indent(), fs, fs.len())
        .dedent().write_line("}"@)
}

/// The writer after the payload fields of the first `n` variants: one per
/// variant with fields.
pub open spec fn payload_fields_state(st: WriterState, cs: Seq<char>, vs: Seq<VariantDef>, n: nat) -> WriterState
    decreases n,
{
    if n == 0 || n > vs.len() {
        st
    } else {
        let prev = payload_fields_state(st, cs, vs, (n - 1) as nat);
        let v = vs[n - 1];
        if v.fields@.len() == 0 {
            prev
        } else {
            prev.write_line("public "@ + cs + "_"@ + v.name@ + " "@ + "f_"@ + v.name@ + ";"@)
        }
    }
}

/// The writer after the payload structs of the first `n` variants.
pub open spec fn payload_structs_state(st: WriterState, cs: Seq<char>, vs: Seq<VariantDef>, n: nat) -> WriterState
    decreases n,
{
    if n == 0 || n > vs.len() {
        st
    } else {
        let prev = payload_structs_state(st, cs, vs, (n - 1) as nat);
        let v = vs[n - 1];
        if v.fields@.len() == 0 {
            prev
        } else {
            fields_state(
                prev.write_line(Seq::empty()).write_line("public struct "@ + cs + "_"@ + v.name@)
                    .write_line("{"@).indent(),
                v.fields@,
                v.fields@.len(),
            ).dedent().write_line("}"@)
        }
    }
}

/// The writer after the discriminant constants of the first `n` variants.
pub open spec fn discriminants_state(st: WriterState, vs: Seq<VariantDef>, n: nat) -> WriterState
    decreases n,
{
    if n == 0 || n > vs.len() {
        st
    } else {
        discriminants_state(st, vs, (n - 1) as nat).write_line(
            "public const byte k_"@ + vs[n - 1].name@ + " = "@ + decimal((n - 1) as nat) + ";"@,
        )
    }
}

/// The writer after an enum, a tagged union: `public struct s_<name>` with a
/// `f_discriminant` byte, a payload field per variant with fields, the
/// payload structs, and a `k_<variant>` constant per variant.
pub open spec fn enum_state(st: WriterState, name: Seq<char>, vs: Seq<VariantDef>) -> WriterState {
    let cs = "s_"@ + name;
    let s1 = st.write_line("public struct "@ + cs).write_line("{"@).indent()
        .write_line("public byte f_discriminant;"@);
    let s2 = payload_fields_state(s1, cs, vs, vs.len());
    let s3 = payload_structs_state(s2, cs, vs, vs.len());
    discriminants_state(s3.write_line(Seq::empty()), vs, vs.len()).dedent().write_line("}"@)
}

/// The source name of parameter local `idx`, if debug information has one.
fn find_debug_name(infos: &Vec<VarDebugInfo>, idx: usize, arg_count: usize) -> (r: Option<&String>)
    ensures
        match r {
            Some(n) => debug_name(infos@, infos@.len(), idx as nat, arg_count as nat) == Some(n@),
            None => debug_name(infos@, infos@.len(), idx as nat, arg_count as nat) is None,
        },
{
    let mut i = infos.len();
    while i > 0
        invariant
            i <= infos@.len(),
            debug_name(infos@, infos@.len(), idx as nat, arg_count as nat)
                == debug_name(infos@, i as nat, idx as nat, arg_count as nat),
        decreases i,
    {
        let d = &infos[i - 1];
        if 1 <= idx && idx <= arg_count {
            if let Some(p) = &d.place {
                if p.projection.len() == 0 && p.local == idx {
                    return Some(&d.name);
                }
            }
        }
        i = i - 1;
    }
    None
}

/// The C# parameters of `f`.
fn params_cs(f: &FnDef) -> (r: Vec<String>)
    ensures
        views(r@) == params_text(*f),
{
    let mut params: Vec<String> = Vec::new();
    let mut i: usize = 0;
    while i < f.param_tys.len()
        invariant
            i <= f.param_tys@.len(),
            views(params@) == params_text(*f).take(i as int),
        decreases f.param_tys@.len() - i,
    {
        let local_idx = i + 1;
        let mut p = match ty_to_cs(&f.param_tys[i]) {
            Some(t) => t,
            None => to_string("object /* unknown */"),
        };
        push_str(&mut p, " _");
        push_decimal(&mut p, local_idx as u128);
        match find_debug_name(&f.var_debug_info, local_idx, f.body.arg_count) {
            Some(src_name) => {
                push_str(&mut p, " /* ");
                push_str(&mut p, src_name.as_str());
                push_str(&mut p, " */");
            },
            None => {},
        }
        assert(" "@ + "_"@ =~= " _"@) by {
            reveal_strlit(" ");
            reveal_strlit("_");
            reveal_strlit(" _");
        }
        assert(p@ =~= param_text(*f, i as nat));
        let ghost before = views(params@);
        params.push(p);
        assert(views(params@) =~= before.push(param_text(*f, i as nat)));
        assert(params_text(*f).take(i + 1) =~= params_text(*f).take(i as int).push(param_text(*f, i as nat)));
        i = i + 1;
    }
    assert(params_text(*f).take(i as int) =~= params_text(*f));
    params
}

/// Compile a function with a MIR body: the signature uses the MIR local
/// names `_1 ..` for the parameters (with the source names as comments),
/// then the body in braces.
pub fn compile_fn(f: &FnDef, w: &mut CsWriter)
    requires
        old(w)@.level + 3 < usize::MAX,
    ensures
        final(w)@ == fn_state(old(w)@, *f),
{
    let cs_name = naming::method_name(f.name.as_str());
    let ret_str = match ty_to_cs(&f.ret_ty) {
        Some(t) => t,
        None => to_string("object /* unknown */"),
    };
    let params = params_cs(f);
    let joined = join_strings(&params, ", ");
    let mut line = to_string("public static ");
    push_str(&mut line, ret_str.as_str());
    push_str(&mut line, " ");
    push_str(&mut line, cs_name.as_str());
    push_str(&mut line, "(");
    push_str(&mut line, joined.as_str());
    push_str(&mut line, ")");
    assert(line@ =~= "public static "@ + ty_or_unknown(f.ret_ty) + " "@ + "m_"@ + f.name@ + "("@
        + join_with(params_text(*f), ", "@) + ")"@);
    w.write_line(line.as_str());
    w.write_line("{");
    w.indent();
    let ghost s1 = w@;
    compile_mir_body(&f.body, w);
    proof {
        lemma_body_level(s1, f.body);
    }
    w.dedent();
    w.write_line("}");
}

/// Compile a method of an inherent impl: as a function.
pub fn compile_method(f: &FnDef, w: &mut CsWriter)
    requires
        old(w)@.level + 3 < usize::MAX,
    ensures
        final(w)@ == fn_state(old(w)@, *f),
{
    compile_fn(f, w)
}

/// Write the field lines of `fields`.
fn compile_fields(fields: &Vec<FieldDef>, w: &mut CsWriter)
    ensures
        final(w)@ == fields_state(old(w)@, fields@, fields@.len()),
{
    let mut i: usize = 0;
    while i < fields.len()
        invariant
            i <= fields@.len(),
            w@ == fields_state(old(w)@, fields@, i as nat),
        decreases fields@.len() - i,
    {
        let field = &fields[i];
        let mut line = to_string("public ");
        let ty_str = match ty_to_cs(&field.ty) {
            Some(t) => t,
            None => to_string("object /* unknown */"),
        };
        push_str(&mut line, ty_str.as_str());
        push_str(&mut line, " ");
        let f_name = naming::field_name(field.name.as_str());
        push_str(&mut line, f_name.as_str());
        push_str(&mut line, ";");
        assert(line@ =~= "public "@ + ty_or_unknown(fields@[i as int].ty) + " "@ + "f_"@ + fields@[i as int].name@ + ";"@);
        w.write_line(line.as_str());
        i = i + 1;
    }
}

proof fn lemma_fields_level(st: WriterState, fs: Seq<FieldDef>, n: nat)
    ensures
        fields_state(st, fs, n).level == st.level,
    decreases n,
{
    if n > 0 && n <= fs.len() {
        lemma_fields_level(st, fs, (n - 1) as nat);
    }
}

/// Compile a struct definition.
pub fn compile_struct(struct_name: &str, fields: &Vec<FieldDef>, w: &mut CsWriter)
    requires
        old(w)@.level + 1 < usize::MAX,
    ensures
        final(w)@ == struct_state(old(w)@, struct_name@, fields@),
{
    let cs_name = naming::struct_name(struct_name);
    let mut line = to_string("public struct ");
    push_str(&mut line, cs_name.as_str());
    assert(line@ =~= "public struct "@ + "s_"@ + struct_name@);
    w.write_line(line.as_str());
    w.write_line("{");
    w.indent();
    let ghost s1 = w@;
    compile_fields(fields, w);
    proof {
        lemma_fields_level(s1, fields@, fields@.len());
    }
    w.dedent();
    w.write_line("}");
}

proof fn lemma_payload_fields_level(st: WriterState, cs: Seq<char>, vs: Seq<VariantDef>, n: nat)
    ensures
        payload_fields_state(st, cs, vs, n).level == st.level,
    decreases n,
{
    if n > 0 && n <= vs.len() {
        lemma_payload_fields_level(st, cs, vs, (n - 1) as nat);
    }
}

proof fn lemma_payload_structs_level(st: WriterState, cs: Seq<char>, vs: Seq<VariantDef>, n: nat)
    ensures
        payload_structs_state(st, cs, vs, n).level == st.level,
    decreases n,
{
    if n > 0 && n <= vs.len() {
        lemma_payload_structs_level(st, cs, vs, (n - 1) as nat);
        let prev = payload_structs_state(st, cs, vs, (n - 1) as nat);
        let v = vs[n - 1];
        if v.fields@.len() > 0 {
            lemma_fields_level(
                prev.write_line(Seq::empty()).write_line("public struct "@ + cs + "_"@ + v.name@)
                    .write_line("{"@).indent(),
                v.fields@,
                v.fields@.len(),
            );
        }
    }
}

proof fn lemma_discriminants_level(st: WriterState, vs: Seq<VariantDef>, n: nat)
    ensures
        discriminants_state(st, vs, n).level == st.level,
    decreases n,
{
    if n > 0 && n <= vs.len() {
        lemma_discriminants_level(st, vs, (n - 1) as nat);
    }
}

/// Compile an enum definition as a tagged union: a C# struct holding a
/// discriminant field and one payload field per variant that carries data.
pub fn compile_enum(enum_name: &str, variants: &Vec<VariantDef>, w: &mut CsWriter)
    requires
        old(w)@.level + 2 < usize::MAX,
    ensures
        final(w)@ == enum_state(old(w)@, enum_name@, variants@),
{
    let cs_name = naming::struct_name(enum_name);
    let ghost cs = cs_name@;
    let mut line = to_string("public struct ");
    push_str(&mut line, cs_name.as_str());
    w.write_line(line.as_str());
    w.write_line("{");
    w.indent();
    // Discriminant field.
    w.write_line("public byte f_discriminant;");
    let ghost s1 = w@;
    // One payload field per variant that has fields.
    let mut i: usize = 0;
    while i < variants.len()
        invariant
            i <= variants@.len(),
            cs == cs_name@,
            w@ == payload_fields_state(s1, cs, variants@, i as nat),
        decreases variants@.len() - i,
    {
        let variant = &variants[i];
        if variant.fields.len() > 0 {
            let mut l = to_string("public ");
            push_str(&mut l, cs_name.as_str());
            push_str(&mut l, "_");
            push_str(&mut l, variant.name.as_str());
            push_str(&mut l, " f_");
            push_str(&mut l, variant.name.as_str());
            push_str(&mut l, ";");
            proof {
                reveal_strlit(" ");
                reveal_strlit("f_");
                reveal_strlit(" f_");
            }
            assert(l@ =~= "public "@ + cs + "_"@ + variant.name@ + " "@ + "f_"@ + variant.name@ + ";"@);
            w.write_line(l.as_str());
        }
        i = i + 1;
    }
    proof {
        lemma_payload_fields_level(s1, cs, variants@, variants@.len());
    }
    let ghost s2 = w@;
    // The payload structs of the variants with fields.
    let mut i: usize = 0;
    while i < variants.len()
        invariant
            i <= variants@.len(),
            cs == cs_name@,
            s2.level == old(w)@.level + 1,
            old(w)@.level + 2 < usize::MAX,
            w@ == payload_structs_state(s2, cs, variants@, i as nat),
        decreases variants@.len() - i,
    {
        proof {
            lemma_payload_structs_level(s2, cs, variants@, i as nat);
        }
        let variant = &variants[i];
        if variant.fields.len() > 0 {
            w.write_line("");
            let mut l = to_string("public struct ");
            push_str(&mut l, cs_name.as_str());
            push_str(&mut l, "_");
            push_str(&mut l, variant.name.as_str());
            w.write_line(l.as_str());
            w.write_line("{");
            w.indent();
            let ghost s3 = w@;
            compile_fields(&variant.fields, w);
            proof {
                lemma_fields_level(s3, variant.fields@, variant.fields@.len());
                reveal_strlit("");
            }
            w.dedent();
            w.write_line("}");
        }
        i = i + 1;
    }
    proof {
        lemma_payload_structs_level(s2, cs, variants@, variants@.len());
        reveal_strlit("");
    }
    // The discriminant constants.
    w.write_line("");
    let ghost s4 = w@;
    let mut idx: usize = 0;
    while idx < variants.len()
        invariant
            idx <= variants@.len(),
            w@ == discriminants_state(s4, variants@, idx as nat),
        decreases variants@.len() - idx,
    {
        let mut l = to_string("public const byte k_");
        push_str(&mut l, variants[idx].name.as_str());
        push_str(&mut l, " = ");
        push_decimal(&mut l, idx as u128);
        push_str(&mut l, ";");
        w.write_line(l.as_str());
        idx = idx + 1;
    }
    proof {
        lemma_discriminants_level(s4, variants@, variants@.len());
    }
    w.dedent();
    w.write_line("}");
}

/// The part of `s` after its last `.` (all of `s` if it has none).
pub open spec fn after_last_dot(s: Seq<char>) -> Seq<char>
    decreases s.len(),
{
    if s.len() == 0 {
        s
    } else if s.last() == '.' {
        Seq::empty()
    } else {
        after_last_dot(s.drop_last()).push(s.last())
    }
}

/// The C# struct that an inherent impl extends: the last component of the
/// self type's C# path, or `Impl` where the self type is no resolved path.
pub open spec fn impl_self_name(t: ImplSelfTy) -> Seq<char> {
    match t {
        ImplSelfTy::Path(Some(p)) => after_last_dot(cs_path_spec(p)),
        _ => "Impl"@,
    }
}

/// The writer after the methods among the first `n` impl items, each after
/// a blank line.
pub open spec fn methods_state(st: WriterState, items: Seq<ImplItem>, n: nat) -> WriterState
    decreases n,
{
    if n == 0 || n > items.len() {
        st
    } else {
        let prev = methods_state(st, items, (n - 1) as nat);
        match items[n - 1] {
            ImplItem::Fn(f) => fn_state(prev.write_line(Seq::empty()), f),
            ImplItem::Other => prev,
        }
    }
}

/// The writer after an inherent impl: `public partial struct <self>` with
/// its methods as static functions.
pub open spec fn impl_state(st: WriterState, self_ty: ImplSelfTy, items: Seq<ImplItem>) -> WriterState {
    methods_state(
        st.write_line("public partial struct "@ + impl_self_name(self_ty)).write_line("{"@).indent(),
        items,
        items.len(),
    ).dedent().write_line("}"@)
}

/// The writer after one free item of a module, which is preceded by a
/// blank line; trait impls and other items write nothing.
pub open spec fn item_state(st: WriterState, item: Item) -> WriterState
    decreases item, 0nat,
{
    match item {
        Item::Fn(f) => fn_state(st.write_line(Seq::empty()), f),
        Item::Struct { name, fields } => struct_state(st.write_line(Seq::empty()), name@, fields@),
        Item::Enum { name, variants } => enum_state(st.write_line(Seq::empty()), name@, variants@),
        Item::Mod { name, items } => module_state(
            st.write_line(Seq::empty()).write_line("public static partial class "@ + "mod_"@ + name@)
                .write_line("{"@).indent(),
            items@,
            items@.len(),
        ).dedent().write_line("}"@),
        Item::Impl { of_trait, self_ty, items } => if of_trait {
            st
        } else {
            impl_state(st.write_line(Seq::empty()), self_ty, items@)
        },
        Item::Other => st,
    }
}

/// The writer after the first `n` items of a module.
pub open spec fn module_state(st: WriterState, items: Seq<Item>, n: nat) -> WriterState
    decreases items, n,
{
    if n == 0 || n > items.len() {
        st
    } else {
        item_state(module_state(st, items, (n - 1) as nat), items[n - 1])
    }
}

/// How many indentation steps an item needs below the module's level.
pub open spec fn item_depth(item: Item) -> nat
    decreases item, 0nat,
{
    match item {
        Item::Mod { items, .. } => 1 + items_depth(items@, items@.len()),
        Item::Impl { .. } => 1,
        _ => 0,
    }
}

/// The deepest nesting among the first `n` items.
pub open spec fn items_depth(items: Seq<Item>, n: nat) -> nat
    decreases items, n,
{
    if n == 0 || n > items.len() {
        0
    } else {
        let a = items_depth(items, (n - 1) as nat);
        let b = item_depth(items[n - 1]);
        if a < b { b } else { a }
    }
}

/// The writer after a crate: a header, then the root module's items in
/// `public static partial class mod_<crate>`.
pub open spec fn crate_state(st: WriterState, crate_name: Seq<char>, items: Seq<Item>) -> WriterState {
    module_state(
        st.write_line("// <auto-generated/>"@).write_line("#nullable enable"@).write_line(Seq::empty())
            .write_line("public static partial class "@ + "mod_"@ + crate_name).write_line("{"@).indent(),
        items,
        items.len(),
    ).dedent().write_line("}"@)
}

proof fn lemma_fn_level(st: WriterState, f: FnDef)
    ensures
        fn_state(st, f).level == st.level,
{
    let s1 = st.write_line("public static "@ + ty_or_unknown(f.ret_ty) + " "@ + "m_"@ + f.name@ + "("@
        + join_with(params_text(f), ", "@) + ")"@).write_line("{"@).indent();
    lemma_body_level(s1, f.body);
}

proof fn lemma_methods_level(st: WriterState, items: Seq<ImplItem>, n: nat)
    ensures
        methods_state(st, items, n).level == st.level,
    decreases n,
{
    if n > 0 && n <= items.len() {
        lemma_methods_level(st, items, (n - 1) as nat);
        let prev = methods_state(st, items, (n - 1) as nat);
        if let ImplItem::Fn(f) = items[n - 1] {
            lemma_fn_level(prev.write_line(Seq::empty()), f);
        }
    }
}

proof fn lemma_enum_level(st: WriterState, name: Seq<char>, vs: Seq<VariantDef>)
    ensures
        enum_state(st, name, vs).level == st.level,
{
    let cs = "s_"@ + name;
    let s1 = st.write_line("public struct "@ + cs).write_line("{"@).indent()
        .write_line("public byte f_discriminant;"@);
    lemma_payload_fields_level(s1, cs, vs, vs.len());
    let s2 = payload_fields_state(s1, cs, vs, vs.len());
    lemma_payload_structs_level(s2, cs, vs, vs.len());
    let s3 = payload_structs_state(s2, cs, vs, vs.len());
    lemma_discriminants_level(s3.write_line(Seq::empty()), vs, vs.len());
}

/// An item leaves the indentation level as it found it.
pub proof fn lemma_item_level(st: WriterState, item: Item)
    ensures
        item_state(st, item).level == st.level,
    decreases item, 0nat,
{
    match item {
        Item::Fn(f) => lemma_fn_level(st.write_line(Seq::empty()), f),
        Item::Struct { name, fields } => {
            lemma_fields_level(st.write_line(Seq::empty()).write_line("public struct "@ + "s_"@ + name@)
                .write_line("{"@).indent(), fields@, fields@.len());
        },
        Item::Enum { name, variants } => lemma_enum_level(st.write_line(Seq::empty()), name@, variants@),
        Item::Mod { name, items } => {
            lemma_module_level(
                st.write_line(Seq::empty()).write_line("public static partial class "@ + "mod_"@ + name@)
                    .write_line("{"@).indent(),
                items@,
                items@.len(),
            );
        },
        Item::Impl { of_trait, self_ty, items } => {
            if !of_trait {
                let s1 = st.write_line(Seq::empty());
                lemma_methods_level(
                    s1.write_line("public partial struct "@ + impl_self_name(self_ty)).write_line("{"@).indent(),
                    items@,
                    items@.len(),
                );
            }
        },
        Item::Other => {},
    }
}

/// A module's items leave the indentation level as they found it.
pub proof fn lemma_module_level(st: WriterState, items: Seq<Item>, n: nat)
    ensures
        module_state(st, items, n).level == st.level,
    decreases items, n,
{
    if n > 0 && n <= items.len() {
        lemma_module_level(st, items, (n - 1) as nat);
        lemma_item_level(module_state(st, items, (n - 1) as nat), items[n - 1]);
    }
}

proof fn lemma_after_last_dot(s: Seq<char>, k: int)
    requires
        0 <= k <= s.len(),
        forall|j: int| k <= j < s.len() ==> s[j] != '.',
        k == 0 || s[k - 1] == '.',
    ensures
        after_last_dot(s) == s.skip(k),
    decreases s.len(),
{
    if s.len() > k {
        let t = s.drop_last();
        lemma_after_last_dot(t, k);
        assert(t.skip(k).push(s.last()) =~= s.skip(k));
    } else {
        if s.len() > 0 {
            assert(s.last() == '.');
        }
        assert(s.skip(k) =~= Seq::<char>::empty());
    }
}

/// The part of `s` after its last `.`.
fn last_component(s: &str) -> (r: String)
    ensures
        r@ == after_last_dot(s@),
{
    let cs = crate::text::chars_of(s);
    let mut k = cs.len();
    while k > 0 && cs[k - 1] != '.'
        invariant
            k <= cs@.len(),
            cs@ == s@,
            forall|j: int| k <= j < cs@.len() ==> cs@[j] != '.',
        decreases k,
    {
        k = k - 1;
    }
    proof {
        lemma_after_last_dot(s@, k as int);
    }
    let mut r = String::new();
    crate::text::push_chars(&mut r, cs.as_slice(), k, cs.len());
    assert(r@ =~= s@.skip(k as int));
    r
}

/// Compile an inherent `impl` block: its methods become static functions
/// in the `partial struct` of the self type.
pub fn compile_impl(self_ty: &ImplSelfTy, items: &Vec<ImplItem>, w: &mut CsWriter)
    requires
        old(w)@.level + 4 < usize::MAX,
    ensures
        final(w)@ == impl_state(old(w)@, *self_ty, items@),
{
    let self_ty_name = match self_ty {
        ImplSelfTy::Path(Some(p)) => {
            let path = def_id_to_cs_path(p);
            last_component(path.as_str())
        },
        _ => to_string("Impl"),
    };
    let mut line = to_string("public partial struct ");
    push_str(&mut line, self_ty_name.as_str());
    w.write_line(line.as_str());
    w.write_line("{");
    w.indent();
    let ghost s1 = w@;
    let mut i: usize = 0;
    while i < items.len()
        invariant
            i <= items@.len(),
            s1.level == old(w)@.level + 1,
            old(w)@.level + 4 < usize::MAX,
            w@ == methods_state(s1, items@, i as nat),
        decreases items@.len() - i,
    {
        proof {
            lemma_methods_level(s1, items@, i as nat);
            reveal_strlit("");
        }
        match &items[i] {
            ImplItem::Fn(f) => {
                w.write_line("");
                compile_method(f, w);
            },
            ImplItem::Other => {},
        }
        i = i + 1;
    }
    proof {
        lemma_methods_level(s1, items@, items@.len());
    }
    w.dedent();
    w.write_line("}");
}

proof fn lemma_items_depth_bound(items: Seq<Item>, n: nat, i: int)
    requires
        0 <= i < n <= items.len(),
    ensures
        item_depth(items[i]) <= items_depth(items, n),
        items_depth(items, (n - 1) as nat) <= items_depth(items, n),
    decreases n,
{
    if i < n - 1 {
        lemma_items_depth_bound(items, (n - 1) as nat, i);
    }
}

proof fn lemma_items_depth_prefix(items: Seq<Item>, m: nat, n: nat)
    requires
        m <= n <= items.len(),
    ensures
        items_depth(items, m) <= items_depth(items, n),
    decreases n - m,
{
    if m < n {
        lemma_items_depth_prefix(items, m, (n - 1) as nat);
        lemma_items_depth_bound(items, n, (n - 1) as int);
    }
}

/// Compile one free item, preceded by a blank line.
fn compile_item(item: &Item, w: &mut CsWriter)
    requires
        old(w)@.level + item_depth(*item) + 4 < usize::MAX,
    ensures
        final(w)@ == item_state(old(w)@, *item),
    decreases item,
{
    proof {
        reveal_strlit("");
        assert(""@ =~= Seq::<char>::empty());
    }
    match item {
        Item::Fn(f) => {
            w.write_line("");
            compile_fn(f, w);
        },
        Item::Struct { name, fields } => {
            w.write_line("");
            compile_struct(name.as_str(), fields, w);
        },
        Item::Enum { name, variants } => {
            w.write_line("");
            compile_enum(name.as_str(), variants, w);
        },
        Item::Mod { name, items } => {
            w.write_line("");
            let mod_name = naming::module_name(name.as_str());
            let mut line = to_string("public static partial class ");
            push_str(&mut line, mod_name.as_str());
            assert(line@ =~= "public static partial class "@ + "mod_"@ + name@);
            w.write_line(line.as_str());
            w.write_line("{");
            w.indent();
            let ghost s1 = w@;
            // Recurse into the sub-module.
            compile_module(items, w);
            proof {
                lemma_module_level(s1, items@, items@.len());
            }
            w.dedent();
            w.write_line("}");
        },
        Item::Impl { of_trait, self_ty, items } => {
            // Trait impls are skipped; only inherent impls are handled.
            if !*of_trait {
                w.write_line("");
                compile_impl(self_ty, items, w);
            }
        },
        Item::Other => {},
    }
}

/// Compile the items of a module, each after a blank line.
pub fn compile_module(items: &Vec<Item>, w: &mut CsWriter)
    requires
        old(w)@.level + items_depth(items@, items@.len()) + 4 < usize::MAX,
    ensures
        final(w)@ == module_state(old(w)@, items@, items@.len()),
    decreases items,
{
    let mut i: usize = 0;
    while i < items.len()
        invariant
            i <= items@.len(),
            w@ == module_state(old(w)@, items@, i as nat),
            old(w)@.level + items_depth(items@, items@.len()) + 4 < usize::MAX,
        decreases items@.len() - i,
    {
        proof {
            lemma_module_level(old(w)@, items@, i as nat);
            lemma_items_depth_bound(items@, items@.len(), i as int);
        }
        compile_item(&items[i], w);
        i = i + 1;
    }
}

/// Compile a crate: a header, then all its items in
/// `public static partial class mod_<crate>`.
pub fn compile_crate(crate_name: &str, items: &Vec<Item>, w: &mut CsWriter)
    requires
        old(w)@.level + items_depth(items@, items@.len()) + 5 < usize::MAX,
    ensures
        final(w)@ == crate_state(old(w)@, crate_name@, items@),
{
    let class_name = naming::module_name(crate_name);
    proof {
        reveal_strlit("");
        assert(""@ =~= Seq::<char>::empty());
    }
    w.write_line("// <auto-generated/>");
    w.write_line("#nullable enable");
    w.write_line("");
    let mut line = to_string("public static partial class ");
    push_str(&mut line, class_name.as_str());
    assert(line@ =~= "public static partial class "@ + "mod_"@ + crate_name@);
    w.write_line(line.as_str());
    w.write_line("{");
    w.indent();
    let ghost s1 = w@;
    compile_module(items, w);
    proof {
        lemma_module_level(s1, items@, items@.len());
        reveal_strlit("");
    }
    w.dedent();
    w.write_line("}");
}

} // verus!
