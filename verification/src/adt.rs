//! C# classes for structs and enums, with the members that their impl
//! blocks add.
//!
//! What name resolution and type inference know of a type (C# type texts,
//! generic parameters, constraints, the traits of its impls) comes in as
//! plain facts; the layout of the class is computed here.

use vstd::prelude::*;
use crate::body::{lemma_boundary_after, lemma_closed_concat, lemma_ends_newline, lemma_mark_keeps, line_closed};
use crate::decl::{
    format_generics, lemma_close_brace_boundary, lemma_open_brace_boundary, lemma_prefixed_lines_closed,
    prefixed_lines, supers_text, write_prefixed_lines,
};
use crate::item_exclusion::{
    attrs_view, is_r2cs_native, is_r2cs_native_spec, rust_path_spec, should_emit, should_emit_spec, AttrFacts,
    ItemFacts,
};
use crate::names::{camel_spec, field_name, generic_args_spec, join_with, pascal_spec, struct_name, variant_name};
use crate::output::{at_line_boundary, blank_line_spec, dec_indent, inc_indent, Code, CodeState};
use crate::text::{push_str, str_equals, to_string, views};
use crate::types::join_strings;

verus! {

/// A field of a struct or variant: its C# type and its Rust name.
pub struct FieldFacts {
    pub cs_ty: String,
    pub name: String,
}

/// How a struct or variant is constructed: with named fields, with
/// positional fields, or without fields.
pub enum StructKind {
    Record,
    Tuple,
    Unit,
}

/// A struct or enum variant: its fields and its kind.
pub struct ConstructableFacts {
    pub fields: Vec<FieldFacts>,
    pub kind: StructKind,
}

/// The C# name of field `f`.
pub open spec fn field_cs_name(f: FieldFacts) -> Seq<char> {
    "f_"@ + camel_spec(f.name@)
}

/// The declaration of field `f`, initialised to its default.
pub open spec fn field_decl_text(f: FieldFacts) -> Seq<char> {
    "public "@ + f.cs_ty@ + " "@ + field_cs_name(f) + (" = default!;"@ + "\n"@)
}

/// The declarations of `fs`, in order.
pub open spec fn field_decls_text(fs: Seq<FieldFacts>) -> Seq<char>
    decreases fs.len(),
{
    if fs.len() == 0 {
        Seq::empty()
    } else {
        field_decls_text(fs.drop_last()) + field_decl_text(fs.last())
    }
}

/// The parameters of the positional constructor: type and name of each
/// field.
pub open spec fn ctor_params(fs: Seq<FieldFacts>) -> Seq<Seq<char>> {
    Seq::new(fs.len(), |i: int| fs[i].cs_ty@ + " "@ + field_cs_name(fs[i]))
}

/// The initialisers of the positional constructor, one line per field.
pub open spec fn ctor_assigns_text(fs: Seq<FieldFacts>) -> Seq<char>
    decreases fs.len(),
{
    if fs.len() == 0 {
        Seq::empty()
    } else {
        ctor_assigns_text(fs.drop_last()) + field_cs_name(fs.last()) + " = "@ + field_cs_name(fs.last())
            + (","@ + "\n"@)
    }
}

/// The static constructor of a type with positional fields: it takes the
/// fields in order and sets each of them, indented one step.
pub open spec fn tuple_ctor_text(cs_type: Seq<char>, cs_name: Seq<char>, fs: Seq<FieldFacts>) -> Seq<char> {
    "public static "@ + cs_type + " ctor("@ + join_with(ctor_params(fs), ", "@) + ") => new "@ + cs_name
        + "() {\n"@ + seq![inc_indent()] + ctor_assigns_text(fs) + seq![dec_indent()] + "};\n"@
}

/// The members of a type without fields: a private constructor and the
/// one instance.
pub open spec fn unit_members_text(cs_type: Seq<char>, cs_name: Seq<char>) -> Seq<char> {
    "private "@ + cs_name + ("(){}"@ + "\n"@) + "public static "@ + cs_type + " instance = new "@ + cs_name
        + ("();"@ + "\n"@)
}

/// The state after writing the members of `def` into class `cs_name`,
/// whose full type is `cs_type`: a declaration per field, then, with
/// positional fields, a blank line (if there are fields) and the static
/// constructor; without fields, the members of a unit type.
pub open spec fn constructable_state(
    st: CodeState,
    cs_type: Seq<char>,
    cs_name: Seq<char>,
    def: ConstructableFacts,
) -> CodeState {
    let st1 = st.push_text(field_decls_text(def.fields@));
    match def.kind {
        StructKind::Record => st1,
        StructKind::Tuple => {
            let st2 = if def.fields@.len() > 0 { blank_line_spec(st1) } else { st1 };
            st2.push_text(tuple_ctor_text(cs_type, cs_name, def.fields@))
        },
        StructKind::Unit => st1.push_text(unit_members_text(cs_type, cs_name)),
    }
}

/// A blank line keeps a line boundary.
pub(crate) proof fn lemma_blank_line_boundary(st: CodeState)
    requires
        at_line_boundary(st.buf),
    ensures
        at_line_boundary(blank_line_spec(st).buf),
{
    if blank_line_spec(st) != st {
        lemma_ends_newline(st.buf, seq!['\n']);
    }
}

/// Text that ends with a newline, or is empty, keeps a line boundary.
proof fn lemma_lines_boundary(s: Seq<char>, t: Seq<char>)
    requires
        at_line_boundary(s),
        t.len() == 0 || t.last() == '\n',
    ensures
        at_line_boundary(s + t),
{
    if t.len() == 0 {
        assert(s + t =~= s);
    } else {
        lemma_ends_newline(s, t);
    }
}

/// Appends the field declarations of `fs`.
fn write_field_decls(out: &mut Code, fs: &Vec<FieldFacts>)
    ensures
        final(out)@ == old(out)@.push_text(field_decls_text(fs@)),
        at_line_boundary(old(out)@.buf) ==> at_line_boundary(final(out)@.buf),
{
    let ghost start = old(out)@;
    assert(start.push_text(field_decls_text(fs@.take(0))) =~= start) by {
        assert(start.buf + Seq::<char>::empty() =~= start.buf);
    }
    let mut i: usize = 0;
    while i < fs.len()
        invariant
            i <= fs@.len(),
            out@ == start.push_text(field_decls_text(fs@.take(i as int))),
            at_line_boundary(start.buf) ==> at_line_boundary(out@.buf),
        decreases fs@.len() - i,
    {
        let ghost before = out@.buf;
        let f_name = field_name(fs[i].name.as_str());
        out.w("public ").w(&fs[i].cs_ty).w(" ").w(&f_name).wln(" = default!;");
        proof {
            reveal_strlit("\n");
            assert(fs@.take(i + 1).drop_last() =~= fs@.take(i as int));
            assert(out@.buf =~= before + field_decl_text(fs@[i as int]));
            assert(out@.buf =~= start.buf + field_decls_text(fs@.take(i + 1)));
            if at_line_boundary(start.buf) {
                lemma_lines_boundary(before, field_decl_text(fs@[i as int]));
            }
        }
        i = i + 1;
    }
    assert(fs@.take(i as int) =~= fs@);
}

/// The constructor parameters of `fs`, each as its own string.
fn ctor_param_strings(fs: &Vec<FieldFacts>) -> (r: Vec<String>)
    ensures
        views(r@) == ctor_params(fs@),
{
    let mut r: Vec<String> = Vec::new();
    let mut i: usize = 0;
    while i < fs.len()
        invariant
            i <= fs@.len(),
            views(r@) =~= ctor_params(fs@).take(i as int),
        decreases fs@.len() - i,
    {
        let mut p = fs[i].cs_ty.clone();
        push_str(&mut p, " ");
        let f_name = field_name(fs[i].name.as_str());
        push_str(&mut p, f_name.as_str());
        let ghost before = r@;
        r.push(p);
        assert(views(r@) =~= views(before).push(ctor_params(fs@)[i as int]));
        i = i + 1;
    }
    assert(ctor_params(fs@).take(i as int) =~= ctor_params(fs@));
    r
}

/// Appends the constructor initialisers of `fs`.
fn write_ctor_assigns(out: &mut Code, fs: &Vec<FieldFacts>)
    ensures
        final(out)@ == old(out)@.push_text(ctor_assigns_text(fs@)),
        line_closed(ctor_assigns_text(fs@)),
{
    let ghost start = old(out)@;
    assert(start.push_text(ctor_assigns_text(fs@.take(0))) =~= start) by {
        assert(start.buf + Seq::<char>::empty() =~= start.buf);
    }
    let mut i: usize = 0;
    while i < fs.len()
        invariant
            i <= fs@.len(),
            out@ == start.push_text(ctor_assigns_text(fs@.take(i as int))),
        decreases fs@.len() - i,
    {
        let ghost before = out@.buf;
        let f_name = field_name(fs[i].name.as_str());
        out.w(&f_name).w(" = ").w(&f_name).wln(",");
        proof {
            assert(fs@.take(i + 1).drop_last() =~= fs@.take(i as int));
            assert(out@.buf =~= start.buf + ctor_assigns_text(fs@.take(i + 1)));
        }
        i = i + 1;
    }
    assert(fs@.take(i as int) =~= fs@);
    proof {
        reveal_strlit("\n");
        if fs@.len() > 0 {
            lemma_ends_newline(Seq::empty(), ctor_assigns_text(fs@));
        }
    }
}

/// Appends the members of `def` to class `cs_name`, whose full type is
/// `cs_type` (see `constructable_state`).
#[verifier::rlimit(50)]
pub fn emit_constructable_def(out: &mut Code, cs_type: &str, cs_name: &str, def: &ConstructableFacts)
    requires
        old(out)@.indent < usize::MAX,
    ensures
        final(out)@ == constructable_state(old(out)@, cs_type@, cs_name@, *def),
        at_line_boundary(old(out)@.buf) ==> at_line_boundary(final(out)@.buf),
{
    let ghost start = old(out)@;
    write_field_decls(out, &def.fields);
    let ghost st1 = out@;
    match def.kind {
        StructKind::Record => {},
        StructKind::Tuple => {
            if def.fields.len() > 0 {
                out.blank_line();
                proof {
                    if at_line_boundary(start.buf) {
                        lemma_blank_line_boundary(st1);
                    }
                }
            }
            let ghost st2 = out@;
            let params = ctor_param_strings(&def.fields);
            let joined = join_strings(&params, ", ");
            out.w("public static ").w(cs_type).w(" ctor(").w(&joined).w(") => new ").w(cs_name).w("() {\n");
            let ghost s3 = out@.buf;
            proof {
                reveal_strlit("() {\n");
                lemma_ends_newline(st2.buf + "public static "@ + cs_type@ + " ctor("@ + joined@ + ") => new "@
                    + cs_name@, "() {\n"@);
                assert(s3 =~= st2.buf + "public static "@ + cs_type@ + " ctor("@ + joined@ + ") => new "@
                    + cs_name@ + "() {\n"@);
                lemma_mark_keeps(s3, inc_indent());
                assert(s3 + seq![inc_indent()] =~= s3.push(inc_indent()));
            }
            out.indent();
            write_ctor_assigns(out, &def.fields);
            proof {
                lemma_boundary_after(s3.push(inc_indent()), ctor_assigns_text(def.fields@));
            }
            out.dedent();
            out.w("};\n");
            proof {
                reveal_strlit("};\n");
                assert(out@.buf =~= st2.buf + tuple_ctor_text(cs_type@, cs_name@, def.fields@));
                lemma_ends_newline(st2.buf, tuple_ctor_text(cs_type@, cs_name@, def.fields@));
            }
        },
        StructKind::Unit => {
            out.w("private ").w(cs_name).wln("(){}");
            out.w("public static ").w(cs_type).w(" instance = new ").w(cs_name).wln("();");
            proof {
                reveal_strlit("\n");
                assert(out@.buf =~= st1.buf + unit_members_text(cs_type@, cs_name@));
                lemma_ends_newline(st1.buf, unit_members_text(cs_type@, cs_name@));
            }
        },
    }
}

/// The members that a state with the same buffer gets are the same, and
/// the indentation level stays.
proof fn lemma_constructable_shift(st: CodeState, k: nat, cs_type: Seq<char>, cs_name: Seq<char>, def: ConstructableFacts)
    ensures
        constructable_state(CodeState { buf: st.buf, indent: k }, cs_type, cs_name, def)
            == (CodeState { buf: constructable_state(st, cs_type, cs_name, def).buf, indent: k }),
        constructable_state(st, cs_type, cs_name, def).indent == st.indent,
{
}

/// An item as the exclusion rules see it, with what the crate's
/// configuration says of its `cfg` attributes.
pub struct CfgItemFacts {
    pub item: ItemFacts,
    pub cfg_check: Option<Option<bool>>,
}

/// Whether the item is translated.
pub open spec fn emitted(c: CfgItemFacts) -> bool {
    should_emit_spec(rust_path_spec(c.item), c.cfg_check)
}

/// Whether the item is translated.
pub(crate) fn is_emitted(c: &CfgItemFacts) -> (r: bool)
    ensures
        r == emitted(*c),
{
    should_emit(&c.item, c.cfg_check)
}

/// Which comparison trait an impl is for, as far as the operators of its
/// class depend on it; for `PartialEq`, the C# type of the right-hand side
/// and whether it is the self type.
pub enum TraitLang {
    PartialOrd,
    Ord,
    PartialEq { arg_ty_cs: String, same_ty: bool },
    Other,
}

/// The trait of an impl block: its Rust name, its C# interface with the
/// impl's arguments, which comparison trait it is, how many of its
/// functions the impl leaves to their defaults, and how many of its
/// functions would need a static wrapper.
pub struct ImplTraitFacts {
    pub name: String,
    pub cs_iface: String,
    pub lang: TraitLang,
    pub unimplemented_fns: usize,
    pub static_fns: usize,
}

/// An impl block of a type: the block itself and each of its functions as
/// items, its trait, if any, and the C# self type.
pub struct ImplFacts {
    pub impl_item: CfgItemFacts,
    pub functions: Vec<CfgItemFacts>,
    pub trait_ref: Option<ImplTraitFacts>,
    pub self_ty_cs: String,
}

/// The traits whose impls get wrappers for the default functions they
/// leave out.
pub open spec fn is_serde_trait(name: Seq<char>) -> bool {
    ||| name == "Visitor"@
    ||| name == "Deserializer"@
    ||| name == "Serializer"@
    ||| name == "SeqAccess"@
    ||| name == "MapAccess"@
    ||| name == "Deserialize"@
    ||| name == "EnumAccess"@
    ||| name == "VariantAccess"@
    ||| name == "SerializeMap"@
    ||| name == "SerializeStruct"@
    ||| name == "SerializeStructVariant"@
}

fn is_serde_trait_name(name: &str) -> (r: bool)
    ensures
        r == is_serde_trait(name@),
{
    str_equals(name, "Visitor") || str_equals(name, "Deserializer") || str_equals(name, "Serializer")
        || str_equals(name, "SeqAccess") || str_equals(name, "MapAccess") || str_equals(name, "Deserialize")
        || str_equals(name, "EnumAccess") || str_equals(name, "VariantAccess") || str_equals(name, "SerializeMap")
        || str_equals(name, "SerializeStruct") || str_equals(name, "SerializeStructVariant")
}

/// Whether the members of impl `i` can be written: where the impl is
/// translated, none of its functions is, and it needs neither a default
/// wrapper nor a static wrapper. Each of those would write a function
/// signature, and writing a signature stops the generator (it indents after
/// an unfinished line).
pub open spec fn impl_emittable(i: ImplFacts) -> bool {
    emitted(i.impl_item) ==> {
        &&& forall|k: int| 0 <= k < i.functions@.len() ==> !emitted(#[trigger] i.functions@[k])
        &&& match i.trait_ref {
            Some(t) => (is_serde_trait(t.name@) ==> t.unimplemented_fns == 0) && t.static_fns == 0,
            None => true,
        }
    }
}

/// An ordering operator of a `PartialOrd` impl on C# type `t`.
pub open spec fn partial_ord_line(op: Seq<char>, test: Seq<char>, t: Seq<char>) -> Seq<char> {
    "public static bool operator"@ + op + "("@ + t + " self, "@ + t
        + " right) => self.m_PartialCmp(right).m_IsSomeAnd(x => x."@ + test + ("());"@ + "\n"@)
}

/// The operators that an impl of comparison trait `lang` adds to the class
/// of C# type `t`.
pub open spec fn operators_text(lang: TraitLang, t: Seq<char>) -> Seq<char> {
    match lang {
        TraitLang::PartialOrd => partial_ord_line("<"@, "m_IsLt"@, t) + partial_ord_line(">"@, "m_IsGt"@, t)
            + partial_ord_line("<="@, "m_IsLe"@, t) + partial_ord_line(">="@, "m_IsGe"@, t),
        TraitLang::Ord => "public int CompareTo("@ + t + (" other) => this.m_Cmp(other).CsOrder();"@ + "\n"@),
        TraitLang::PartialEq { arg_ty_cs, same_ty } => "public static bool operator==("@ + t + " self, "@ + arg_ty_cs@
            + (" right) => self.m_Eq(right);"@ + "\n"@) + "public static bool operator!=("@ + t + " self, "@
            + arg_ty_cs@ + (" right) => !self.m_Eq(right);"@ + "\n"@) + (if same_ty {
            "public override bool Equals(object? obj) => obj is "@ + t + (" cast && this == cast;"@ + "\n"@)
        } else {
            Seq::empty()
        }),
        TraitLang::Other => Seq::empty(),
    }
}

/// What impl `i` adds to the class of its type, where it can be written:
/// nothing unless it is translated; then the marker of default wrappers for
/// the traits that get them, and the comparison operators.
pub open spec fn impl_methods_text(i: ImplFacts) -> Seq<char> {
    if !emitted(i.impl_item) {
        Seq::empty()
    } else {
        match i.trait_ref {
            None => Seq::empty(),
            Some(t) => (if is_serde_trait(t.name@) { "// default impls"@ + "\n"@ } else { Seq::empty() })
                + operators_text(t.lang, i.self_ty_cs@),
        }
    }
}

/// What `impls` add to the class, in order.
pub open spec fn impls_methods_text(impls: Seq<ImplFacts>) -> Seq<char>
    decreases impls.len(),
{
    if impls.len() == 0 {
        Seq::empty()
    } else {
        impls_methods_text(impls.drop_last()) + impl_methods_text(impls.last())
    }
}

/// The interfaces that impl `i` gives the class `cs_name`: its trait's,
/// and for `Ord` also C#'s comparable interface.
pub open spec fn impl_interfaces(i: ImplFacts, cs_name: Seq<char>) -> Seq<Seq<char>> {
    match i.trait_ref {
        Some(t) => if t.lang is Ord {
            seq![t.cs_iface@, "System.IComparable<"@ + cs_name + ">"@]
        } else {
            seq![t.cs_iface@]
        },
        None => Seq::empty(),
    }
}

/// The interfaces of the class `cs_name` with `impls`, in order.
pub open spec fn interfaces(impls: Seq<ImplFacts>, cs_name: Seq<char>) -> Seq<Seq<char>>
    decreases impls.len(),
{
    if impls.len() == 0 {
        Seq::empty()
    } else {
        interfaces(impls.drop_last(), cs_name) + impl_interfaces(impls.last(), cs_name)
    }
}

proof fn lemma_operators_closed(lang: TraitLang, t: Seq<char>)
    ensures
        line_closed(operators_text(lang, t)),
{
    reveal_strlit("\n");
    let x = operators_text(lang, t);
    if x.len() > 0 {
        lemma_ends_newline(Seq::empty(), x);
    }
}

fn write_partial_ord_line(out: &mut Code, op: &str, test: &str, t: &str)
    ensures
        final(out)@ == old(out)@.push_text(partial_ord_line(op@, test@, t@)),
{
    out.w("public static bool operator").w(op).w("(").w(t).w(" self, ").w(t);
    out.w(" right) => self.m_PartialCmp(right).m_IsSomeAnd(x => x.").w(test).wln("());");
    assert(out@.buf =~= old(out)@.buf + partial_ord_line(op@, test@, t@));
}

/// Appends the operators that an impl of comparison trait `lang` adds to
/// the class of C# type `st`.
fn emit_operators(out: &mut Code, lang: &TraitLang, st: &str)
    ensures
        final(out)@ == old(out)@.push_text(operators_text(*lang, st@)),
{
    let ghost start = old(out)@;
    match lang {
        TraitLang::PartialOrd => {
            write_partial_ord_line(out, "<", "m_IsLt", st);
            write_partial_ord_line(out, ">", "m_IsGt", st);
            write_partial_ord_line(out, "<=", "m_IsLe", st);
            write_partial_ord_line(out, ">=", "m_IsGe", st);
        },
        TraitLang::Ord => {
            out.w("public int CompareTo(").w(st).wln(" other) => this.m_Cmp(other).CsOrder();");
        },
        TraitLang::PartialEq { arg_ty_cs, same_ty } => {
            out.w("public static bool operator==(").w(st).w(" self, ").w(arg_ty_cs);
            out.wln(" right) => self.m_Eq(right);");
            out.w("public static bool operator!=(").w(st).w(" self, ").w(arg_ty_cs);
            out.wln(" right) => !self.m_Eq(right);");
            if *same_ty {
                out.w("public override bool Equals(object? obj) => obj is ").w(st);
                out.wln(" cast && this == cast;");
            }
        },
        TraitLang::Other => {},
    }
    assert(out@.buf =~= start.buf + operators_text(*lang, st@));
}

/// Appends what impl `i` adds to the class of its type.
pub fn emit_impl_methods(out: &mut Code, i: &ImplFacts)
    requires
        impl_emittable(*i),
    ensures
        final(out)@ == old(out)@.push_text(impl_methods_text(*i)),
        line_closed(impl_methods_text(*i)),
{
    let ghost start = old(out)@;
    assert(start.push_text(Seq::empty()) =~= start) by {
        assert(start.buf + Seq::<char>::empty() =~= start.buf);
    }
    assert(line_closed(Seq::<char>::empty()));
    if !is_emitted(&i.impl_item) {
        return;
    }
    match &i.trait_ref {
        None => {},
        Some(t) => {
            if is_serde_trait_name(t.name.as_str()) {
                out.wln("// default impls");
            }
            let ghost s1 = out@;
            let ghost head = if is_serde_trait(t.name@) { "// default impls"@ + "\n"@ } else { Seq::<char>::empty() };
            assert(s1.buf =~= start.buf + head);
            emit_operators(out, &t.lang, i.self_ty_cs.as_str());
            proof {
                assert(out@.buf =~= s1.buf + operators_text(t.lang, i.self_ty_cs@));
                assert(out@.buf =~= start.buf + impl_methods_text(*i));
                reveal_strlit("\n");
                lemma_operators_closed(t.lang, i.self_ty_cs@);
                if head.len() > 0 {
                    lemma_ends_newline(Seq::empty(), head);
                }
                lemma_closed_concat(head, operators_text(t.lang, i.self_ty_cs@));
            }
        },
    }
}

/// The impl blocks that `v` refers to.
pub open spec fn impl_values<'a>(v: Seq<&'a ImplFacts>) -> Seq<ImplFacts> {
    v.map_values(|r: &'a ImplFacts| *r)
}

/// Whether the members of each impl of `v` can be written.
pub open spec fn impls_emittable(v: Seq<ImplFacts>) -> bool {
    forall|k: int| 0 <= k < v.len() ==> impl_emittable(#[trigger] v[k])
}

/// Appends what `impls` add to the class of their type.
fn emit_impls_methods(out: &mut Code, refs: &Vec<&ImplFacts>)
    requires
        impls_emittable(impl_values(refs@)),
    ensures
        final(out)@ == old(out)@.push_text(impls_methods_text(impl_values(refs@))),
        line_closed(impls_methods_text(impl_values(refs@))),
{
    let ghost start = old(out)@;
    let ghost impls = impl_values(refs@);
    assert(start.push_text(impls_methods_text(impls.take(0))) =~= start) by {
        assert(start.buf + Seq::<char>::empty() =~= start.buf);
    }
    assert(line_closed(Seq::<char>::empty()));
    let mut i: usize = 0;
    while i < refs.len()
        invariant
            i <= refs@.len(),
            impls == impl_values(refs@),
            impls_emittable(impls),
            out@ == start.push_text(impls_methods_text(impls.take(i as int))),
            line_closed(impls_methods_text(impls.take(i as int))),
        decreases refs@.len() - i,
    {
        let ghost before = out@.buf;
        assert(impls[i as int] == *refs@[i as int]);
        emit_impl_methods(out, refs[i]);
        proof {
            assert(impls.take(i + 1).drop_last() =~= impls.take(i as int));
            assert(out@.buf =~= start.buf + impls_methods_text(impls.take(i + 1)));
            lemma_closed_concat(impls_methods_text(impls.take(i as int)), impl_methods_text(impls[i as int]));
        }
        i = i + 1;
    }
    assert(impls.take(i as int) =~= impls);
}

/// The interfaces of the class `cs_name` with `impls`.
fn interface_strings(refs: &Vec<&ImplFacts>, cs_name: &str) -> (r: Vec<String>)
    ensures
        views(r@) == interfaces(impl_values(refs@), cs_name@),
{
    let ghost impls = impl_values(refs@);
    let mut r: Vec<String> = Vec::new();
    let mut i: usize = 0;
    assert(views(r@) =~= interfaces(impls.take(0), cs_name@));
    while i < refs.len()
        invariant
            i <= refs@.len(),
            impls == impl_values(refs@),
            views(r@) =~= interfaces(impls.take(i as int), cs_name@),
        decreases refs@.len() - i,
    {
        let ghost before = r@;
        assert(impls[i as int] == *refs@[i as int]);
        match &refs[i].trait_ref {
            Some(t) => {
                r.push(t.cs_iface.clone());
                match &t.lang {
                    TraitLang::Ord => {
                        let mut c = to_string("System.IComparable<");
                        push_str(&mut c, cs_name);
                        push_str(&mut c, ">");
                        r.push(c);
                    },
                    _ => {},
                }
            },
            None => {},
        }
        proof {
            assert(impls.take(i + 1).drop_last() =~= impls.take(i as int));
            assert(views(r@) =~= views(before) + impl_interfaces(impls[i as int], cs_name@));
        }
        i = i + 1;
    }
    assert(impls.take(i as int) =~= impls);
    r
}

/// A variant of an enum: its name and its fields.
pub struct VariantFacts {
    pub name: String,
    pub def: ConstructableFacts,
}

/// What kind of type a struct, enum or union is, with its members.
pub enum AdtShape {
    Struct(ConstructableFacts),
    Enum(Vec<VariantFacts>),
    Union,
}

/// A struct, enum or union: its name; the type as an item, for the
/// exclusion rules; its attributes, for the native marker; the C# names of
/// its generic parameters and their constraints; and its shape.
pub struct AdtFacts {
    pub name: String,
    pub adt_item: CfgItemFacts,
    pub attrs: Option<Vec<AttrFacts>>,
    pub params: Vec<String>,
    pub constraints: Vec<String>,
    pub shape: AdtShape,
}

/// The head of a class: its declaration `kw` with name, generic parameters
/// and interfaces, the indented `where` lines, and the opening brace with
/// its indentation mark.
pub open spec fn class_head_text(
    kw: Seq<char>,
    cs: Seq<char>,
    gen: Seq<char>,
    ifaces: Seq<Seq<char>>,
    constraints: Seq<Seq<char>>,
) -> Seq<char> {
    kw + cs + gen + supers_text(ifaces) + "\n"@ + seq![inc_indent()] + prefixed_lines("where "@, constraints)
        + seq![dec_indent()] + "{\n"@ + seq![inc_indent()]
}

/// The end of a class: what `impls` add, the closing brace, and a blank
/// line.
pub open spec fn class_tail_state(st: CodeState, impls: Seq<ImplFacts>) -> CodeState {
    blank_line_spec(st.push_text(impls_methods_text(impls) + seq![dec_indent()] + "}\n"@))
}

/// The head of the nested class of variant `vn` of enum `cs`, with the
/// constructor of the enum from it.
pub open spec fn variant_head_text(cs: Seq<char>, vn: Seq<char>) -> Seq<char> {
    "public "@ + cs + "("@ + vn + (" value) => inner = value;"@ + "\n"@) + "public sealed partial class "@
        + (vn + "\n"@) + "{\n"@ + seq![inc_indent()]
}

/// The state after the nested class of variant `v` of enum `cs`, whose full
/// type is `cs_type`.
pub open spec fn variant_state(st: CodeState, cs_type: Seq<char>, cs: Seq<char>, v: VariantFacts) -> CodeState {
    let vn = "v_"@ + pascal_spec(v.name@);
    blank_line_spec(
        constructable_state(st.push_text(variant_head_text(cs, vn)), cs_type, vn, v.def).push_text(
            seq![dec_indent()] + "}\n"@,
        ),
    )
}

/// The state after the nested classes of `vs`, in order.
pub open spec fn variants_state(st: CodeState, cs_type: Seq<char>, cs: Seq<char>, vs: Seq<VariantFacts>) -> CodeState
    decreases vs.len(),
{
    if vs.len() == 0 {
        st
    } else {
        variant_state(variants_state(st, cs_type, cs, vs.drop_last()), cs_type, cs, vs.last())
    }
}

/// The members that hold the value of an enum `cs` with generic parameters
/// `gen`.
pub open spec fn enum_members_text(cs: Seq<char>, gen: Seq<char>) -> Seq<char> {
    ("private object inner;"@ + "\n"@) + ("public object Value => inner;"@ + "\n"@) + "public void set("@ + cs + gen
        + (" o) => inner = o.inner;"@ + "\n"@)
}

/// The placeholder of a type implemented natively in C#.
pub open spec fn native_text(cs: Seq<char>) -> Seq<char> {
    "// [r2cs_native] "@ + cs + (" — add implementation in r2CsNative/"@ + "\n"@) + "public partial class "@ + cs
        + (" {}"@ + "\n"@)
}

/// The state after the class of type `a` with `impls`: a comment where the
/// type is not translated; a placeholder where it is native; for a struct,
/// a partial class with its fields and what its impls add; for an enum, a
/// sealed partial class holding the value, with a nested class per variant;
/// nothing for a union.
pub open spec fn adt_state(st: CodeState, a: AdtFacts, impls: Seq<ImplFacts>) -> CodeState {
    let cs = "s_"@ + pascal_spec(a.name@);
    let gen = generic_args_spec(Seq::empty(), views(a.params@));
    let ifaces = interfaces(impls, cs);
    let constraints = views(a.constraints@);
    if !emitted(a.adt_item) {
        st.push_text("// Omit "@ + a.name@ + "\n"@)
    } else if is_r2cs_native_spec(attrs_view(a.attrs)) {
        blank_line_spec(st.push_text(native_text(cs)))
    } else {
        match a.shape {
            AdtShape::Struct(def) => class_tail_state(
                blank_line_spec(
                    constructable_state(
                        st.push_text(class_head_text("public partial class "@, cs, gen, ifaces, constraints)),
                        cs + gen,
                        cs,
                        def,
                    ),
                ),
                impls,
            ),
            AdtShape::Enum(vs) => class_tail_state(
                variants_state(
                    blank_line_spec(
                        st.push_text(
                            ("[global::System.Runtime.CompilerServices.UnionAttribute]"@ + "\n"@) + class_head_text(
                                "public sealed partial class "@,
                                cs,
                                gen,
                                ifaces,
                                constraints,
                            ) + enum_members_text(cs, gen),
                        ),
                    ),
                    cs + gen,
                    cs,
                    vs@,
                ),
                impls,
            ),
            AdtShape::Union => st,
        }
    }
}

proof fn lemma_variants_shift(st: CodeState, k: nat, cs_type: Seq<char>, cs: Seq<char>, vs: Seq<VariantFacts>)
    ensures
        variants_state(CodeState { buf: st.buf, indent: k }, cs_type, cs, vs)
            == (CodeState { buf: variants_state(st, cs_type, cs, vs).buf, indent: k }),
        variants_state(st, cs_type, cs, vs).indent == st.indent,
    decreases vs.len(),
{
    if vs.len() > 0 {
        lemma_variants_shift(st, k, cs_type, cs, vs.drop_last());
        let prev = variants_state(st, cs_type, cs, vs.drop_last());
        let vn = "v_"@ + pascal_spec(vs.last().name@);
        lemma_constructable_shift(prev.push_text(variant_head_text(cs, vn)), k, cs_type, vn, vs.last().def);
        lemma_constructable_shift(prev.push_text(variant_head_text(cs, vn)), prev.indent, cs_type, vn, vs.last().def);
    }
}

/// Appends the head of a class.
fn emit_class_head(out: &mut Code, kw: &str, cs: &str, gen: &str, ifaces: &Vec<String>, constraints: &Vec<String>)
    requires
        old(out)@.indent + 1 < usize::MAX,
    ensures
        final(out)@ == (CodeState {
            buf: old(out)@.buf + class_head_text(kw@, cs@, gen@, views(ifaces@), views(constraints@)),
            indent: old(out)@.indent + 1,
        }),
        at_line_boundary(final(out)@.buf),
{
    let ghost start = old(out)@;
    out.w(kw).w(cs).w(gen);
    let ghost s2 = out@.buf;
    if ifaces.len() > 0 {
        let joined = join_strings(ifaces, ", ");
        out.w(" : ").w(&joined);
    }
    out.w("\n");
    let ghost s3 = out@.buf;
    proof {
        reveal_strlit("\n");
        assert(s3 =~= s2 + (supers_text(views(ifaces@)) + "\n"@));
        lemma_ends_newline(s2, supers_text(views(ifaces@)) + "\n"@);
    }
    out.indent();
    write_prefixed_lines(out, "where ", constraints);
    proof {
        lemma_mark_keeps(s3, inc_indent());
        assert(s3 + seq![inc_indent()] =~= s3.push(inc_indent()));
        lemma_prefixed_lines_closed("where "@, views(constraints@));
        lemma_boundary_after(s3.push(inc_indent()), prefixed_lines("where "@, views(constraints@)));
    }
    out.dedent();
    let ghost s4 = out@.buf;
    out.open_brace();
    proof {
        lemma_open_brace_boundary(s4);
        assert(out@.buf =~= start.buf + class_head_text(kw@, cs@, gen@, views(ifaces@), views(constraints@)));
    }
}

/// Appends the end of a class, after a line boundary inside its braces.
fn emit_class_tail(out: &mut Code, refs: &Vec<&ImplFacts>)
    requires
        impls_emittable(impl_values(refs@)),
        at_line_boundary(old(out)@.buf),
        old(out)@.indent > 0,
    ensures
        final(out)@ == class_tail_state(
            CodeState { buf: old(out)@.buf, indent: (old(out)@.indent - 1) as nat },
            impl_values(refs@),
        ),
        at_line_boundary(final(out)@.buf),
{
    let ghost start = old(out)@;
    let ghost impls = impl_values(refs@);
    emit_impls_methods(out, refs);
    proof {
        lemma_boundary_after(start.buf, impls_methods_text(impls));
    }
    let ghost s1 = out@.buf;
    out.close_brace();
    let ghost s2 = out@;
    proof {
        lemma_close_brace_boundary(s1);
        assert(s2.buf =~= start.buf + (impls_methods_text(impls) + seq![dec_indent()] + "}\n"@));
        lemma_blank_line_boundary(s2);
    }
    out.blank_line();
}

/// Appends the nested class of variant `v` of enum `cs`, whose full type is
/// `cs_type`.
fn emit_variant(out: &mut Code, cs_type: &str, cs: &str, v: &VariantFacts)
    requires
        old(out)@.indent + 2 < usize::MAX,
    ensures
        final(out)@ == variant_state(old(out)@, cs_type@, cs@, *v),
        at_line_boundary(final(out)@.buf),
{
    let ghost start = old(out)@;
    let v_name = variant_name(v.name.as_str());
    out.w("public ").w(cs).w("(").w(&v_name).wln(" value) => inner = value;");
    out.w("public sealed partial class ").wln(&v_name);
    let ghost s0 = out@.buf;
    out.open_brace();
    let ghost s1 = out@;
    proof {
        lemma_open_brace_boundary(s0);
        assert(s1.buf =~= start.buf + variant_head_text(cs@, v_name@));
    }
    emit_constructable_def(out, cs_type, v_name.as_str(), &v.def);
    let ghost s2 = out@.buf;
    proof {
        lemma_constructable_shift(start.push_text(variant_head_text(cs@, v_name@)), s1.indent, cs_type@, v_name@, v.def);
    }
    out.close_brace();
    let ghost s3 = out@;
    proof {
        lemma_close_brace_boundary(s2);
        lemma_blank_line_boundary(s3);
        assert(s3.buf =~= s2 + (seq![dec_indent()] + "}\n"@));
    }
    out.blank_line();
}

/// Appends the nested classes of `vs`.
fn emit_variants(out: &mut Code, cs_type: &str, cs: &str, vs: &Vec<VariantFacts>)
    requires
        old(out)@.indent + 2 < usize::MAX,
        at_line_boundary(old(out)@.buf),
    ensures
        final(out)@ == variants_state(old(out)@, cs_type@, cs@, vs@),
        at_line_boundary(final(out)@.buf),
{
    let ghost start = old(out)@;
    assert(vs@.take(0) =~= Seq::<VariantFacts>::empty());
    let mut i: usize = 0;
    while i < vs.len()
        invariant
            i <= vs@.len(),
            out@ == variants_state(start, cs_type@, cs@, vs@.take(i as int)),
            out@.indent == start.indent,
            start.indent + 2 < usize::MAX,
            at_line_boundary(out@.buf),
        decreases vs@.len() - i,
    {
        emit_variant(out, cs_type, cs, &vs[i]);
        proof {
            assert(vs@.take(i + 1).drop_last() =~= vs@.take(i as int));
            lemma_variants_shift(start, start.indent, cs_type@, cs@, vs@.take(i + 1));
        }
        i = i + 1;
    }
    assert(vs@.take(i as int) =~= vs@);
}

/// The C# name of `cs` with the generic parameters `gen`.
fn concat(a: &str, b: &str) -> (r: String)
    ensures
        r@ == a@ + b@,
{
    let mut r = to_string(a);
    push_str(&mut r, b);
    r
}

/// Appends the class of type `a` with its `impls` (see `adt_state`).
#[verifier::rlimit(50)]
pub fn emit_adt_with_impls(out: &mut Code, a: &AdtFacts, impls: &Vec<&ImplFacts>)
    requires
        impls_emittable(impl_values(impls@)),
        old(out)@.indent + 3 < usize::MAX,
    ensures
        final(out)@ == adt_state(old(out)@, *a, impl_values(impls@)),
        final(out)@.indent == old(out)@.indent,
        at_line_boundary(old(out)@.buf) ==> at_line_boundary(final(out)@.buf),
{
    let ghost start = old(out)@;
    if !is_emitted(&a.adt_item) {
        out.w("// Omit ").wln(&a.name);
        assert(out@.buf =~= start.buf + ("// Omit "@ + a.name@ + "\n"@));
        proof {
            reveal_strlit("\n");
            lemma_ends_newline(start.buf, "// Omit "@ + a.name@ + "\n"@);
        }
        return;
    }
    let cs_name = struct_name(a.name.as_str());
    if is_r2cs_native(&a.attrs) {
        out.w("// [r2cs_native] ").w(&cs_name).wln(" — add implementation in r2CsNative/");
        out.w("public partial class ").w(&cs_name).wln(" {}");
        assert(out@.buf =~= start.buf + native_text(cs_name@));
        proof {
            reveal_strlit("\n");
            lemma_ends_newline(start.buf, native_text(cs_name@));
            lemma_blank_line_boundary(out@);
        }
        out.blank_line();
        return;
    }
    let generics = format_generics(a.params.as_slice());
    let ifaces = interface_strings(impls, cs_name.as_str());
    let cs_type = concat(cs_name.as_str(), generics.as_str());
    match &a.shape {
        AdtShape::Struct(def) => {
            emit_class_head(out, "public partial class ", cs_name.as_str(), generics.as_str(), &ifaces, &a.constraints);
            let ghost s1 = out@;
            let ghost t1 = start.push_text(
                class_head_text("public partial class "@, cs_name@, generics@, views(ifaces@), views(a.constraints@)),
            );
            emit_constructable_def(out, cs_type.as_str(), cs_name.as_str(), def);
            proof {
                lemma_constructable_shift(t1, s1.indent, cs_type@, cs_name@, *def);
            }
            let ghost s2 = out@;
            out.blank_line();
            proof {
                lemma_blank_line_boundary(s2);
            }
            emit_class_tail(out, impls);
        },
        AdtShape::Enum(vs) => {
            out.wln("[global::System.Runtime.CompilerServices.UnionAttribute]");
            emit_class_head(
                out,
                "public sealed partial class ",
                cs_name.as_str(),
                generics.as_str(),
                &ifaces,
                &a.constraints,
            );
            out.wln("private object inner;");
            out.wln("public object Value => inner;");
            out.w("public void set(").w(&cs_name).w(&generics).wln(" o) => inner = o.inner;");
            let ghost s1 = out@;
            let ghost t1 = start.push_text(
                ("[global::System.Runtime.CompilerServices.UnionAttribute]"@ + "\n"@) + class_head_text(
                    "public sealed partial class "@,
                    cs_name@,
                    generics@,
                    views(ifaces@),
                    views(a.constraints@),
                ) + enum_members_text(cs_name@, generics@),
            );
            proof {
                reveal_strlit("\n");
                assert(s1.buf =~= t1.buf);
                lemma_ends_newline(Seq::empty(), enum_members_text(cs_name@, generics@));
                lemma_ends_newline(start.buf, t1.buf.subrange(start.buf.len() as int, t1.buf.len() as int));
                assert(start.buf + t1.buf.subrange(start.buf.len() as int, t1.buf.len() as int) =~= t1.buf);
                lemma_blank_line_boundary(s1);
            }
            out.blank_line();
            let ghost s2 = out@;
            emit_variants(out, cs_type.as_str(), cs_name.as_str(), vs);
            proof {
                lemma_variants_shift(blank_line_spec(t1), s2.indent, cs_type@, cs_name@, vs@);
            }
            emit_class_tail(out, impls);
        },
        AdtShape::Union => {},
    }
}

} // verus!
