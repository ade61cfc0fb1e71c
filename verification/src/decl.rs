//! C# declarations: trait interfaces and the parts of a function signature.
//!
//! What name resolution and type inference know of a trait or a function
//! (C# type texts, generic parameters, constraints) comes in as plain facts;
//! the layout of the declaration is computed here.

use vstd::prelude::*;
use crate::item_exclusion::{rust_path_spec, should_emit_spec, ItemFacts};
use crate::names::{assoc_type_param, const_name, generic_args, generic_args_spec, join_with, pascal_spec, trait_name};
use crate::options::CsFunctionType;
use crate::body::{lemma_boundary_after, lemma_ends_newline, lemma_mark_keeps, line_closed};
use crate::output::{at_line_boundary, blank_line_spec, dec_indent, inc_indent, Code};
use crate::text::{decimal, push_decimal, push_str, to_string, views};
use crate::types::join_strings;

verus! {

/// The C# return type of a function: a task of the return type for an
/// `async` function, `void` for a unit return type, else the return type.
pub open spec fn cs_ret_type_spec(is_async: bool, ret_ty_cs: Seq<char>, ret_is_unit: bool) -> Seq<char> {
    if is_async {
        "r2CsRuntime.RustTask<"@ + ret_ty_cs + ">"@
    } else if ret_is_unit {
        "void"@
    } else {
        ret_ty_cs
    }
}

/// The C# return type of a function whose return type is `ret_ty_cs` in
/// C#, unit where `ret_is_unit`.
pub fn cs_ret_type(is_async: bool, ret_ty_cs: &str, ret_is_unit: bool) -> (r: String)
    ensures
        r@ == cs_ret_type_spec(is_async, ret_ty_cs@, ret_is_unit),
{
    if is_async {
        let mut r = to_string("r2CsRuntime.RustTask<");
        push_str(&mut r, ret_ty_cs);
        push_str(&mut r, ">");
        r
    } else if ret_is_unit {
        to_string("void")
    } else {
        to_string(ret_ty_cs)
    }
}

/// The generic parameter list of a declaration: nothing without
/// parameters, else `<A, B, ...>`.
pub fn format_generics(tp_names: &[String]) -> (r: String)
    ensures
        r@ == generic_args_spec(Seq::empty(), views(tp_names@)),
{
    let base = String::new();
    assert(base@ =~= Seq::<char>::empty());
    generic_args(base, tp_names)
}

/// A parameter of a function other than `self`: its C# type and, where the
/// pattern binds a plain name, that name.
pub struct ParamFacts {
    pub cs_ty: String,
    pub name: Option<String>,
}

/// The trait that a default method belongs to: its C# interface and the C#
/// names of all its generic parameters.
pub struct TraitSelfFacts {
    pub itf: String,
    pub params: Vec<String>,
}

/// The C# name of parameter `i`: the local name of its binding with index
/// 0, or `p_<i>` where it binds no plain name.
pub open spec fn param_name_text(p: ParamFacts, i: nat) -> Seq<char> {
    match p.name {
        Some(n) => "l_"@ + n@ + "_"@ + decimal(0),
        None => "p_"@ + decimal(i),
    }
}

/// The C# declaration of parameter `i`: type, space, name.
pub open spec fn param_decl_text(p: ParamFacts, i: nat) -> Seq<char> {
    p.cs_ty@ + " "@ + param_name_text(p, i)
}

/// The declarations of `ps`, each with its position.
pub open spec fn param_decl_texts(ps: Seq<ParamFacts>) -> Seq<Seq<char>> {
    Seq::new(ps.len(), |i: int| param_decl_text(ps[i], i as nat))
}

/// The explicit `self` parameter of a default method: the trait interface
/// with its parameters, then `self`.
pub open spec fn self_param_text(t: TraitSelfFacts) -> Seq<char> {
    generic_args_spec(t.itf@, views(t.params@)) + " self"@
}

/// Whether a function of kind `function_type` gets an explicit `self`
/// parameter: a default method that takes `self`.
pub open spec fn explicit_self(function_type: CsFunctionType, has_self: bool) -> bool {
    function_type is TraitDefaultImpl && has_self
}

/// The C# parameter list: the explicit `self` parameter where there is one,
/// then the declaration of each parameter, joined with `, `.
pub open spec fn param_list_spec(
    params: Seq<ParamFacts>,
    function_type: CsFunctionType,
    has_self: bool,
    trait_self: Option<TraitSelfFacts>,
) -> Seq<char> {
    if explicit_self(function_type, has_self) {
        join_with(seq![self_param_text(trait_self.unwrap())] + param_decl_texts(params), ", "@)
    } else {
        join_with(param_decl_texts(params), ", "@)
    }
}

fn self_param(t: &TraitSelfFacts) -> (r: String)
    ensures
        r@ == self_param_text(*t),
{
    let mut r = generic_args(t.itf.clone(), t.params.as_slice());
    push_str(&mut r, " self");
    r
}

fn param_decl(p: &ParamFacts, i: usize) -> (r: String)
    ensures
        r@ == param_decl_text(*p, i as nat),
{
    let mut r = p.cs_ty.clone();
    push_str(&mut r, " ");
    match &p.name {
        Some(n) => {
            let l = crate::names::local_name(n.as_str(), 0);
            push_str(&mut r, l.as_str());
        },
        None => {
            push_str(&mut r, "p_");
            push_decimal(&mut r, i as u128);
        },
    }
    r
}

/// The C# parameter list of a function of kind `function_type` with
/// parameters `params` (`self` aside); a default method that takes `self`
/// gets it as an explicit first parameter typed by the trait it belongs to.
pub fn build_param_list(
    params: &Vec<ParamFacts>,
    function_type: CsFunctionType,
    has_self: bool,
    trait_self: &Option<TraitSelfFacts>,
) -> (r: String)
    requires
        explicit_self(function_type, has_self) ==> trait_self is Some,
    ensures
        r@ == param_list_spec(params@, function_type, has_self, *trait_self),
{
    let mut parts: Vec<String> = Vec::new();
    let ghost head: Seq<Seq<char>> = if explicit_self(function_type, has_self) {
        seq![self_param_text(trait_self.unwrap())]
    } else {
        Seq::empty()
    };
    let is_default = match function_type {
        CsFunctionType::TraitDefaultImpl => true,
        _ => false,
    };
    if is_default && has_self {
        match trait_self {
            Some(t) => {
                parts.push(self_param(t));
            },
            None => {},
        }
    }
    assert(views(parts@) =~= head);
    let ghost decls = param_decl_texts(params@);
    let mut i: usize = 0;
    while i < params.len()
        invariant
            i <= params@.len(),
            decls == param_decl_texts(params@),
            views(parts@) =~= head + decls.take(i as int),
        decreases params@.len() - i,
    {
        let d = param_decl(&params[i], i);
        let ghost before = parts@;
        parts.push(d);
        assert(views(parts@) =~= views(before).push(decls[i as int]));
        assert(views(parts@) =~= head + decls.take(i + 1));
        i = i + 1;
    }
    assert(decls.take(i as int) =~= decls);
    join_strings(&parts, ", ")
}

/// An item of a trait. A function comes with what the declaration needs of
/// it: whether it takes `self`, whether it requires `Self: Sized`
/// explicitly, whether it has a default body, and the item with what the
/// crate's configuration says of its `cfg` attributes (for the exclusion
/// rules). A constant comes with its name, if it has one, and its C# type.
pub enum TraitItemFacts {
    Function {
        has_self: bool,
        explicit_sized_self: bool,
        has_body: bool,
        item: ItemFacts,
        cfg_check: Option<Option<bool>>,
    },
    Const { name: Option<String>, cs_ty: String },
    TypeAlias { alias: String },
}

/// A trait as its interface needs it: its name; the text of each reason it
/// is not dyn compatible, or `None` where it is; the C# names of its
/// generic parameters and their constraints; and the C# path of each super
/// trait other than itself.
pub struct TraitFacts {
    pub name: String,
    pub dyn_violations: Option<Vec<String>>,
    pub params: Vec<String>,
    pub constraints: Vec<String>,
    pub super_traits: Vec<String>,
    pub items: Vec<TraitItemFacts>,
}

/// Whether the trait has an associated function that needs a static
/// interface: one without `self` that does not require `Self: Sized`.
pub open spec fn needs_statics_spec(items: Seq<TraitItemFacts>) -> bool {
    exists|i: int|
        0 <= i < items.len() && (#[trigger] items[i] matches TraitItemFacts::Function { has_self, explicit_sized_self, .. }
            && !has_self && !explicit_sized_self)
}

/// Whether the interface of a trait with `items` can be written: no
/// function of it gets a signature there. A method, a static function that
/// needs the static interface, or a default body that is translated would
/// each get one, and writing a signature stops the generator (it indents
/// after an unfinished line).
pub open spec fn trait_items_emittable(items: Seq<TraitItemFacts>) -> bool {
    &&& !needs_statics_spec(items)
    &&& forall|i: int|
        0 <= i < items.len() ==> match #[trigger] items[i] {
            TraitItemFacts::Function { has_self, has_body, item, cfg_check, .. } => !has_self
                && !(has_body && should_emit_spec(rust_path_spec(item), cfg_check)),
            _ => true,
        }
}

/// `prefix`, `x` and a newline for each `x` of `xs`, in order.
pub open spec fn prefixed_lines(prefix: Seq<char>, xs: Seq<Seq<char>>) -> Seq<char>
    decreases xs.len(),
{
    if xs.len() == 0 {
        Seq::empty()
    } else {
        prefixed_lines(prefix, xs.drop_last()) + prefix + xs.last() + "\n"@
    }
}

/// The comment lines on dyn compatibility: one per violation, or one
/// saying that the trait is dyn compatible.
pub open spec fn dyn_comment_text(violations: Option<Vec<String>>) -> Seq<char> {
    match violations {
        Some(vs) => prefixed_lines("// dyn incompatible with "@, views(vs@)),
        None => "// dyn compatible"@ + "\n"@,
    }
}

/// The super traits after the interface name: nothing without any, else
/// ` : ` and their paths joined with `, `.
pub open spec fn supers_text(paths: Seq<Seq<char>>) -> Seq<char> {
    if paths.len() == 0 {
        Seq::empty()
    } else {
        " : "@ + join_with(paths, ", "@)
    }
}

/// The line of a trait item in the interface: a constant with a name
/// becomes a method returning it, an associated type a comment; a function
/// that the interface can hold writes nothing there.
pub open spec fn trait_item_text(it: TraitItemFacts) -> Seq<char> {
    match it {
        TraitItemFacts::Const { name: Some(n), cs_ty } => cs_ty@ + " "@ + ("c_"@ + n@) + ("(); // const"@ + "\n"@),
        TraitItemFacts::TypeAlias { alias } => "// type "@ + ("A_"@ + alias@) + (";"@ + "\n"@),
        _ => Seq::empty(),
    }
}

/// The lines of `items`, in order.
pub open spec fn trait_items_text(items: Seq<TraitItemFacts>) -> Seq<char>
    decreases items.len(),
{
    if items.len() == 0 {
        Seq::empty()
    } else {
        trait_items_text(items.drop_last()) + trait_item_text(items.last())
    }
}

/// The head of the interface of trait `t`: the dyn compatibility
/// comments, the `public interface` line with the name, generic parameters
/// and super traits, and the `where` lines, indented one step.
pub open spec fn trait_head_text(t: TraitFacts) -> Seq<char> {
    dyn_comment_text(t.dyn_violations)
        + "public interface "@ + ("t_"@ + pascal_spec(t.name@))
        + generic_args_spec(Seq::empty(), views(t.params@)) + supers_text(views(t.super_traits@)) + "\n"@
        + seq![inc_indent()] + prefixed_lines("where "@, views(t.constraints@)) + seq![dec_indent()]
}

/// The interface of trait `t`, with its indentation marks: its head, then
/// in braces the item lines and an empty `Defaults` class.
pub open spec fn trait_text(t: TraitFacts) -> Seq<char> {
    trait_head_text(t)
        + "{\n"@ + seq![inc_indent()]
        + trait_items_text(t.items@)
        + ("public static class Defaults"@ + "\n"@) + "{\n"@ + seq![inc_indent()] + seq![dec_indent()] + "}\n"@
        + seq![dec_indent()] + "}\n"@
}

/// `prefix`, `x` and a newline for each `x` of `xs` leave the last line
/// closed.
pub(crate) proof fn lemma_prefixed_lines_closed(prefix: Seq<char>, xs: Seq<Seq<char>>)
    ensures
        line_closed(prefixed_lines(prefix, xs)),
{
    reveal_strlit("\n");
    let t = prefixed_lines(prefix, xs);
    if xs.len() > 0 {
        lemma_ends_newline(Seq::empty(), t);
    }
}

/// The line of a trait item leaves the last line closed.
proof fn lemma_trait_item_closed(it: TraitItemFacts)
    ensures
        line_closed(trait_item_text(it)),
{
    reveal_strlit("\n");
    let t = trait_item_text(it);
    if t.len() > 0 {
        lemma_ends_newline(Seq::empty(), t);
    }
}

/// After an opening brace and its indentation mark, a mark may follow.
pub(crate) proof fn lemma_open_brace_boundary(x: Seq<char>)
    ensures
        at_line_boundary(x + "{\n"@ + seq![inc_indent()]),
{
    reveal_strlit("{\n");
    lemma_ends_newline(x, "{\n"@);
    lemma_mark_keeps(x + "{\n"@, inc_indent());
}

/// After a closing brace, a mark may follow.
pub(crate) proof fn lemma_close_brace_boundary(x: Seq<char>)
    ensures
        at_line_boundary(x + seq![dec_indent()] + "}\n"@),
{
    reveal_strlit("}\n");
    lemma_ends_newline(x + seq![dec_indent()], "}\n"@);
}

/// Appends `prefix`, `x` and a newline for each `x` of `xs`.
pub(crate) fn write_prefixed_lines(out: &mut Code, prefix: &str, xs: &Vec<String>)
    ensures
        final(out)@ == old(out)@.push_text(prefixed_lines(prefix@, views(xs@))),
{
    let ghost start = old(out)@;
    let ghost vs = views(xs@);
    let mut i: usize = 0;
    assert(vs.take(0) =~= Seq::<Seq<char>>::empty());
    assert(start.push_text(Seq::empty()).buf =~= start.buf);
    while i < xs.len()
        invariant
            i <= xs@.len(),
            vs == views(xs@),
            out@ == start.push_text(prefixed_lines(prefix@, vs.take(i as int))),
        decreases xs@.len() - i,
    {
        out.w(prefix).wln(&xs[i]);
        assert(vs.take(i + 1).drop_last() =~= vs.take(i as int));
        assert(out@.buf =~= start.buf + prefixed_lines(prefix@, vs.take(i + 1)));
        i = i + 1;
    }
    assert(vs.take(i as int) =~= vs);
}

/// Appends the head of the interface of trait `t`.
#[verifier::rlimit(50)]
fn emit_trait_head(out: &mut Code, t: &TraitFacts)
    requires
        old(out)@.indent + 1 < usize::MAX,
    ensures
        final(out)@ == old(out)@.push_text(trait_head_text(*t)),
        at_line_boundary(final(out)@.buf),
{
    let ghost start = old(out)@;
    match &t.dyn_violations {
        Some(vs) => {
            write_prefixed_lines(out, "// dyn incompatible with ", vs);
        },
        None => {
            out.wln("// dyn compatible");
        },
    }
    let ghost s1 = out@.buf;
    assert(s1 == start.buf + dyn_comment_text(t.dyn_violations));
    let iface = trait_name(t.name.as_str());
    let generics = format_generics(t.params.as_slice());
    out.w("public interface ").w(&iface).w(&generics);
    let ghost s2 = out@.buf;
    assert(s2 == s1 + "public interface "@ + iface@ + generics@);
    if t.super_traits.len() > 0 {
        let supers = join_strings(&t.super_traits, ", ");
        out.w(" : ").w(&supers);
    }
    out.w("\n");
    let ghost s3 = out@.buf;
    proof {
        reveal_strlit("\n");
        assert(s3 =~= s2 + (supers_text(views(t.super_traits@)) + "\n"@));
        lemma_ends_newline(s2, supers_text(views(t.super_traits@)) + "\n"@);
        lemma_mark_keeps(s3, inc_indent());
        assert(s3 + seq![inc_indent()] =~= s3.push(inc_indent()));
    }
    out.indent();
    write_prefixed_lines(out, "where ", &t.constraints);
    let ghost s4 = out@.buf;
    proof {
        lemma_prefixed_lines_closed("where "@, views(t.constraints@));
        lemma_boundary_after(s3.push(inc_indent()), prefixed_lines("where "@, views(t.constraints@)));
        lemma_mark_keeps(s4, dec_indent());
        assert(s4 + seq![dec_indent()] =~= s4.push(dec_indent()));
    }
    out.dedent();
    proof {
        let w = prefixed_lines("where "@, views(t.constraints@));
        let head = "public interface "@ + ("t_"@ + pascal_spec(t.name@))
            + generic_args_spec(Seq::empty(), views(t.params@)) + supers_text(views(t.super_traits@)) + "\n"@;
        assert(s3 =~= s1 + head);
        assert(out@.buf =~= s3 + seq![inc_indent()] + w + seq![dec_indent()]);
        assert(trait_head_text(*t) =~= dyn_comment_text(t.dyn_violations) + head + seq![inc_indent()] + w
            + seq![dec_indent()]);
        assert(out@.buf =~= start.buf + trait_head_text(*t));
    }
}

/// Appends the lines of `items`, after a line boundary.
fn emit_trait_items(out: &mut Code, items: &Vec<TraitItemFacts>)
    requires
        at_line_boundary(old(out)@.buf),
    ensures
        final(out)@ == old(out)@.push_text(trait_items_text(items@)),
        at_line_boundary(final(out)@.buf),
{
    let ghost start = old(out)@;
    assert(start.push_text(trait_items_text(items@.take(0))) =~= start) by {
        assert(start.buf + Seq::<char>::empty() =~= start.buf);
    }
    let mut i: usize = 0;
    while i < items.len()
        invariant
            i <= items@.len(),
            out@ == start.push_text(trait_items_text(items@.take(i as int))),
            at_line_boundary(out@.buf),
        decreases items@.len() - i,
    {
        let ghost before = out@.buf;
        match &items[i] {
            TraitItemFacts::Const { name: Some(n), cs_ty } => {
                let c_name = const_name(n.as_str());
                out.w(cs_ty).w(" ").w(&c_name).wln("(); // const");
            },
            TraitItemFacts::TypeAlias { alias } => {
                let a_name = assoc_type_param(alias.as_str());
                out.w("// type ").w(&a_name).wln(";");
            },
            _ => {},
        }
        proof {
            assert(items@.take(i + 1).drop_last() =~= items@.take(i as int));
            assert(out@.buf =~= before + trait_item_text(items@[i as int]));
            assert(out@.buf =~= start.buf + trait_items_text(items@.take(i + 1)));
            lemma_trait_item_closed(items@[i as int]);
            lemma_boundary_after(before, trait_item_text(items@[i as int]));
        }
        i = i + 1;
    }
    assert(items@.take(i as int) =~= items@);
}

/// Appends the interface of trait `t` to `out`, then starts a blank line
/// unless `out` already ends with one.
pub fn emit_trait(out: &mut Code, t: &TraitFacts)
    requires
        trait_items_emittable(t.items@),
        old(out)@.indent + 1 < usize::MAX,
    ensures
        final(out)@ == blank_line_spec(old(out)@.push_text(trait_text(*t))),
        at_line_boundary(final(out)@.buf),
{
    let ghost start = old(out)@;
    emit_trait_head(out, t);
    let ghost s4 = out@.buf;
    out.open_brace();
    proof {
        lemma_open_brace_boundary(s4);
    }
    emit_trait_items(out, &t.items);
    out.wln("public static class Defaults");
    let ghost s7 = out@.buf;
    out.open_brace();
    proof {
        lemma_open_brace_boundary(s7);
    }
    let ghost s8 = out@.buf;
    out.close_brace();
    proof {
        lemma_close_brace_boundary(s8);
    }
    let ghost s9 = out@.buf;
    out.close_brace();
    assert(out@.buf =~= start.buf + trait_text(*t));
    proof {
        lemma_close_brace_boundary(s9);
        crate::adt::lemma_blank_line_boundary(out@);
    }
    out.blank_line();
}

} // verus!
