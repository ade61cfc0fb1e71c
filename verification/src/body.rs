//! Function bodies as C# code: expressions, statements and blocks.
//!
//! What name resolution and type inference say of a node (what a path,
//! field or method names, a type's C# rendering, whether a `cfg` attribute
//! holds) is handed in as plain facts, keyed by the node's syntax node. A
//! spec function gives each node's code and the emitter state after it, or
//! `None` where emitting it would fail (a fact that the node needs is
//! missing, or the node cannot stand where it does).

use vstd::prelude::*;
use crate::eir::{
    AstRef, BlockExpr, BlockModifier, ChildrenContainer, ClosureExpr, ElseBranch, Expr, FormatArgsSegment,
    IfExpr, MatchArm, NodeInfo, Param, Pat, RangeOp, RecordExprField, Stmt, expr_info,
};
use crate::emitter::{
    bin_expr_text, call_ok, call_text, escape_seq, literal_text, prefix_expr_text, LiteralValue, NamesState,
};
use crate::function_resolution::ResolvedFunction;
use crate::names::{camel_spec, generic_args_spec, join_with};
use crate::patterns::{name_ref_text, pat_emit, pat_ok, PatFact, PatFacts};
use crate::text::{decimal, push_str, to_string, views};
use crate::emitter::BindingNames;
use crate::eir::{Function, ParamList};
use crate::options::CsFunctionType;
use crate::output::Code;
use crate::patterns::{code_of, emit_pattern, lookup_fact, lookup_name};
use crate::emitter::emit_call_expr;

verus! {

/// The context of the code being emitted: whether it is inside an async
/// function or block, and whether what it returns is the unit type.
#[derive(Copy, Clone)]
pub struct EmitCtx {
    pub is_async: bool,
    pub returns_unit: bool,
}

/// What the emitter has recorded: the binding names, the counter that
/// numbers temporaries, and the inner items whose emission is deferred.
pub struct EmitState {
    pub names: NamesState,
    pub match_index: nat,
    pub deferred: Seq<AstRef>,
}

/// What a path to a tuple-like or unit constructor builds.
#[derive(Copy, Clone)]
pub enum CtorKind {
    Unit,
    Tuple,
    Other,
}

/// What a field access resolves to.
pub enum FieldTarget {
    /// A named field: its C# name.
    Named(String),
    /// A tuple field: its index.
    Index(usize),
    Unresolved,
}

/// What name resolution and type inference say of one expression node.
pub enum ExprFact {
    /// A path to a function: the resolved function with the C# rendering
    /// of its self type and type arguments, and its number of parameters.
    FunctionPath { resolved: ResolvedFunction, self_cs: String, generic_cs: Vec<String>, num_params: usize },
    /// A path to a struct or variant constructor (or to `Self` of a
    /// struct): its C# name and kind.
    CtorPath { cs_name: String, kind: CtorKind },
    /// `Self` of something other than a struct.
    SelfPath,
    /// A path to a local, and how it reads where the local has no name.
    LocalPath { local: AstRef, unbound: String },
    /// A path to a constant or static: its C# path.
    ItemPath(String),
    /// A path to a generic parameter.
    TypeParamPath,
    /// A path that resolves to none of these, or does not resolve: its
    /// source text.
    OtherPath(String),
    /// A field access: whether the receiver is dereferenced first, and the
    /// field.
    Field { deref_adjusted: bool, target: FieldTarget },
    /// A method call that resolves to a function: the function with the C#
    /// rendering of its self type and type arguments.
    MethodCall { resolved: ResolvedFunction, self_cs: String, generic_cs: Vec<String> },
    /// A call of a path to a tuple constructor: the constructed type's C#
    /// name.
    CtorCall(String),
    /// A call of a path to a function.
    FunctionCall { resolved: ResolvedFunction, self_cs: String, generic_cs: Vec<String> },
    /// The C# type a node needs: a cast's target, the element type of a
    /// range, array or vector.
    Type(String),
    /// A struct literal of a struct or variant: its C# name.
    RecordCtor(String),
    /// A struct literal whose type is unknown: its source text.
    TypelessRecord(String),
    /// A union literal: its source text.
    UnionRecord(String),
    /// An async block: the C# type of its output, and whether it is unit.
    AsyncBlock { return_cs: String, returns_unit: bool },
    /// A closure: whether its output is the unit type.
    Closure { returns_unit: bool },
    /// A literal's value.
    Literal(LiteralValue),
}

/// What an item declared in a body is.
pub enum ItemFact {
    Fn(String),
    Enum(String),
    Struct(String),
    Impl,
    Const,
    /// Any other item: how it reads.
    Other(String),
}

/// A local declared without initializer: its Rust name and C# type.
pub struct LocalInfo {
    pub rust_name: String,
    pub ty_cs: String,
}

/// The facts of one body.
pub struct ExprFacts {
    pub exprs: Vec<(u64, ExprFact)>,
    pub pats: PatFacts,
    /// The nodes whose `cfg` attributes do not hold.
    pub cfg_off: Vec<u64>,
    /// The locals, by the syntax node of their binding.
    pub locals: Vec<(u64, LocalInfo)>,
    pub items: Vec<(u64, ItemFact)>,
}

/// The last entry recorded for `id`.
pub open spec fn lookup<T>(s: Seq<(u64, T)>, id: u64) -> Option<T>
    decreases s.len(),
{
    if s.len() == 0 {
        None
    } else if s.last().0 == id {
        Some(s.last().1)
    } else {
        lookup(s.drop_last(), id)
    }
}

/// The fact of an expression node.
pub open spec fn expr_fact(facts: ExprFacts, info: NodeInfo<AstRef>) -> Option<ExprFact> {
    match info {
        NodeInfo::Ast(a) => lookup(facts.exprs@, a.id),
        NodeInfo::NoAst => None,
    }
}

/// Whether a node's `cfg` attributes hold (a node without syntax node has
/// none).
pub open spec fn cfg_on(facts: ExprFacts, info: NodeInfo<AstRef>) -> bool {
    match info {
        NodeInfo::Ast(a) => !facts.cfg_off@.contains(a.id),
        NodeInfo::NoAst => true,
    }
}

/// The C# name of a loop label: its lifetime without the quote, in
/// camelCase.
pub open spec fn label_text(facts: ExprFacts, l: AstRef) -> Option<Seq<char>> {
    match crate::patterns::text_in(facts.pats.names@, l.id) {
        Some(t) => if t.len() >= 1 { Some(camel_spec(t.drop_first())) } else { None },
        None => None,
    }
}

/// `label: ` before a loop, if it has a label.
pub open spec fn label_prefix(facts: ExprFacts, l: Option<AstRef>) -> Option<Seq<char>> {
    match l {
        None => Some(Seq::empty()),
        Some(a) => match label_text(facts, a) {
            Some(t) => Some(t + ": "@),
            None => None,
        },
    }
}

/// ` /*label*/` after `break` or `continue`, if it has a label.
pub open spec fn label_comment(facts: ExprFacts, l: Option<AstRef>) -> Option<Seq<char>> {
    match l {
        None => Some(Seq::empty()),
        Some(a) => match label_text(facts, a) {
            Some(t) => Some(" /*"@ + t + "*/"@),
            None => None,
        },
    }
}

/// The state with the binding names `n`.
pub open spec fn with_names(st: EmitState, n: NamesState) -> EmitState {
    EmitState { names: n, match_index: st.match_index, deferred: st.deferred }
}

/// A pattern's code from state `st`, if it can be emitted.
pub open spec fn pat_step(p: Pat, facts: ExprFacts, st: EmitState) -> Option<(Seq<char>, EmitState)> {
    if pat_ok(p, facts.pats) {
        let (t, n) = pat_emit(p, facts.pats, st.names);
        Some((t, with_names(st, n)))
    } else {
        None
    }
}

/// The parameters `_p_0 .. _p_{n-1}` of a function wrapped in a lambda.
pub open spec fn lambda_params(n: nat) -> Seq<Seq<char>> {
    Seq::new(n, |i: int| "_p_"@ + decimal(i as nat))
}

/// The code of a path to a function: a static or module function without
/// argument map by its path, any other wrapped in a lambda that calls it.
pub open spec fn function_path_text(f: ResolvedFunction, self_cs: Seq<char>, generic_cs: Seq<Seq<char>>, n: nat) -> Option<Seq<char>> {
    match f {
        ResolvedFunction::Static { function_name, args_map: None, .. } => Some(
            generic_args_spec(self_cs + "."@ + function_name@, generic_cs),
        ),
        ResolvedFunction::ModuleFunction { function_path, args_map: None, .. } => Some(function_path@),
        _ => if call_ok(f, n) {
            Some("(("@ + join_with(lambda_params(n), ", "@) + ") => "@ + call_text(f, lambda_params(n), self_cs, generic_cs)
                + ")"@)
        } else {
            None
        },
    }
}

/// The code of a path expression.
pub open spec fn path_text(fact: Option<ExprFact>, st: EmitState) -> Option<Seq<char>> {
    match fact {
        Some(ExprFact::FunctionPath { resolved, self_cs, generic_cs, num_params }) => function_path_text(
            resolved,
            self_cs@,
            views(generic_cs@),
            num_params as nat,
        ),
        Some(ExprFact::CtorPath { cs_name, kind }) => Some(
            match kind {
                CtorKind::Unit => cs_name@ + ".instance"@,
                CtorKind::Tuple => cs_name@ + ".ctor"@,
                CtorKind::Other => "new /* unexpected struct/enum kind and infer */ UnknownType"@,
            },
        ),
        Some(ExprFact::SelfPath) => Some("(ImplSelf)"@),
        Some(ExprFact::LocalPath { local, unbound }) => Some(
            match st.names.name(local) {
                Some(n) => n,
                None => unbound@,
            },
        ),
        Some(ExprFact::ItemPath(p)) => Some(p@),
        Some(ExprFact::TypeParamPath) => Some("(GenericParam)"@),
        Some(ExprFact::OtherPath(t)) => Some("/* "@ + t@ + " */"@),
        _ => None,
    }
}

/// The code of a field access on receiver code `r`.
pub open spec fn field_text(fact: Option<ExprFact>, r: Seq<char>) -> Option<Seq<char>> {
    match fact {
        Some(ExprFact::Field { deref_adjusted, target }) => {
            let adj = if deref_adjusted { ".m_Deref()"@ } else { Seq::empty() };
            match target {
                FieldTarget::Unresolved => Some(r + adj + "./* unresolved field */"@),
                FieldTarget::Named(n) => Some(r + adj + "."@ + n@),
                FieldTarget::Index(i) => if i < usize::MAX {
                    Some(r + adj + ".Item"@ + decimal((i + 1) as nat))
                } else {
                    None
                },
            }
        },
        _ => None,
    }
}

/// A range's code on its emitted ends and element type.
pub open spec fn range_text(start: Option<Seq<char>>, op: RangeOp, end: Option<Seq<char>>, ty: Seq<char>) -> Seq<char> {
    match (start, op, end) {
        (Some(s), RangeOp::Exclusive, Some(e)) => "Range<"@ + ty + ">.NewRange("@ + s + ", "@ + e + ")"@,
        (Some(s), RangeOp::Inclusive, Some(e)) => "Range<"@ + ty + ">.NewRangeInclusive("@ + s + ", "@ + e + ")"@,
        (Some(s), _, None) => "Range<"@ + ty + ">.NewRangeFrom("@ + s + ")"@,
        (None, _, None) => "RangeFull.NewRangeFull()"@,
        (None, RangeOp::Exclusive, Some(e)) => "Range<"@ + ty + ">.NewRangeTo("@ + e + ")"@,
        (None, RangeOp::Inclusive, Some(e)) => "Range<"@ + ty + ">.NewRangeToInclusive("@ + e + ")"@,
    }
}

/// The statement that returns from a function without value.
pub open spec fn return_void_text(ctx: EmitCtx) -> Seq<char> {
    if ctx.is_async {
        ("return default(global::System.ValueTuple); // void"@ + "\n"@)
    } else {
        ("return;"@ + "\n"@)
    }
}

/// The statement for code that cannot be reached.
pub open spec fn unreachable_text() -> Seq<char> {
    ("throw new Exception(\"unreachable\");"@ + "\n"@)
}

/// The counter after numbering one more temporary (wrapping around).
pub open spec fn bump(i: nat) -> nat {
    if i >= usize::MAX { 0 } else { i + 1 }
}


/// The state after deferring the emission of inner item `a`.
pub open spec fn defer(st: EmitState, a: AstRef) -> EmitState {
    EmitState { names: st.names, match_index: st.match_index, deferred: st.deferred.push(a) }
}

/// The indentation marks, as text.
pub open spec fn inc() -> Seq<char> {
    seq![crate::output::inc_indent()]
}

pub open spec fn dec() -> Seq<char> {
    seq![crate::output::dec_indent()]
}

/// `let pat = value;` where the pattern must match: an identifier binds a
/// new local, any other pattern is tested and the code that follows a
/// failed test cannot be reached.
pub open spec fn let_unreachable(pat: Pat, value: Seq<char>, facts: ExprFacts, st: EmitState) -> Option<(Seq<char>, EmitState)> {
    match pat {
        Pat::IdentPat(i) => match crate::patterns::fact_of(facts.pats, i.node_info) {
            Some(PatFact::Local(rust)) => Some((
                "var "@ + st.names.next_name(rust@) + " = "@ + value + (";"@ + "\n"@),
                with_names(st, st.names.bind(i.name, rust@)),
            )),
            _ => None,
        },
        _ => match pat_step(pat, facts, st) {
            Some((p, st1)) => Some(("if (!("@ + value + " is "@ + p + ")) "@ + unreachable_text(), st1)),
            None => None,
        },
    }
}

/// The declarations of locals `bs` without initializer: each with its
/// type, a new name and `default!`.
pub open spec fn uninit_let(bs: Seq<AstRef>, facts: ExprFacts, st: EmitState) -> Option<(Seq<char>, EmitState)>
    decreases bs.len(),
{
    if bs.len() == 0 {
        Some((Seq::empty(), st))
    } else {
        match uninit_let(bs.drop_last(), facts, st) {
            Some((t, st1)) => match lookup(facts.locals@, bs.last().id) {
                Some(info) => Some((
                    t + info.ty_cs@ + " "@ + st1.names.next_name(info.rust_name@) + (" = (default!);"@ + "\n"@),
                    with_names(st1, st1.names.bind(bs.last(), info.rust_name@)),
                )),
                None => None,
            },
            None => None,
        }
    }
}

/// Whether a closure parameter is an identifier that binds a local.
pub open spec fn binds_param(p: Pat, facts: ExprFacts) -> bool {
    match p {
        Pat::IdentPat(i) => crate::patterns::fact_of(facts.pats, i.node_info) matches Some(PatFact::Local(_)),
        _ => false,
    }
}

/// The name of a closure's parameter at position `i`: a new local for an
/// identifier that binds one, `__cp<i>` for any other pattern.
pub open spec fn param_name(p: Param, i: nat, facts: ExprFacts, st: EmitState) -> (Seq<char>, EmitState) {
    match p.pat {
        Pat::IdentPat(ip) => match crate::patterns::fact_of(facts.pats, ip.node_info) {
            Some(PatFact::Local(rust)) => (st.names.next_name(rust@), with_names(st, st.names.bind(ip.name, rust@))),
            _ => ("__cp"@ + decimal(i), st),
        },
        _ => ("__cp"@ + decimal(i), st),
    }
}

/// The names of a closure's parameters `ps`, in order.
pub open spec fn param_names(ps: Seq<Param>, facts: ExprFacts, st: EmitState) -> (Seq<Seq<char>>, EmitState)
    decreases ps.len(),
{
    if ps.len() == 0 {
        (Seq::empty(), st)
    } else {
        let (ns, st1) = param_names(ps.drop_last(), facts, st);
        let (n, st2) = param_name(ps.last(), (ps.len() - 1) as nat, facts, st1);
        (ns.push(n), st2)
    }
}

/// The tests of a closure's parameters `ps` that are no binding
/// identifiers, each against its `__cp<i>`, in order.
pub open spec fn param_lets(ps: Seq<Param>, facts: ExprFacts, st: EmitState) -> Option<(Seq<char>, EmitState)>
    decreases ps.len(),
{
    if ps.len() == 0 {
        Some((Seq::empty(), st))
    } else {
        match param_lets(ps.drop_last(), facts, st) {
            Some((t, st1)) => if binds_param(ps.last().pat, facts) {
                Some((t, st1))
            } else {
                match let_unreachable(ps.last().pat, "__cp"@ + decimal((ps.len() - 1) as nat), facts, st1) {
                    Some((t2, st2)) => Some((t + t2, st2)),
                    None => None,
                }
            },
            None => None,
        }
    }
}

/// The code of an expression, standing as a statement or not, and the
/// state after it (see `emit_expr`).
pub open spec fn expr_code(e: Expr, statement: bool, ctx: EmitCtx, facts: ExprFacts, st: EmitState) -> Option<(Seq<char>, EmitState)>
    decreases e, 0nat,
{
    match e {
        Expr::Literal(l) => match expr_fact(facts, l.node_info) {
            Some(ExprFact::Literal(v)) => Some((literal_text(v), st)),
            _ => None,
        },
        Expr::PathExpr(p) => match path_text(expr_fact(facts, p.node_info), st) {
            Some(t) => Some((t, st)),
            None => None,
        },
        Expr::FieldExpr(f) => match expr_code(*f.expr, false, ctx, facts, st) {
            Some((r, st1)) => match field_text(expr_fact(facts, f.node_info), r) {
                Some(t) => Some((t, st1)),
                None => None,
            },
            None => None,
        },
        Expr::MethodCallExpr(m) => match expr_code(*m.receiver, false, ctx, facts, st) {
            Some((recv, st1)) => match expr_fact(facts, m.node_info) {
                Some(ExprFact::MethodCall { resolved, self_cs, generic_cs }) => if resolved is OmitCall {
                    Some((call_text(resolved, seq![recv], self_cs@, views(generic_cs@)), st1))
                } else {
                    match exprs_code(m.arg_list.args, ctx, facts, st1) {
                        Some((args, st2)) => if call_ok(resolved, args.len() + 1) {
                            Some((call_text(resolved, seq![recv] + args, self_cs@, views(generic_cs@)), st2))
                        } else {
                            None
                        },
                        None => None,
                    }
                },
                _ => match name_ref_text(facts.pats, m.name_ref) {
                    Some(name) => match exprs_code(m.arg_list.args, ctx, facts, st1) {
                        Some((args, st2)) => Some((recv + "."@ + name + "("@ + join_with(args, ", "@) + ")"@, st2)),
                        None => None,
                    },
                    None => None,
                },
            },
            None => None,
        },
        Expr::CallExpr(c) => match expr_fact(facts, c.node_info) {
            Some(ExprFact::CtorCall(ty)) => match exprs_code(c.arg_list.args, ctx, facts, st) {
                Some((args, st1)) => Some((ty@ + ".ctor("@ + join_with(args, ", "@) + ")"@, st1)),
                None => None,
            },
            Some(ExprFact::FunctionCall { resolved, self_cs, generic_cs }) => if resolved is OmitCall {
                match c.arg_list.args {
                    ChildrenContainer::More(first, _) => match expr_code(*first, false, ctx, facts, st) {
                        Some((a, st1)) => Some((call_text(resolved, seq![a], self_cs@, views(generic_cs@)), st1)),
                        None => None,
                    },
                    ChildrenContainer::Empty => None,
                }
            } else {
                match exprs_code(c.arg_list.args, ctx, facts, st) {
                    Some((args, st1)) => if call_ok(resolved, args.len()) {
                        Some((call_text(resolved, args, self_cs@, views(generic_cs@)), st1))
                    } else {
                        None
                    },
                    None => None,
                }
            },
            _ => match expr_code(*c.expr, false, ctx, facts, st) {
                Some((callee, st1)) => match exprs_code(c.arg_list.args, ctx, facts, st1) {
                    Some((args, st2)) => Some((callee + "("@ + join_with(args, ", "@) + ")"@, st2)),
                    None => None,
                },
                None => None,
            },
        },
        Expr::AwaitExpr(a) => match expr_code(*a.expr, false, ctx, facts, st) {
            Some((t, st1)) => Some(("(await "@ + t + ")"@, st1)),
            None => None,
        },
        Expr::BinExpr(b) => match expr_code(*b.lhs, false, ctx, facts, st) {
            Some((l, st1)) => match expr_code(*b.rhs, false, ctx, facts, st1) {
                Some((r, st2)) => Some((bin_expr_text(l, b.op_kind, r, statement), st2)),
                None => None,
            },
            None => None,
        },
        Expr::PrefixExpr(p) => match expr_code(*p.expr, false, ctx, facts, st) {
            Some((t, st1)) => Some((prefix_expr_text(p.op_kind, t), st1)),
            None => None,
        },
        Expr::RefExpr(r) => expr_code(*r.expr, false, ctx, facts, st),
        Expr::CastExpr(c) => match expr_fact(facts, c.node_info) {
            Some(ExprFact::Type(ty)) => match expr_code(*c.expr, false, ctx, facts, st) {
                Some((t, st1)) => Some(("("@ + ty@ + ") "@ + t, st1)),
                None => None,
            },
            _ => None,
        },
        Expr::IfExpr(i) => if_code(i, ctx, facts, st),
        Expr::BlockExpr(b) => match b.modifier {
            None => simple_block_code(b, ctx, facts, st),
            Some(BlockModifier::Async) => match expr_fact(facts, b.node_info) {
                Some(ExprFact::AsyncBlock { return_cs, returns_unit }) => {
                    let ctx2 = EmitCtx { is_async: true, returns_unit };
                    match block_code(b, true, ctx2, facts, st) {
                        Some((t, d, st1)) => Some((
                            "RustTask.New<"@ + return_cs@ + (">(async () => {"@ + "\n"@) + inc() + t
                                + (if returns_unit && !d { ("return default;"@ + "\n"@) } else { Seq::empty() }) + dec()
                                + "})"@,
                            st1,
                        )),
                        None => None,
                    }
                },
                _ => None,
            },
            Some(_) => None,
        },
        Expr::TupleExpr(t) => match t.fields {
            ChildrenContainer::Empty => Some(("default(global::System.ValueTuple)"@, st)),
            _ => match exprs_code(t.fields, ctx, facts, st) {
                Some((parts, st1)) => Some(("("@ + join_with(parts, ", "@) + ")"@, st1)),
                None => None,
            },
        },
        Expr::RecordExpr(r) => match expr_fact(facts, r.node_info) {
            Some(ExprFact::TypelessRecord(t)) => Some(("(TypelessConstruction/*"@ + t@ + "*/)"@, st)),
            Some(ExprFact::UnionRecord(t)) => Some(("(UnionConstruction/*"@ + t@ + "*/)"@, st)),
            Some(ExprFact::RecordCtor(ty)) => match record_fields_code(r.record_expr_field_list.fields, ctx, facts, st) {
                Some((inits, st1)) => Some((
                    "new "@ + ty@ + ("() {"@ + "\n"@) + inc() + join_with(inits, (", "@ + "\n"@)) + "\n"@ + dec() + "}"@,
                    st1,
                )),
                None => None,
            },
            _ => None,
        },
        Expr::IndexExpr(x) => match expr_code(*x.base, false, ctx, facts, st) {
            Some((b, st1)) => match expr_code(*x.index, false, ctx, facts, st1) {
                Some((i, st2)) => Some((b + ".Index("@ + i + ")"@, st2)),
                None => None,
            },
            None => None,
        },
        Expr::RangeExpr(r) => {
            let ty = match expr_fact(facts, r.node_info) {
                Some(ExprFact::Type(t)) => Some(t@),
                _ => None,
            };
            if ty is None && !(r.start is None && r.end is None) {
                None
            } else {
                match opt_expr_code(r.start, ctx, facts, st) {
                    Some((s, st1)) => match opt_expr_code(r.end, ctx, facts, st1) {
                        Some((en, st2)) => Some((
                            range_text(s, r.op_kind, en, match ty {
                                Some(t) => t,
                                None => Seq::empty(),
                            }),
                            st2,
                        )),
                        None => None,
                    },
                    None => None,
                }
            }
        },
        Expr::ArrayRepeatExpr(a) => match expr_code(*a.initializer, false, ctx, facts, st) {
            Some((v, st1)) => match expr_code(*a.repeat, false, ctx, facts, st1) {
                Some((n, st2)) => Some(("new object["@ + n + "] /* fill "@ + v + "*/"@, st2)),
                None => None,
            },
            None => None,
        },
        Expr::ArrayElementListExpr(a) => match expr_fact(facts, a.node_info) {
            Some(ExprFact::Type(el)) => match exprs_code(a.elements, ctx, facts, st) {
                Some((parts, st1)) => Some(("new "@ + el@ + "[] { "@ + join_with(parts, ", "@) + " }"@, st1)),
                None => None,
            },
            _ => None,
        },
        Expr::ClosureExpr(c) => closure_code(c, ctx, facts, st),
        Expr::ReturnExpr(r) => match opt_expr_code(r.expr, ctx, facts, st) {
            Some((v, st1)) => Some((
                "/* return-expr */ throw r2CsRuntime.Helpers.Returns<object>("@ + match v {
                    Some(t) => t,
                    None => "0 /* unit */"@,
                } + ")"@,
                st1,
            )),
            None => None,
        },
        Expr::LetExpr(l) => match expr_code(*l.expr, false, ctx, facts, st) {
            Some((v, st1)) => match pat_step(l.pat, facts, st1) {
                Some((p, st2)) => Some(("("@ + v + " is "@ + p + ")"@, st2)),
                None => None,
            },
            None => None,
        },
        Expr::MatchExpr(m) => match expr_code(*m.expr, false, ctx, facts, st) {
            Some((s, st1)) => match arms_code(m.match_arm_list.arms, ctx, facts, st1) {
                Some((a, st2)) => Some(("("@ + s + (") switch {"@ + "\n"@) + inc() + a + dec() + "}"@, st2)),
                None => None,
            },
            None => None,
        },
        Expr::BreakExpr(b) => match opt_expr_code(b.expr, ctx, facts, st) {
            Some((v, st1)) => Some((
                match v {
                    Some(t) => t,
                    None => "default!"@,
                },
                st1,
            )),
            None => None,
        },
        Expr::ContinueExpr(_) => Some(("default!"@, st)),
        Expr::UnderscoreExpr(_) => Some(("_"@, st)),
        Expr::LoopExpr(_) => Some(("/* loop */ default!"@, st)),
        Expr::ForExpr(_) => Some(("/* loop */ default!"@, st)),
        Expr::WhileExpr(_) => Some(("/* loop */ default!"@, st)),
        Expr::FormatArgsExpr(f) => match segments_code(f.segments, ctx, facts, st) {
            Some((t, st1)) => Some(("$\""@ + t + "\""@, st1)),
            None => None,
        },
        Expr::TryExpr(t) => match expr_code(*t.expr, false, ctx, facts, st) {
            Some((i, st1)) => Some(("Try("@ + i + ")"@, st1)),
            None => None,
        },
        Expr::VecRepeatExpr(v) => match (v.initializer, v.repeat) {
            (Some(init), Some(rep)) => match expr_code(*init, false, ctx, facts, st) {
                Some((a, st1)) => match expr_code(*rep, false, ctx, facts, st1) {
                    Some((n, st2)) => Some(("new object["@ + n + "] /* fill "@ + a + "*/"@, st2)),
                    None => None,
                },
                None => None,
            },
            _ => None,
        },
        Expr::VecListExpr(v) => match expr_fact(facts, v.node_info) {
            Some(ExprFact::Type(el)) => match v.elements {
                ChildrenContainer::Empty => Some(("new List<"@ + el@ + ">()"@, st)),
                _ => match exprs_code(v.elements, ctx, facts, st) {
                    Some((parts, st1)) => Some((
                        "new List<"@ + el@ + "> { "@ + join_with(parts, ", "@) + " }"@,
                        st1,
                    )),
                    None => None,
                },
            },
            _ => None,
        },
        Expr::RawCodeExpr(r) => if r.code@.indent == 0 {
            Some((r.code@.buf, st))
        } else {
            None
        },
        Expr::MacroStmts(_) => None,
    }
}

/// The codes of a list of expressions, in order.
pub open spec fn exprs_code(c: ChildrenContainer<Expr>, ctx: EmitCtx, facts: ExprFacts, st: EmitState) -> Option<(Seq<Seq<char>>, EmitState)>
    decreases c, 0nat,
{
    match c {
        ChildrenContainer::Empty => Some((Seq::empty(), st)),
        ChildrenContainer::More(e, rest) => match expr_code(*e, false, ctx, facts, st) {
            Some((t, st1)) => match exprs_code(*rest, ctx, facts, st1) {
                Some((ts, st2)) => Some((seq![t] + ts, st2)),
                None => None,
            },
            None => None,
        },
    }
}

/// The code of an optional expression.
pub open spec fn opt_expr_code(o: Option<Box<Expr>>, ctx: EmitCtx, facts: ExprFacts, st: EmitState) -> Option<(Option<Seq<char>>, EmitState)>
    decreases o, 0nat,
{
    match o {
        None => Some((None, st)),
        Some(e) => match expr_code(*e, false, ctx, facts, st) {
            Some((t, st1)) => Some((Some(t), st1)),
            None => None,
        },
    }
}

/// An `if` as a conditional expression (`: ValueTuple` without `else`).
pub open spec fn if_code(i: IfExpr, ctx: EmitCtx, facts: ExprFacts, st: EmitState) -> Option<(Seq<char>, EmitState)>
    decreases i, 0nat,
{
    match expr_code(*i.condition, false, ctx, facts, st) {
        Some((c, st1)) => match simple_block_code(i.then_branch, ctx, facts, st1) {
            Some((t, st2)) => match i.else_branch {
                None => Some(("("@ + c + " ? "@ + t + " : ValueTuple)"@, st2)),
                Some(eb) => match *eb {
                    ElseBranch::Block(b) => match simple_block_code(b, ctx, facts, st2) {
                        Some((e, st3)) => Some(("("@ + c + " ? "@ + t + " : "@ + e + ")"@, st3)),
                        None => None,
                    },
                    ElseBranch::IfExpr(ei) => match if_code(ei, ctx, facts, st2) {
                        Some((e, st3)) => Some(("("@ + c + " ? "@ + t + " : "@ + e + ")"@, st3)),
                        None => None,
                    },
                },
            },
            None => None,
        },
        None => None,
    }
}

/// A block as an expression: its tail where it has no statements (or
/// `default!` without tail), a placeholder otherwise.
pub open spec fn simple_block_code(b: BlockExpr, ctx: EmitCtx, facts: ExprFacts, st: EmitState) -> Option<(Seq<char>, EmitState)>
    decreases b, 0nat,
{
    match b.statements {
        ChildrenContainer::Empty => match b.tail_expr {
            Some(t) => expr_code(*t, false, ctx, facts, st),
            None => Some(("default!"@, st)),
        },
        _ => Some(("/* block expr */ default!"@, st)),
    }
}

/// The initializers `f_<name> = (<value>)` of the fields of a struct
/// literal whose `cfg` attributes hold.
pub open spec fn record_fields_code(c: ChildrenContainer<RecordExprField>, ctx: EmitCtx, facts: ExprFacts, st: EmitState) -> Option<(Seq<Seq<char>>, EmitState)>
    decreases c, 0nat,
{
    match c {
        ChildrenContainer::Empty => Some((Seq::empty(), st)),
        ChildrenContainer::More(f, rest) => if !cfg_on(facts, f.node_info) {
            record_fields_code(*rest, ctx, facts, st)
        } else {
            match f.field_name {
                Some(n) => match name_ref_text(facts.pats, n) {
                    Some(name) => match expr_code(f.expr, false, ctx, facts, st) {
                        Some((v, st1)) => match record_fields_code(*rest, ctx, facts, st1) {
                            Some((inits, st2)) => Some((seq!["f_"@ + name + " = ("@ + v + ")"@] + inits, st2)),
                            None => None,
                        },
                        None => None,
                    },
                    None => None,
                },
                None => None,
            }
        },
    }
}

/// The parts of an interpolated string: text escaped, braces doubled, and
/// values in braces.
pub open spec fn segments_code(c: ChildrenContainer<FormatArgsSegment>, ctx: EmitCtx, facts: ExprFacts, st: EmitState) -> Option<(Seq<char>, EmitState)>
    decreases c, 0nat,
{
    match c {
        ChildrenContainer::Empty => Some((Seq::empty(), st)),
        ChildrenContainer::More(seg, rest) => {
            let first = match *seg {
                FormatArgsSegment::Literal(s) => Some((escape_seq(s@), st)),
                FormatArgsSegment::Braces(ch) => Some((seq![ch, ch], st)),
                FormatArgsSegment::Expr(e) => match expr_code(e, false, ctx, facts, st) {
                    Some((t, st1)) => Some(("{"@ + t + "}"@, st1)),
                    None => None,
                },
            };
            match first {
                Some((t, st1)) => match segments_code(*rest, ctx, facts, st1) {
                    Some((t2, st2)) => Some((t + t2, st2)),
                    None => None,
                },
                None => None,
            }
        },
    }
}

/// The arms of a `switch` expression whose `cfg` attributes hold: each
/// `<pattern> [when <guard>]=> <value>,` on a line of its own.
pub open spec fn arms_code(c: ChildrenContainer<MatchArm>, ctx: EmitCtx, facts: ExprFacts, st: EmitState) -> Option<(Seq<char>, EmitState)>
    decreases c, 0nat,
{
    match c {
        ChildrenContainer::Empty => Some((Seq::empty(), st)),
        ChildrenContainer::More(a, rest) => if !cfg_on(facts, a.node_info) {
            arms_code(*rest, ctx, facts, st)
        } else {
            match pat_step(a.pat, facts, st) {
                Some((p, st1)) => {
                    let guard = match a.guard {
                        Some(g) => match expr_code(g, false, ctx, facts, st1) {
                            Some((t, st2)) => Some(("when "@ + t, st2)),
                            None => None,
                        },
                        None => Some((Seq::empty(), st1)),
                    };
                    match guard {
                        Some((gt, st2)) => match expr_code(a.expr, false, ctx, facts, st2) {
                            Some((v, st3)) => match arms_code(*rest, ctx, facts, st3) {
                                Some((more, st4)) => Some((p + " "@ + gt + "=> "@ + v + (","@ + "\n"@) + more, st4)),
                                None => None,
                            },
                            None => None,
                        },
                        None => None,
                    }
                },
                None => None,
            }
        },
    }
}

/// A closure as a C# lambda: its parameters named, the tests of
/// parameters that are no binding identifiers, and its body (a block's
/// statements, returning; or an expression).
pub open spec fn closure_code(c: ClosureExpr, ctx: EmitCtx, facts: ExprFacts, st: EmitState) -> Option<(Seq<char>, EmitState)>
    decreases c, 0nat,
{
    let (params, st1) = param_names(c.param_list.params@, facts, st);
    match param_lets(c.param_list.params@, facts, st1) {
        Some((lets, st2)) => match expr_fact(facts, c.node_info) {
            Some(ExprFact::Closure { returns_unit }) => {
                let ctx2 = EmitCtx { is_async: false, returns_unit };
                let head = "("@ + join_with(params, ", "@) + ")"@;
                match *c.body {
                    Expr::BlockExpr(b) => if b.modifier is None {
                        match block_code(b, true, ctx2, facts, st2) {
                            Some((t, _, st3)) => Some((head + (" => {"@ + "\n"@) + inc() + lets + t + dec() + "}"@, st3)),
                            None => None,
                        }
                    } else {
                        match expr_code(*c.body, false, ctx2, facts, st2) {
                            Some((bt, st3)) => Some((
                                if lets.len() == 0 {
                                    head + " => "@ + bt
                                } else {
                                    head + (" => {"@ + "\n"@) + inc() + lets + "return "@ + bt + (";"@ + "\n"@) + dec() + "}"@
                                },
                                st3,
                            )),
                            None => None,
                        }
                    },
                    _ => match expr_code(*c.body, false, ctx2, facts, st2) {
                        Some((bt, st3)) => Some((
                            if lets.len() == 0 {
                                head + " => "@ + bt
                            } else {
                                head + (" => {"@ + "\n"@) + inc() + lets + "return "@ + bt + (";"@ + "\n"@) + dec() + "}"@
                            },
                            st3,
                        )),
                        None => None,
                    },
                }
            },
            _ => None,
        },
        None => None,
    }
}

/// The code of an expression as a statement, whether it diverges, and the
/// state after it (see `emit_stmt`). `returning`: whether its value is
/// what the function returns.
pub open spec fn stmt_code(e: Expr, returning: bool, ctx: EmitCtx, facts: ExprFacts, st: EmitState) -> Option<(Seq<char>, bool, EmitState)>
    decreases e, 1nat,
{
    if !cfg_on(facts, expr_info(e)) {
        Some((Seq::empty(), false, st))
    } else {
        match e {
            Expr::BlockExpr(b) if b.modifier is None => block_code(b, returning, ctx, facts, st),
            Expr::ReturnExpr(r) => match r.expr {
                Some(v) => match stmt_code(*v, true, ctx, facts, st) {
                    Some((t, d, st1)) => Some((
                        t + (if !d { return_void_text(ctx) } else { Seq::empty() }),
                        true,
                        st1,
                    )),
                    None => None,
                },
                None => Some((return_void_text(ctx), true, st)),
            },
            Expr::TupleExpr(t) if t.fields is Empty => Some((("/* () unit expr */;"@ + "\n"@), false, st)),
            Expr::IfExpr(i) => if_stmt_code(i, returning, ctx, facts, st),
            Expr::LoopExpr(l) => match label_prefix(facts, l.label) {
                Some(lp) => match block_code(l.loop_body, false, ctx, facts, st) {
                    Some((t, _, st1)) => Some((lp + ("while (true) {"@ + "\n"@) + inc() + t + dec() + ("}"@ + "\n"@), true, st1)),
                    None => None,
                },
                None => None,
            },
            Expr::WhileExpr(w) => match label_prefix(facts, Some(w.label)) {
                Some(lp) => match expr_code(*w.condition, false, ctx, facts, st) {
                    Some((c, st1)) => match block_code(w.loop_body, false, ctx, facts, st1) {
                        Some((t, _, st2)) => Some((
                            lp + "while ("@ + c + (") {"@ + "\n"@) + inc() + t + dec() + ("}"@ + "\n"@),
                            false,
                            st2,
                        )),
                        None => None,
                    },
                    None => None,
                },
                None => None,
            },
            Expr::ForExpr(f) => match label_prefix(facts, f.label) {
                Some(lp) => {
                    let temp = "__temp_"@ + decimal(st.match_index);
                    let st1 = EmitState { names: st.names, match_index: bump(st.match_index), deferred: st.deferred };
                    match expr_code(*f.iterable, false, ctx, facts, st1) {
                        Some((it, st2)) => match let_unreachable(f.pat, temp, facts, st2) {
                            Some((lt, st3)) => match block_code(f.loop_body, false, ctx, facts, st3) {
                                Some((t, _, st4)) => Some((
                                    lp + "foreach (var "@ + temp + " in "@ + it + (") {"@ + "\n"@) + inc() + lt + t + dec()
                                        + ("}"@ + "\n"@),
                                    false,
                                    st4,
                                )),
                                None => None,
                            },
                            None => None,
                        },
                        None => None,
                    }
                },
                None => None,
            },
            Expr::MatchExpr(m) => match expr_code(*m.expr, false, ctx, facts, st) {
                Some((s, st1)) => match arms_stmt_code(m.match_arm_list.arms, returning, ctx, facts, st1) {
                    Some((a, d, st2)) => Some((
                        "switch ("@ + s + (") {"@ + "\n"@) + inc() + a + ("default: throw new System.NullReferenceException();"@ + "\n"@)
                            + dec() + ("}"@ + "\n"@),
                        d,
                        st2,
                    )),
                    None => None,
                },
                None => None,
            },
            Expr::BreakExpr(b) => match label_comment(facts, b.lifetime) {
                Some(lc) => match b.expr {
                    Some(v) => match expr_code(*v, false, ctx, facts, st) {
                        Some((t, st1)) => Some(("/* break "@ + t + (" */"@ + "\n"@), false, st1)),
                        None => None,
                    },
                    None => Some(("break"@ + lc + (";"@ + "\n"@), true, st)),
                },
                None => None,
            },
            Expr::ContinueExpr(c) => match label_comment(facts, c.lifetime) {
                Some(lc) => Some(("continue"@ + lc + (";"@ + "\n"@), true, st)),
                None => None,
            },
            Expr::AwaitExpr(a) => match expr_code(*a.expr, false, ctx, facts, st) {
                Some((t, st1)) => if returning {
                    Some(("return await "@ + t + (";"@ + "\n"@), true, st1))
                } else {
                    Some(("await "@ + t + (";"@ + "\n"@), false, st1))
                },
                None => None,
            },
            Expr::MacroStmts(m) => match stmts_code(m.statements, ctx, facts, st) {
                Some((t1, d1, st1)) => match opt_stmt_code(m.tail_expr, returning, ctx, facts, st1) {
                    Some((t2, d2, st2)) => Some((t1 + t2, d1 || d2, st2)),
                    None => None,
                },
                None => None,
            },
            Expr::RawCodeExpr(r) => if r.code@.indent == 0 {
                Some((r.code@.buf + (";"@ + "\n"@), r.divergent, st))
            } else {
                None
            },
            _ => match expr_code(e, true, ctx, facts, st) {
                Some((t, st1)) => if returning && !ctx.returns_unit {
                    Some(("return "@ + t + (";"@ + "\n"@), true, st1))
                } else {
                    Some((t + (";"@ + "\n"@), false, st1))
                },
                None => None,
            },
        }
    }
}

/// An `if` as a statement: the `else if` chain and `else` block in turn.
pub open spec fn if_stmt_code(i: IfExpr, returning: bool, ctx: EmitCtx, facts: ExprFacts, st: EmitState) -> Option<(Seq<char>, bool, EmitState)>
    decreases i, 1nat,
{
    match expr_code(*i.condition, false, ctx, facts, st) {
        Some((c, st1)) => match block_code(i.then_branch, returning, ctx, facts, st1) {
            Some((t, td, st2)) => {
                let head = "if ("@ + c + (") {"@ + "\n"@) + inc() + t + dec();
                match i.else_branch {
                    None => Some((head + ("}"@ + "\n"@), false, st2)),
                    Some(eb) => match *eb {
                        ElseBranch::IfExpr(ei) => if cfg_on(facts, ei.node_info) {
                            match if_stmt_code(ei, returning, ctx, facts, st2) {
                                Some((et, ed, st3)) => Some((head + "} else "@ + et, td && ed, st3)),
                                None => None,
                            }
                        } else {
                            None
                        },
                        ElseBranch::Block(b) => match block_code(b, returning, ctx, facts, st2) {
                            Some((et, ed, st3)) => Some((
                                head + "} else {"@ + "\n"@ + inc() + et + dec() + ("}"@ + "\n"@),
                                td && ed,
                                st3,
                            )),
                            None => None,
                        },
                    },
                }
            },
            None => None,
        },
        None => None,
    }
}

/// A block's statements, then its tail (returning where the block is).
pub open spec fn block_code(b: BlockExpr, returning: bool, ctx: EmitCtx, facts: ExprFacts, st: EmitState) -> Option<(Seq<char>, bool, EmitState)>
    decreases b, 1nat,
{
    match stmts_code(b.statements, ctx, facts, st) {
        Some((t1, d1, st1)) => match opt_stmt_code(b.tail_expr, returning, ctx, facts, st1) {
            Some((t2, d2, st2)) => Some((t1 + t2, d1 || d2, st2)),
            None => None,
        },
        None => None,
    }
}

/// An optional tail expression as a statement.
pub open spec fn opt_stmt_code(o: Option<Box<Expr>>, returning: bool, ctx: EmitCtx, facts: ExprFacts, st: EmitState) -> Option<(Seq<char>, bool, EmitState)>
    decreases o, 1nat,
{
    match o {
        None => Some((Seq::empty(), false, st)),
        Some(e) => stmt_code(*e, returning, ctx, facts, st),
    }
}

/// A list of statements, none of them returning.
pub open spec fn stmts_code(c: ChildrenContainer<Stmt>, ctx: EmitCtx, facts: ExprFacts, st: EmitState) -> Option<(Seq<char>, bool, EmitState)>
    decreases c, 1nat,
{
    match c {
        ChildrenContainer::Empty => Some((Seq::empty(), false, st)),
        ChildrenContainer::More(s, rest) => match stmt_one_code(*s, ctx, facts, st) {
            Some((t1, d1, st1)) => match stmts_code(*rest, ctx, facts, st1) {
                Some((t2, d2, st2)) => Some((t1 + t2, d1 || d2, st2)),
                None => None,
            },
            None => None,
        },
    }
}

/// One statement: an expression statement, a `let` (with its `else`
/// block where the pattern is tested), or an inner item, whose emission
/// is deferred.
pub open spec fn stmt_one_code(s: Stmt, ctx: EmitCtx, facts: ExprFacts, st: EmitState) -> Option<(Seq<char>, bool, EmitState)>
    decreases s, 1nat,
{
    match s {
        Stmt::ExprStmt(es) => stmt_code(es.expr, false, ctx, facts, st),
        Stmt::LetStmt(ls) => match ls.initializer {
            Some(init) => match expr_code(init, false, ctx, facts, st) {
                Some((v, st1)) => match ls.let_else {
                    Some(le) => if ls.pat is IdentPat {
                        match let_unreachable(ls.pat, v, facts, st1) {
                            Some((t, st2)) => Some((t, false, st2)),
                            None => None,
                        }
                    } else {
                        match pat_step(ls.pat, facts, st1) {
                            Some((p, st2)) => match block_code(le.block_expr, false, ctx, facts, st2) {
                                Some((bt, _, st3)) => Some((
                                    "if (!("@ + v + " is "@ + p + ")) "@ + ("{"@ + "\n"@) + inc() + bt + dec() + ("}"@ + "\n"@),
                                    false,
                                    st3,
                                )),
                                None => None,
                            },
                            None => None,
                        }
                    },
                    None => match let_unreachable(ls.pat, v, facts, st1) {
                        Some((t, st2)) => Some((t, false, st2)),
                        None => None,
                    },
                },
                None => None,
            },
            None => match uninit_let(crate::emitter::pat_bindings(ls.pat), facts, st) {
                Some((t, st1)) => Some((t, false, st1)),
                None => None,
            },
        },
        Stmt::Item(a) => match lookup(facts.items@, a.id) {
            Some(ItemFact::Fn(n)) => Some(("// inner fn: "@ + n@ + "\n"@, false, defer(st, a))),
            Some(ItemFact::Enum(n)) => Some(("// inner enum: "@ + n@ + "\n"@, false, defer(st, a))),
            Some(ItemFact::Struct(n)) => Some(("// inner enum: "@ + n@ + "\n"@, false, defer(st, a))),
            Some(ItemFact::Impl) => Some((("// impl"@ + "\n"@), false, defer(st, a))),
            Some(ItemFact::Const) => Some((("// const"@ + "\n"@), false, defer(st, a))),
            Some(ItemFact::Other(t)) => Some(("/* unsupported inner item: "@ + t@ + (" */"@ + "\n"@), false, st)),
            None => None,
        },
    }
}

/// The arms of a `switch` statement: each `case <pattern> [when <guard>]:`
/// with its body in braces, ended by `break;` where it does not diverge.
/// The arms diverge together where each does.
pub open spec fn arms_stmt_code(c: ChildrenContainer<MatchArm>, returning: bool, ctx: EmitCtx, facts: ExprFacts, st: EmitState) -> Option<(Seq<char>, bool, EmitState)>
    decreases c, 1nat,
{
    match c {
        ChildrenContainer::Empty => Some((Seq::empty(), true, st)),
        ChildrenContainer::More(a, rest) => match pat_step(a.pat, facts, st) {
            Some((p, st1)) => {
                let guard = match a.guard {
                    Some(g) => match expr_code(g, false, ctx, facts, st1) {
                        Some((t, st2)) => Some(("when "@ + t, st2)),
                        None => None,
                    },
                    None => Some((Seq::empty(), st1)),
                };
                match guard {
                    Some((gt, st2)) => match stmt_code(a.expr, returning, ctx, facts, st2) {
                        Some((bt, bd, st3)) => match arms_stmt_code(*rest, returning, ctx, facts, st3) {
                            Some((more, md, st4)) => Some((
                                "case "@ + p + " "@ + gt + (":{"@ + "\n"@) + inc() + bt
                                    + (if !bd { ("break;"@ + "\n"@) } else { Seq::empty() }) + dec() + ("}"@ + "\n"@) + more,
                                bd && md,
                                st4,
                            )),
                            None => None,
                        },
                        None => None,
                    },
                    None => None,
                }
            },
            None => None,
        },
    }
}

/// A block that is a function's (or async block's) body: its statements
/// and tail, returning, and `return default;` after an async body that
/// returns unit and does not diverge.
pub open spec fn returning_block_code(b: BlockExpr, ctx: EmitCtx, facts: ExprFacts, st: EmitState) -> Option<(Seq<char>, EmitState)> {
    match block_code(b, true, ctx, facts, st) {
        Some((t, d, st1)) => Some((
            t + (if ctx.returns_unit && ctx.is_async && !d { ("return default;"@ + "\n"@) } else { Seq::empty() }),
            st1,
        )),
        None => None,
    }
}


/// Whether a text leaves its last line closed: it writes nothing but
/// indentation marks, or its last other character is a newline.
pub open spec fn line_closed(t: Seq<char>) -> bool {
    crate::output::last_non_special(t) is None || crate::output::last_non_special(t) == Some('\n')
}

/// The last character of `s + t` that is no mark is `t`'s, or `s`'s if
/// `t` has none.
pub proof fn lemma_last_non_special_concat(s: Seq<char>, t: Seq<char>)
    ensures
        crate::output::last_non_special(s + t) == match crate::output::last_non_special(t) {
            Some(c) => Some(c),
            None => crate::output::last_non_special(s),
        },
    decreases t.len(),
{
    if t.len() == 0 {
        assert(s + t =~= s);
    } else {
        assert((s + t).drop_last() =~= s + t.drop_last());
        assert((s + t).last() == t.last());
        lemma_last_non_special_concat(s, t.drop_last());
    }
}

/// A closed text after a line boundary leaves a line boundary.
pub proof fn lemma_boundary_after(s: Seq<char>, t: Seq<char>)
    requires
        crate::output::at_line_boundary(s),
        line_closed(t),
    ensures
        crate::output::at_line_boundary(s + t),
{
    lemma_last_non_special_concat(s, t);
}

/// Two closed texts make a closed text.
pub proof fn lemma_closed_concat(s: Seq<char>, t: Seq<char>)
    requires
        line_closed(s),
        line_closed(t),
    ensures
        line_closed(s + t),
{
    lemma_last_non_special_concat(s, t);
}

/// A text that ends with a newline is closed and leaves a line boundary
/// after anything.
pub proof fn lemma_ends_newline(s: Seq<char>, t: Seq<char>)
    requires
        t.len() > 0,
        t.last() == '\n',
    ensures
        line_closed(t),
        crate::output::at_line_boundary(s + t),
{
    lemma_last_non_special_concat(s, t);
}

/// A mark after a text keeps its last character.
pub proof fn lemma_mark_keeps(s: Seq<char>, m: char)
    requires
        crate::output::is_special(m),
    ensures
        crate::output::last_non_special(s + seq![m]) == crate::output::last_non_special(s),
{
    assert((s + seq![m]).drop_last() =~= s);
}


/// Emits function bodies: allocates the names of their locals, numbers
/// their temporaries and collects the inner items to emit later.
pub struct BodyEmitter {
    pub names: BindingNames,
    pub match_index: usize,
    pub deferred: Vec<AstRef>,
}

impl View for BodyEmitter {
    type V = EmitState;

    open spec fn view(&self) -> EmitState {
        EmitState { names: self.names@, match_index: self.match_index as nat, deferred: self.deferred@ }
    }
}

/// The last entry recorded for `id`.
pub(crate) fn find<'a, T>(v: &'a Vec<(u64, T)>, id: u64) -> (r: Option<&'a T>)
    ensures
        match r {
            Some(x) => lookup(v@, id) == Some(*x),
            None => lookup(v@, id) is None,
        },
{
    let ghost s = v@;
    let mut i = v.len();
    assert(s.take(s.len() as int) =~= s);
    while i > 0
        invariant
            i <= s.len(),
            s == v@,
            lookup(s, id) == lookup(s.take(i as int), id),
        decreases i,
    {
        assert(s.take(i as int).drop_last() =~= s.take(i - 1));
        assert(s.take(i as int).last() == s[i - 1]);
        if v[i - 1].0 == id {
            assert(lookup(s, id) == Some(s[i - 1].1));
            return Some(&v[i - 1].1);
        }
        i = i - 1;
    }
    None
}

/// The fact of an expression node.
fn fact_for<'a>(facts: &'a ExprFacts, info: &NodeInfo<AstRef>) -> (r: Option<&'a ExprFact>)
    ensures
        match r {
            Some(f) => expr_fact(*facts, *info) == Some(*f),
            None => expr_fact(*facts, *info) is None,
        },
{
    match info {
        NodeInfo::Ast(a) => find(&facts.exprs, a.id),
        NodeInfo::NoAst => None,
    }
}

/// Whether a node's `cfg` attributes hold.
fn cfg_enabled(facts: &ExprFacts, info: &NodeInfo<AstRef>) -> (b: bool)
    ensures
        b == cfg_on(*facts, *info),
{
    match info {
        NodeInfo::Ast(a) => {
            let mut i: usize = 0;
            while i < facts.cfg_off.len()
                invariant
                    i <= facts.cfg_off@.len(),
                    *info == NodeInfo::Ast(*a),
                    forall|j: int| 0 <= j < i ==> facts.cfg_off@[j] != a.id,
                decreases facts.cfg_off@.len() - i,
            {
                if facts.cfg_off[i] == a.id {
                    assert(facts.cfg_off@.contains(a.id));
                    return false;
                }
                i = i + 1;
            }
            assert(!facts.cfg_off@.contains(a.id));
            true
        },
        NodeInfo::NoAst => true,
    }
}

/// The C# name of a loop label.
fn label_name(facts: &ExprFacts, l: AstRef) -> (r: Option<String>)
    ensures
        match r {
            Some(t) => label_text(*facts, l) == Some(t@),
            None => label_text(*facts, l) is None,
        },
{
    match crate::patterns::text_of(&facts.pats, l.id) {
        Some(t) => {
            let cs = crate::text::chars_of(t.as_str());
            if cs.len() >= 1 {
                let mut rest = String::new();
                crate::text::push_chars(&mut rest, cs.as_slice(), 1, cs.len());
                assert(rest@ =~= t@.drop_first());
                Some(crate::names::camel(rest.as_str()))
            } else {
                None
            }
        },
        None => None,
    }
}

/// `label: ` for an optional loop label.
fn label_prefix_of(facts: &ExprFacts, l: Option<AstRef>) -> (r: Option<String>)
    ensures
        match r {
            Some(t) => label_prefix(*facts, l) == Some(t@),
            None => label_prefix(*facts, l) is None,
        },
{
    match l {
        None => Some(String::new()),
        Some(a) => match label_name(facts, a) {
            Some(t) => {
                let mut r = t;
                push_str(&mut r, ": ");
                Some(r)
            },
            None => None,
        },
    }
}

/// ` /*label*/` for an optional label.
fn label_comment_of(facts: &ExprFacts, l: Option<AstRef>) -> (r: Option<String>)
    ensures
        match r {
            Some(t) => label_comment(*facts, l) == Some(t@),
            None => label_comment(*facts, l) is None,
        },
{
    match l {
        None => Some(String::new()),
        Some(a) => match label_name(facts, a) {
            Some(t) => {
                let mut r = to_string(" /*");
                push_str(&mut r, t.as_str());
                push_str(&mut r, "*/");
                Some(r)
            },
            None => None,
        },
    }
}

impl BodyEmitter {
    /// An emitter that has named no local, numbered no temporary and
    /// deferred no item.
    pub fn new() -> (r: Self)
        ensures
            r@.names.counts.len() == 0,
            r@.names.locals.len() == 0,
            r@.names.fits(),
            r@.names.wf(),
            r@.match_index == 0,
            r@.deferred.len() == 0,
    {
        BodyEmitter { names: BindingNames::new(), match_index: 0, deferred: Vec::new() }
    }

    /// A pattern's code (see `pat_step`).
    fn emit_pat(&mut self, p: &Pat, facts: &ExprFacts) -> (r: Code)
        requires
            pat_step(*p, *facts, old(self)@) is Some,
            old(self)@.names.fits(),
        ensures
            pat_step(*p, *facts, old(self)@) == Some((r@.buf, final(self)@)),
            r@.indent == 0,
            final(self)@.names.fits(),
    {
        emit_pattern(p, &facts.pats, &mut self.names)
    }

    /// `let pat = value;` where the pattern must match (see
    /// `let_unreachable`).
    fn emit_let_unreachable(&mut self, pat: &Pat, value: &Code, facts: &ExprFacts) -> (r: Code)
        requires
            let_unreachable(*pat, value@.buf, *facts, old(self)@) is Some,
            value@.indent == 0,
            old(self)@.names.fits(),
        ensures
            let_unreachable(*pat, value@.buf, *facts, old(self)@) == Some((r@.buf, final(self)@)),
            r@.indent == 0,
            line_closed(r@.buf),
            final(self)@.names.fits(),
    {
        let mut out = Code::new();
        match pat {
            Pat::IdentPat(i) => {
                match lookup_fact(&facts.pats, &i.node_info) {
                    Some(PatFact::Local(rust)) => {
                        let name = self.names.alloc_binding(i.name, rust.as_str());
                        out.w("var ");
                        out.w(name);
                        out.w(" = ");
                        out.w(value);
                        out.wln(";");
                        proof {
                            reveal_strlit(";\n");
                            reveal_strlit(";");
                            reveal_strlit("\n");
                            assert(out@.buf =~= "var "@ + name@ + " = "@ + value@.buf + (";"@ + "\n"@));
                        }
                    },
                    _ => {
                        proof {
                            assert(false);
                        }
                    },
                }
            },
            _ => {
                let p = self.emit_pat(pat, facts);
                out.w("if (!(");
                out.w(value);
                out.w(" is ");
                out.w(p);
                out.w(")) ");
                out.wln("throw new Exception(\"unreachable\");");
                proof {
                    reveal_strlit("throw new Exception(\"unreachable\");\n");
                    reveal_strlit("throw new Exception(\"unreachable\");");
                    reveal_strlit("\n");
                    assert(unreachable_text() =~= "throw new Exception(\"unreachable\");"@ + "\n"@);
                    assert(out@.buf =~= "if (!("@ + value@.buf + " is "@ + p@.buf + ")) "@ + unreachable_text());
                }
            },
        }
        proof {
            reveal_strlit("\n");
            reveal_strlit(";");
            lemma_ends_newline(Seq::empty(), out@.buf);
        }
        out
    }
}


/// References to the children of a container, in order.
fn child_refs<'a, T>(c: &'a ChildrenContainer<T>) -> (v: Vec<&'a T>)
    ensures
        v@.len() == c@.len(),
        forall|i: int| 0 <= i < v@.len() ==> *(#[trigger] v@[i]) == c@[i],
{
    let mut v: Vec<&'a T> = Vec::new();
    let mut cur = c;
    let ghost mut k: int = 0;
    loop
        invariant
            0 <= k <= c@.len(),
            cur@ == c@.skip(k),
            v@.len() == k,
            forall|i: int| 0 <= i < k ==> *(#[trigger] v@[i]) == c@[i],
        decreases cur@.len(),
    {
        match cur {
            ChildrenContainer::Empty => {
                assert(c@.skip(k).len() == 0);
                return v;
            },
            ChildrenContainer::More(p, rest) => {
                assert(cur@ == seq![**p] + rest@);
                assert(c@.skip(k)[0] == c@[k]);
                assert(c@[k] == cur@[0]);
                v.push(&**p);
                assert(cur@.skip(1) =~= rest@);
                assert(c@.skip(k).skip(1) =~= c@.skip(k + 1));
                cur = rest;
                proof {
                    k = k + 1;
                }
            },
        }
    }
}

proof fn lemma_uninit_prefix(bs: Seq<AstRef>, i: int, facts: ExprFacts, st: EmitState)
    requires
        0 <= i <= bs.len(),
        uninit_let(bs, facts, st) is Some,
    ensures
        uninit_let(bs.take(i), facts, st) is Some,
    decreases bs.len(),
{
    if i < bs.len() {
        assert(bs.drop_last().take(i) =~= bs.take(i));
        lemma_uninit_prefix(bs.drop_last(), i, facts, st);
    } else {
        assert(bs.take(i) =~= bs);
    }
}

proof fn lemma_param_lets_prefix(ps: Seq<Param>, i: int, facts: ExprFacts, st: EmitState)
    requires
        0 <= i <= ps.len(),
        param_lets(ps, facts, st) is Some,
    ensures
        param_lets(ps.take(i), facts, st) is Some,
    decreases ps.len(),
{
    if i < ps.len() {
        assert(ps.drop_last().take(i) =~= ps.take(i));
        lemma_param_lets_prefix(ps.drop_last(), i, facts, st);
    } else {
        assert(ps.take(i) =~= ps);
    }
}

impl BodyEmitter {
    /// The declarations of the locals of a `let` without initializer (see
    /// `uninit_let`).
    fn emit_uninit_let(&mut self, pat: &Pat, facts: &ExprFacts) -> (r: Code)
        requires
            uninit_let(crate::emitter::pat_bindings(*pat), *facts, old(self)@) is Some,
            old(self)@.names.fits(),
        ensures
            uninit_let(crate::emitter::pat_bindings(*pat), *facts, old(self)@) == Some((r@.buf, final(self)@)),
            r@.indent == 0,
            line_closed(r@.buf),
            final(self)@.names.fits(),
    {
        let ghost st0 = self@;
        let bs = crate::emitter::collect_bindings_in_pat(pat);
        let mut out = Code::new();
        let mut i: usize = 0;
        assert(bs@.take(0) =~= Seq::<AstRef>::empty());
        assert(out@.buf =~= Seq::<char>::empty());
        while i < bs.len()
            invariant
                i <= bs@.len(),
                bs@ == crate::emitter::pat_bindings(*pat),
                uninit_let(bs@, *facts, st0) is Some,
                uninit_let(bs@.take(i as int), *facts, st0) == Some((out@.buf, self@)),
                out@.indent == 0,
                line_closed(out@.buf),
                self@.names.fits(),
            decreases bs@.len() - i,
        {
            proof {
                lemma_uninit_prefix(bs@, i + 1, *facts, st0);
                assert(bs@.take(i + 1).drop_last() =~= bs@.take(i as int));
                assert(bs@.take(i + 1).last() == bs@[i as int]);
            }
            let ghost before = out@.buf;
            let b = bs[i];
            match find(&facts.locals, b.id) {
                Some(info) => {
                    let name = self.names.alloc_binding(b, info.rust_name.as_str());
                    out.w(info.ty_cs.as_str());
                    out.w(" ");
                    out.w(name);
                    out.wln(" = (default!);");
                    proof {
                        reveal_strlit(" = (default!);\n");
                        reveal_strlit(" = (default!);");
                        reveal_strlit("\n");
                        assert(out@.buf =~= before + (info.ty_cs@ + " "@ + name@ + (" = (default!);"@ + "\n"@)));
                        lemma_ends_newline(before, info.ty_cs@ + " "@ + name@ + (" = (default!);"@ + "\n"@));
                        lemma_closed_concat(before, info.ty_cs@ + " "@ + name@ + (" = (default!);"@ + "\n"@));
                    }
                },
                None => {
                    proof {
                        assert(false);
                    }
                },
            }
            i = i + 1;
        }
        assert(bs@.take(i as int) =~= bs@);
        out
    }

    /// The names of a closure's parameters (see `param_names`).
    fn emit_param_names(&mut self, ps: &ChildrenContainer<Param>, facts: &ExprFacts) -> (r: Vec<String>)
        requires
            old(self)@.names.fits(),
        ensures
            param_names(ps@, *facts, old(self)@) == (views(r@), final(self)@),
            final(self)@.names.fits(),
    {
        let ghost st0 = self@;
        let v = child_refs(ps);
        let mut r: Vec<String> = Vec::new();
        let mut i: usize = 0;
        assert(ps@.take(0) =~= Seq::<Param>::empty());
        assert(views(r@) =~= Seq::<Seq<char>>::empty());
        while i < v.len()
            invariant
                i <= v@.len(),
                v@.len() == ps@.len(),
                forall|j: int| 0 <= j < v@.len() ==> *(#[trigger] v@[j]) == ps@[j],
                param_names(ps@.take(i as int), *facts, st0) == (views(r@), self@),
                self@.names.fits(),
            decreases v@.len() - i,
        {
            proof {
                assert(ps@.take(i + 1).drop_last() =~= ps@.take(i as int));
                assert(ps@.take(i + 1).last() == ps@[i as int]);
            }
            let ghost before = views(r@);
            let p = v[i];
            let name = match &p.pat {
                Pat::IdentPat(ip) => match lookup_fact(&facts.pats, &ip.node_info) {
                    Some(PatFact::Local(rust)) => self.names.alloc_binding(ip.name, rust.as_str()),
                    _ => {
                        let mut n = to_string("__cp");
                        crate::text::push_decimal(&mut n, i as u128);
                        n
                    },
                },
                _ => {
                    let mut n = to_string("__cp");
                    crate::text::push_decimal(&mut n, i as u128);
                    n
                },
            };
            r.push(name);
            assert(views(r@) =~= before.push(name@));
            i = i + 1;
        }
        assert(ps@.take(i as int) =~= ps@);
        r
    }

    /// The tests of a closure's parameters (see `param_lets`).
    fn emit_param_lets(&mut self, ps: &ChildrenContainer<Param>, facts: &ExprFacts) -> (r: Code)
        requires
            param_lets(ps@, *facts, old(self)@) is Some,
            old(self)@.names.fits(),
        ensures
            param_lets(ps@, *facts, old(self)@) == Some((r@.buf, final(self)@)),
            r@.indent == 0,
            line_closed(r@.buf),
            final(self)@.names.fits(),
    {
        let ghost st0 = self@;
        let v = child_refs(ps);
        let mut out = Code::new();
        let mut i: usize = 0;
        assert(ps@.take(0) =~= Seq::<Param>::empty());
        assert(out@.buf =~= Seq::<char>::empty());
        while i < v.len()
            invariant
                i <= v@.len(),
                v@.len() == ps@.len(),
                forall|j: int| 0 <= j < v@.len() ==> *(#[trigger] v@[j]) == ps@[j],
                param_lets(ps@, *facts, st0) is Some,
                param_lets(ps@.take(i as int), *facts, st0) == Some((out@.buf, self@)),
                out@.indent == 0,
                line_closed(out@.buf),
                self@.names.fits(),
            decreases v@.len() - i,
        {
            proof {
                lemma_param_lets_prefix(ps@, i + 1, *facts, st0);
                assert(ps@.take(i + 1).drop_last() =~= ps@.take(i as int));
                assert(ps@.take(i + 1).last() == ps@[i as int]);
            }
            let p = v[i];
            let is_binding = match &p.pat {
                Pat::IdentPat(ip) => match lookup_fact(&facts.pats, &ip.node_info) {
                    Some(PatFact::Local(_)) => true,
                    _ => false,
                },
                _ => false,
            };
            if !is_binding {
                let ghost before = out@.buf;
                let mut value = to_string("__cp");
                crate::text::push_decimal(&mut value, i as u128);
                let vc = Code::from(value);
                let t = self.emit_let_unreachable(&p.pat, &vc, facts);
                out.w(t);
                proof {
                    lemma_closed_concat(before, t@.buf);
                }
            }
            i = i + 1;
        }
        assert(ps@.take(i as int) =~= ps@);
        out
    }
}


/// A text that ends with a newline is closed and leaves a line boundary.
pub proof fn lemma_nl(s: Seq<char>, t: Seq<char>)
    ensures
        line_closed(t + "\n"@),
        crate::output::at_line_boundary(s + (t + "\n"@)),
        crate::output::at_line_boundary(s + t + "\n"@),
{
    reveal_strlit("\n");
    lemma_ends_newline(s, t + "\n"@);
    assert(s + t + "\n"@ =~= s + (t + "\n"@));
}

/// An indentation mark after a line boundary leaves a line boundary.
pub proof fn lemma_marks_keep(s: Seq<char>)
    ensures
        crate::output::last_non_special(s + inc()) == crate::output::last_non_special(s),
        crate::output::last_non_special(s + dec()) == crate::output::last_non_special(s),
        crate::output::last_non_special(s.push(crate::output::inc_indent())) == crate::output::last_non_special(s),
        crate::output::last_non_special(s.push(crate::output::dec_indent())) == crate::output::last_non_special(s),
{
    lemma_mark_keeps(s, crate::output::inc_indent());
    lemma_mark_keeps(s, crate::output::dec_indent());
    assert(s.push(crate::output::inc_indent()) =~= s + inc());
    assert(s.push(crate::output::dec_indent()) =~= s + dec());
}

/// The optional text of an optional code.
pub open spec fn opt_text(o: Option<Code>) -> Option<Seq<char>> {
    match o {
        Some(c) => Some(c@.buf),
        None => None,
    }
}

/// `(a, b, ..)` for the names `xs`.
fn paren_list(xs: &Vec<String>) -> (r: Code)
    ensures
        r@.buf == "("@ + join_with(views(xs@), ", "@) + ")"@,
        r@.indent == 0,
{
    let mut head = code_of("(");
    let mut k: usize = 0;
    let ghost pv = views(xs@);
    assert(pv.take(0) =~= Seq::<Seq<char>>::empty());
    while k < xs.len()
        invariant
            k <= xs@.len(),
            pv == views(xs@),
            head@.indent == 0,
            head@.buf == "("@ + join_with(pv.take(k as int), ", "@),
        decreases xs@.len() - k,
    {
        if k > 0 {
            head.w(", ");
        }
        head.w(xs[k].as_str());
        assert(pv.take(k + 1).drop_last() =~= pv.take(k as int));
        if k == 0 {
            assert(pv.take(1) =~= seq![pv[0]]);
            assert(head@.buf =~= "("@ + pv[0]);
        } else {
            assert(head@.buf =~= "("@ + (join_with(pv.take(k as int), ", "@) + ", "@ + pv[k as int]));
        }
        k = k + 1;
    }
    assert(pv.take(k as int) =~= pv);
    head.w(")");
    head
}

/// The code `_p_0`, .. `_p_{n-1}`.
fn lambda_param_codes(n: usize) -> (r: Vec<Code>)
    ensures
        crate::emitter::code_texts(r@) == lambda_params(n as nat),
        crate::emitter::all_closed(r@),
{
    let mut r: Vec<Code> = Vec::new();
    let mut i: usize = 0;
    while i < n
        invariant
            i <= n,
            r@.len() == i,
            forall|j: int| 0 <= j < i ==> (#[trigger] r@[j])@.buf == "_p_"@ + decimal(j as nat) && r@[j]@.indent == 0,
        decreases n - i,
    {
        let mut c = code_of("_p_");
        c.w(i);
        r.push(c);
        i = i + 1;
    }
    assert(crate::emitter::code_texts(r@) =~= lambda_params(n as nat));
    r
}


impl BodyEmitter {
    /// The C# code of an expression (see `expr_code`); `statement`: whether
    /// it stands as a statement (a binary expression is then not put in
    /// parentheses).
    pub fn emit_expr(&mut self, e: &Expr, statement: bool, ctx: EmitCtx, facts: &ExprFacts) -> (r: Code)
        requires
            expr_code(*e, statement, ctx, *facts, old(self)@) is Some,
            old(self)@.names.fits(),
        ensures
            expr_code(*e, statement, ctx, *facts, old(self)@) == Some((r@.buf, final(self)@)),
            r@.indent == 0,
            final(self)@.names.fits(),
        decreases e, 1nat,
    {
        match e {
            Expr::Literal(l) => match fact_for(facts, &l.node_info) {
                Some(ExprFact::Literal(v)) => crate::emitter::emit_literal(v),
                _ => {
                    proof {
                        assert(false);
                    }
                    Code::new()
                },
            },
            Expr::PathExpr(p) => self.emit_path(&p.node_info, facts),
            Expr::FieldExpr(f) => self.emit_field(f, ctx, facts),
            Expr::MethodCallExpr(m) => self.emit_method_call(m, ctx, facts),
            Expr::CallExpr(c) => self.emit_call(c, ctx, facts),
            Expr::AwaitExpr(a) => {
                let t = self.emit_expr(&a.expr, false, ctx, facts);
                let mut out = code_of("(await ");
                out.w(t);
                out.w(")");
                out
            },
            Expr::BinExpr(b) => {
                let l = self.emit_expr(&b.lhs, false, ctx, facts);
                let r = self.emit_expr(&b.rhs, false, ctx, facts);
                crate::emitter::emit_bin_expr(l, b.op_kind, r, statement)
            },
            Expr::PrefixExpr(p) => {
                let t = self.emit_expr(&p.expr, false, ctx, facts);
                crate::emitter::emit_prefix_expr(p.op_kind, t)
            },
            Expr::RefExpr(r) => self.emit_expr(&r.expr, false, ctx, facts),
            Expr::CastExpr(c) => self.emit_cast(c, ctx, facts),
            Expr::IfExpr(i) => self.emit_if(i, ctx, facts),
            Expr::BlockExpr(b) => self.emit_block_expr(b, ctx, facts),
            Expr::TupleExpr(t) => self.emit_tuple(t, ctx, facts),
            Expr::RecordExpr(r) => self.emit_record(r, ctx, facts),
            Expr::IndexExpr(x) => self.emit_index(x, ctx, facts),
            Expr::RangeExpr(r) => self.emit_range(r, ctx, facts),
            Expr::ArrayRepeatExpr(a) => self.emit_array_repeat(a, ctx, facts),
            Expr::ArrayElementListExpr(a) => self.emit_array_list(a, ctx, facts),
            Expr::ClosureExpr(c) => self.emit_closure(c, ctx, facts),
            Expr::ReturnExpr(r) => self.emit_return(r, ctx, facts),
            Expr::LetExpr(l) => self.emit_let_expr(l, ctx, facts),
            Expr::MatchExpr(m) => self.emit_match(m, ctx, facts),
            Expr::BreakExpr(b) => {
                let v = self.emit_opt_expr(&b.expr, ctx, facts);
                match v {
                    Some(t) => t,
                    None => code_of("default!"),
                }
            },
            Expr::ContinueExpr(_) => code_of("default!"),
            Expr::UnderscoreExpr(_) => code_of("_"),
            Expr::LoopExpr(_) => code_of("/* loop */ default!"),
            Expr::ForExpr(_) => code_of("/* loop */ default!"),
            Expr::WhileExpr(_) => code_of("/* loop */ default!"),
            Expr::FormatArgsExpr(f) => self.emit_format_args(f, ctx, facts),
            Expr::TryExpr(t) => {
                let i = self.emit_expr(&t.expr, false, ctx, facts);
                let mut out = code_of("Try(");
                out.w(i);
                out.w(")");
                out
            },
            Expr::VecRepeatExpr(v) => self.emit_vec_repeat(v, ctx, facts),
            Expr::VecListExpr(v) => self.emit_vec_list(v, ctx, facts),
            Expr::RawCodeExpr(r) => r.code.clone(),
            Expr::MacroStmts(_) => {
                proof {
                    assert(false);
                }
                Code::new()
            },

        }
    }
}


impl BodyEmitter {
    /// The code of a path expression (see `path_text`).
    fn emit_path(&self, info: &NodeInfo<AstRef>, facts: &ExprFacts) -> (r: Code)
        requires
            path_text(expr_fact(*facts, *info), self@) is Some,
        ensures
            path_text(expr_fact(*facts, *info), self@) == Some(r@.buf),
            r@.indent == 0,
    {
        match fact_for(facts, info) {
            Some(ExprFact::FunctionPath { resolved, self_cs, generic_cs, num_params }) => match resolved {
                ResolvedFunction::Static { function_name, args_map: None, .. } => {
                    let mut path = to_string(self_cs.as_str());
                    push_str(&mut path, ".");
                    push_str(&mut path, function_name.as_str());
                    let path = crate::names::generic_args(path, generic_cs.as_slice());
                    code_of(path.as_str())
                },
                ResolvedFunction::ModuleFunction { function_path, args_map: None, .. } => code_of(function_path.as_str()),
                _ => {
                    let params = lambda_param_codes(*num_params);
                    let call = emit_call_expr(resolved, &params, self_cs.as_str(), generic_cs);
                    let mut out = code_of("((");
                    crate::emitter::write_joined(&mut out, &params, ", ");
                    out.w(") => ");
                    out.w(call);
                    out.w(")");
                    out
                },
            },
            Some(ExprFact::CtorPath { cs_name, kind }) => match kind {
                CtorKind::Unit => {
                    let mut out = code_of(cs_name.as_str());
                    out.w(".instance");
                    out
                },
                CtorKind::Tuple => {
                    let mut out = code_of(cs_name.as_str());
                    out.w(".ctor");
                    out
                },
                CtorKind::Other => code_of("new /* unexpected struct/enum kind and infer */ UnknownType"),
            },
            Some(ExprFact::SelfPath) => code_of("(ImplSelf)"),
            Some(ExprFact::LocalPath { local, unbound }) => match self.names.binding_name(*local) {
                Some(n) => code_of(n.as_str()),
                None => code_of(unbound.as_str()),
            },
            Some(ExprFact::ItemPath(p)) => code_of(p.as_str()),
            Some(ExprFact::TypeParamPath) => code_of("(GenericParam)"),
            Some(ExprFact::OtherPath(t)) => {
                let mut out = code_of("/* ");
                out.w(t.as_str());
                out.w(" */");
                out
            },
            _ => {
                proof {
                    assert(false);
                }
                Code::new()
            },
        }
    }

    /// The codes of a list of expressions (see `exprs_code`).
    fn emit_exprs(&mut self, c: &ChildrenContainer<Expr>, ctx: EmitCtx, facts: &ExprFacts) -> (r: Vec<Code>)
        requires
            exprs_code(*c, ctx, *facts, old(self)@) is Some,
            old(self)@.names.fits(),
        ensures
            exprs_code(*c, ctx, *facts, old(self)@) == Some((crate::emitter::code_texts(r@), final(self)@)),
            crate::emitter::all_closed(r@),
            final(self)@.names.fits(),
        decreases c, 0nat,
    {
        match c {
            ChildrenContainer::Empty => {
                let r: Vec<Code> = Vec::new();
                assert(crate::emitter::code_texts(r@) =~= Seq::<Seq<char>>::empty());
                r
            },
            ChildrenContainer::More(e, rest) => {
                let t = self.emit_expr(e, false, ctx, facts);
                let mut ts = self.emit_exprs(rest, ctx, facts);
                let ghost tt = t@.buf;
                let ghost old_ts = crate::emitter::code_texts(ts@);
                let ghost old_v = ts@;
                ts.insert(0, t);
                assert(crate::emitter::code_texts(ts@) =~= seq![tt] + old_ts);
                assert(crate::emitter::all_closed(ts@)) by {
                    assert forall|j: int| 0 <= j < ts@.len() implies (#[trigger] ts@[j])@.indent == 0 by {
                        if j > 0 {
                            assert(ts@[j] == old_v[j - 1]);
                        }
                    }
                }
                ts
            },
        }
    }
}


impl BodyEmitter {
    /// The code of an optional expression (see `opt_expr_code`).
    fn emit_opt_expr(&mut self, o: &Option<Box<Expr>>, ctx: EmitCtx, facts: &ExprFacts) -> (r: Option<Code>)
        requires
            opt_expr_code(*o, ctx, *facts, old(self)@) is Some,
            old(self)@.names.fits(),
        ensures
            opt_expr_code(*o, ctx, *facts, old(self)@) == Some((opt_text(r), final(self)@)),
            r matches Some(c) ==> c@.indent == 0,
            final(self)@.names.fits(),
        decreases o, 0nat,
    {
        match o {
            None => None,
            Some(e) => Some(self.emit_expr(e, false, ctx, facts)),
        }
    }

    /// A range expression (see `range_text`).
    fn emit_range(&mut self, r: &crate::eir::RangeExpr, ctx: EmitCtx, facts: &ExprFacts) -> (c: Code)
        requires
            expr_code(Expr::RangeExpr(*r), false, ctx, *facts, old(self)@) is Some,
            old(self)@.names.fits(),
        ensures
            forall|statement: bool| expr_code(Expr::RangeExpr(*r), statement, ctx, *facts, old(self)@)
                == Some((c@.buf, final(self)@)),
            c@.indent == 0,
            final(self)@.names.fits(),
        decreases r, 0nat,
    {
        let ty = match fact_for(facts, &r.node_info) {
            Some(ExprFact::Type(t)) => to_string(t.as_str()),
            _ => String::new(),
        };
        let start = self.emit_opt_expr(&r.start, ctx, facts);
        let end = self.emit_opt_expr(&r.end, ctx, facts);
        let mut out = Code::new();
        match (start, r.op_kind, end) {
            (Some(s), RangeOp::Exclusive, Some(e)) => {
                out.w("Range<");
                out.w(ty.as_str());
                out.w(">.NewRange(");
                out.w(s);
                out.w(", ");
                out.w(e);
                out.w(")");
            },
            (Some(s), RangeOp::Inclusive, Some(e)) => {
                out.w("Range<");
                out.w(ty.as_str());
                out.w(">.NewRangeInclusive(");
                out.w(s);
                out.w(", ");
                out.w(e);
                out.w(")");
            },
            (Some(s), _, None) => {
                out.w("Range<");
                out.w(ty.as_str());
                out.w(">.NewRangeFrom(");
                out.w(s);
                out.w(")");
            },
            (None, _, None) => {
                out.w("RangeFull.NewRangeFull()");
            },
            (None, RangeOp::Exclusive, Some(e)) => {
                out.w("Range<");
                out.w(ty.as_str());
                out.w(">.NewRangeTo(");
                out.w(e);
                out.w(")");
            },
            (None, RangeOp::Inclusive, Some(e)) => {
                out.w("Range<");
                out.w(ty.as_str());
                out.w(">.NewRangeToInclusive(");
                out.w(e);
                out.w(")");
            },
        }
        out
    }

    /// An `if` as a conditional expression (see `if_code`).
    fn emit_if(&mut self, i: &IfExpr, ctx: EmitCtx, facts: &ExprFacts) -> (r: Code)
        requires
            if_code(*i, ctx, *facts, old(self)@) is Some,
            old(self)@.names.fits(),
        ensures
            if_code(*i, ctx, *facts, old(self)@) == Some((r@.buf, final(self)@)),
            r@.indent == 0,
            final(self)@.names.fits(),
        decreases i, 0nat,
    {
        let c = self.emit_expr(&i.condition, false, ctx, facts);
        let t = self.emit_simple_block(&i.then_branch, ctx, facts);
        let mut out = code_of("(");
        out.w(c);
        out.w(" ? ");
        out.w(t);
        match &i.else_branch {
            None => {
                out.w(" : ValueTuple)");
            },
            Some(eb) => {
                let e = match &**eb {
                    ElseBranch::Block(b) => self.emit_simple_block(b, ctx, facts),
                    ElseBranch::IfExpr(ei) => self.emit_if(ei, ctx, facts),
                };
                out.w(" : ");
                out.w(e);
                out.w(")");
            },
        }
        out
    }

    /// A block as an expression (see `simple_block_code`).
    fn emit_simple_block(&mut self, b: &BlockExpr, ctx: EmitCtx, facts: &ExprFacts) -> (r: Code)
        requires
            simple_block_code(*b, ctx, *facts, old(self)@) is Some,
            old(self)@.names.fits(),
        ensures
            simple_block_code(*b, ctx, *facts, old(self)@) == Some((r@.buf, final(self)@)),
            r@.indent == 0,
            final(self)@.names.fits(),
        decreases b, 0nat,
    {
        match &b.statements {
            ChildrenContainer::Empty => match &b.tail_expr {
                Some(t) => self.emit_expr(t, false, ctx, facts),
                None => code_of("default!"),
            },
            _ => code_of("/* block expr */ default!"),
        }
    }

    /// The field initializers of a struct literal (see `record_fields_code`).
    fn emit_record_fields(&mut self, c: &ChildrenContainer<RecordExprField>, ctx: EmitCtx, facts: &ExprFacts) -> (r: Vec<Code>)
        requires
            record_fields_code(*c, ctx, *facts, old(self)@) is Some,
            old(self)@.names.fits(),
        ensures
            record_fields_code(*c, ctx, *facts, old(self)@) == Some((crate::emitter::code_texts(r@), final(self)@)),
            crate::emitter::all_closed(r@),
            final(self)@.names.fits(),
        decreases c, 0nat,
    {
        match c {
            ChildrenContainer::Empty => {
                let r: Vec<Code> = Vec::new();
                assert(crate::emitter::code_texts(r@) =~= Seq::<Seq<char>>::empty());
                r
            },
            ChildrenContainer::More(f, rest) => {
                if !cfg_enabled(facts, &f.node_info) {
                    return self.emit_record_fields(rest, ctx, facts);
                }
                let name = match &f.field_name {
                    Some(n) => match lookup_name(&facts.pats, n) {
                        Some(t) => t,
                        None => {
                            proof {
                                assert(false);
                            }
                            String::new()
                        },
                    },
                    None => {
                        proof {
                            assert(false);
                        }
                        String::new()
                    },
                };
                let v = self.emit_expr(&f.expr, false, ctx, facts);
                let mut init = code_of("f_");
                init.w(name);
                init.w(" = (");
                init.w(v);
                init.w(")");
                let mut ts = self.emit_record_fields(rest, ctx, facts);
                let ghost it = init@.buf;
                let ghost old_ts = crate::emitter::code_texts(ts@);
                let ghost old_v = ts@;
                ts.insert(0, init);
                assert(crate::emitter::code_texts(ts@) =~= seq![it] + old_ts);
                assert(crate::emitter::all_closed(ts@)) by {
                    assert forall|j: int| 0 <= j < ts@.len() implies (#[trigger] ts@[j])@.indent == 0 by {
                        if j > 0 {
                            assert(ts@[j] == old_v[j - 1]);
                        }
                    }
                }
                ts
            },
        }
    }

    /// The parts of an interpolated string (see `segments_code`).
    fn emit_segments(&mut self, c: &ChildrenContainer<FormatArgsSegment>, ctx: EmitCtx, facts: &ExprFacts) -> (r: Code)
        requires
            segments_code(*c, ctx, *facts, old(self)@) is Some,
            old(self)@.names.fits(),
        ensures
            segments_code(*c, ctx, *facts, old(self)@) == Some((r@.buf, final(self)@)),
            r@.indent == 0,
            final(self)@.names.fits(),
        decreases c, 0nat,
    {
        match c {
            ChildrenContainer::Empty => Code::new(),
            ChildrenContainer::More(seg, rest) => {
                let mut out = Code::new();
                match &**seg {
                    FormatArgsSegment::Literal(t) => {
                        let mut esc = String::new();
                        crate::emitter::push_escaped_str(&mut esc, t.as_str());
                        out.w(esc);
                    },
                    FormatArgsSegment::Braces(ch) => {
                        out.w(*ch);
                        out.w(*ch);
                    },
                    FormatArgsSegment::Expr(e) => {
                        let t = self.emit_expr(e, false, ctx, facts);
                        out.w("{");
                        out.w(t);
                        out.w("}");
                    },
                }
                let more = self.emit_segments(rest, ctx, facts);
                out.w(more);
                out
            },
        }
    }

    /// The arms of a `switch` expression (see `arms_code`).
    fn emit_arms(&mut self, c: &ChildrenContainer<MatchArm>, ctx: EmitCtx, facts: &ExprFacts) -> (r: Code)
        requires
            arms_code(*c, ctx, *facts, old(self)@) is Some,
            old(self)@.names.fits(),
        ensures
            arms_code(*c, ctx, *facts, old(self)@) == Some((r@.buf, final(self)@)),
            r@.indent == 0,
            line_closed(r@.buf),
            final(self)@.names.fits(),
        decreases c, 0nat,
    {
        match c {
            ChildrenContainer::Empty => Code::new(),
            ChildrenContainer::More(a, rest) => {
                if !cfg_enabled(facts, &a.node_info) {
                    return self.emit_arms(rest, ctx, facts);
                }
                let p = self.emit_pat(&a.pat, facts);
                let mut out = Code::new();
                out.w(p);
                out.w(" ");
                match &a.guard {
                    Some(g) => {
                        let gt = self.emit_expr(g, false, ctx, facts);
                        out.w("when ");
                        out.w(gt);
                    },
                    None => {},
                }
                let v = self.emit_expr(&a.expr, false, ctx, facts);
                out.w("=> ");
                out.w(v);
                out.wln(",");
                let ghost s1 = out@.buf;
                proof {
                    lemma_nl(Seq::empty(), s1.drop_last());
                    reveal_strlit("\n");
                    assert(s1 =~= s1.drop_last() + "\n"@);
                }
                let more = self.emit_arms(rest, ctx, facts);
                out.w(more);
                proof {
                    lemma_closed_concat(s1, more@.buf);
                }
                out
            },
        }
    }
}


impl BodyEmitter {
    /// A closure as a C# lambda (see `closure_code`).
    #[verifier::rlimit(50)]
    fn emit_closure(&mut self, c: &ClosureExpr, ctx: EmitCtx, facts: &ExprFacts) -> (r: Code)
        requires
            closure_code(*c, ctx, *facts, old(self)@) is Some,
            old(self)@.names.fits(),
        ensures
            closure_code(*c, ctx, *facts, old(self)@) == Some((r@.buf, final(self)@)),
            r@.indent == 0,
            final(self)@.names.fits(),
        decreases c, 0nat,
    {
        let params = self.emit_param_names(&c.param_list.params, facts);
        let lets = self.emit_param_lets(&c.param_list.params, facts);
        let returns_unit = match fact_for(facts, &c.node_info) {
            Some(ExprFact::Closure { returns_unit }) => *returns_unit,
            _ => {
                proof {
                    assert(false);
                }
                false
            },
        };
        let ctx2 = EmitCtx { is_async: false, returns_unit };
        let mut head = paren_list(&params);
        let ghost hd = head@.buf;
        let is_plain_block = match &*c.body {
            Expr::BlockExpr(b) => b.modifier.is_none(),
            _ => false,
        };
        if is_plain_block {
            match &*c.body {
                Expr::BlockExpr(b) => {
                    let (t, _) = self.emit_block(b, true, ctx2, facts);
                    let mut out = head;
                    out.wln(" => {");
                    let ghost s1 = out@.buf;
                    proof {
                        lemma_nl(Seq::empty(), hd + " => {"@);
                        assert(s1 =~= hd + " => {"@ + "\n"@);
                    }
                    out.indent();
                    let ghost s2 = out@.buf;
                    proof {
                        lemma_marks_keep(s1);
                    }
                    out.w(&lets);
                    proof {
                        lemma_boundary_after(s2, lets@.buf);
                    }
                    let ghost s3 = out@.buf;
                    out.w(t);
                    proof {
                        lemma_boundary_after(s3, t@.buf);
                    }
                    out.dedent();
                    out.w("}");
                    out
                },
                _ => {
                    proof {
                        assert(false);
                    }
                    Code::new()
                },
            }
        } else {
            let bt = self.emit_expr(&c.body, false, ctx2, facts);
            if lets.is_empty() {
                let mut out = head;
                out.w(" => ");
                out.w(bt);
                out
            } else {
                let mut out = head;
                out.wln(" => {");
                let ghost s1 = out@.buf;
                proof {
                    lemma_nl(Seq::empty(), hd + " => {"@);
                    assert(s1 =~= hd + " => {"@ + "\n"@);
                }
                out.indent();
                out.w(&lets);
                out.w("return ");
                out.w(bt);
                out.wln(";");
                let ghost s2 = out@.buf;
                proof {
                    lemma_nl(Seq::empty(), s2.drop_last());
                    reveal_strlit("\n");
                    assert(s2 =~= s2.drop_last() + "\n"@);
                }
                out.dedent();
                out.w("}");
                out
            }
        }
    }
}


impl BodyEmitter {
    /// The code of an expression as a statement and whether it diverges
    /// (see `stmt_code`); `returning`: whether its value is what the
    /// function returns.
    pub fn emit_stmt(&mut self, e: &Expr, returning: bool, ctx: EmitCtx, facts: &ExprFacts) -> (r: (Code, bool))
        requires
            stmt_code(*e, returning, ctx, *facts, old(self)@) is Some,
            old(self)@.names.fits(),
        ensures
            stmt_code(*e, returning, ctx, *facts, old(self)@) == Some((r.0@.buf, r.1, final(self)@)),
            r.0@.indent == 0,
            line_closed(r.0@.buf),
            final(self)@.names.fits(),
        decreases e, 2nat,
    {
        if !cfg_enabled(facts, &e.node_info()) {
            let out = Code::new();
            proof {
                assert(crate::output::last_non_special(out@.buf) is None);
            }
            return (out, false);
        }
        match e {
            Expr::BlockExpr(b) if b.modifier.is_none() => self.emit_block(b, returning, ctx, facts),
            Expr::ReturnExpr(r) => self.emit_stmt_return(r, returning, ctx, facts),
            Expr::TupleExpr(t) if matches!(t.fields, ChildrenContainer::Empty) => {
                let mut out = Code::new();
                out.wln("/* () unit expr */;");
                proof {
                    lemma_nl(Seq::empty(), "/* () unit expr */;"@);
                    assert(out@.buf =~= "/* () unit expr */;"@ + "\n"@);
                }
                (out, false)
            },
            Expr::IfExpr(i) => self.emit_if_stmt(i, returning, ctx, facts),
            Expr::LoopExpr(l) => self.emit_stmt_loop(l, returning, ctx, facts),
            Expr::WhileExpr(w) => self.emit_stmt_while(w, returning, ctx, facts),
            Expr::ForExpr(f) => self.emit_stmt_for(f, returning, ctx, facts),
            Expr::MatchExpr(m) => self.emit_stmt_match(m, returning, ctx, facts),
            Expr::BreakExpr(b) => self.emit_stmt_break(b, returning, ctx, facts),
            Expr::ContinueExpr(c) => self.emit_stmt_continue(c, returning, ctx, facts),
            Expr::AwaitExpr(a) => self.emit_stmt_await(a, returning, ctx, facts),
            Expr::MacroStmts(m) => self.emit_stmt_macro_stmts(m, returning, ctx, facts),
            Expr::RawCodeExpr(r) => {
                let mut out = r.code.clone();
                out.wln(";");
                proof {
                    lemma_nl(Seq::empty(), out@.buf.drop_last());
                    reveal_strlit("\n");
                    assert(out@.buf =~= out@.buf.drop_last() + "\n"@);
                }
                (out, r.divergent)
            },
            _ => {
                let t = self.emit_expr(e, true, ctx, facts);
                let mut out = if returning && !ctx.returns_unit {
                    code_of("return ")
                } else {
                    Code::new()
                };
                out.w(t);
                out.wln(";");
                proof {
                    lemma_nl(Seq::empty(), out@.buf.drop_last());
                    reveal_strlit("\n");
                    assert(out@.buf =~= out@.buf.drop_last() + "\n"@);
                }
                (out, returning && !ctx.returns_unit)
            },

        }
    }

    /// `head`, then `body` one indentation step deeper, then `}` on a line
    /// of its own.
    fn wrap_indented(&self, head: Code, body: Code) -> (r: Code)
        requires
            head@.indent == 0,
            crate::output::at_line_boundary(head@.buf),
            body@.indent == 0,
            line_closed(body@.buf),
        ensures
            r@.buf == head@.buf + inc() + body@.buf + dec() + ("}"@ + "\n"@),
            r@.indent == 0,
            line_closed(r@.buf),
            crate::output::last_non_special(r@.buf) == Some('\n'),
    {
        let ghost h = head@.buf;
        let ghost bb = body@.buf;
        let mut out = head;
        out.indent();
        let ghost s1 = out@.buf;
        proof {
            lemma_marks_keep(h);
        }
        out.w(body);
        proof {
            lemma_boundary_after(s1, bb);
        }
        out.dedent();
        out.wln("}");
        proof {
            lemma_nl(Seq::empty(), out@.buf.drop_last());
            reveal_strlit("\n");
            assert(out@.buf =~= out@.buf.drop_last() + "\n"@);
            assert(out@.buf =~= h + inc() + body@.buf + dec() + ("}"@ + "\n"@));
        }
        out
    }

    /// Writes the statement that returns without value.
    fn write_return_void(&self, out: &mut Code, ctx: EmitCtx)
        ensures
            final(out)@ == old(out)@.push_text(return_void_text(ctx)),
    {
        if ctx.is_async {
            out.wln("return default(global::System.ValueTuple); // void");
        } else {
            out.wln("return;");
        }
    }
}

proof fn lemma_return_void_closed(s: Seq<char>, ctx: EmitCtx)
    requires
        line_closed(s),
    ensures
        line_closed(s + return_void_text(ctx)),
        line_closed(return_void_text(ctx)),
{
    if ctx.is_async {
        lemma_nl(Seq::empty(), "return default(global::System.ValueTuple); // void"@);
        assert(Seq::<char>::empty() + ("return default(global::System.ValueTuple); // void"@ + "\n"@)
            =~= return_void_text(ctx));
    } else {
        lemma_nl(Seq::empty(), "return;"@);
        assert(Seq::<char>::empty() + ("return;"@ + "\n"@) =~= return_void_text(ctx));
    }
    lemma_closed_concat(s, return_void_text(ctx));
}


impl BodyEmitter {
    /// An `if` as a statement (see `if_stmt_code`).
    #[verifier::rlimit(40)]
    fn emit_if_stmt(&mut self, i: &IfExpr, returning: bool, ctx: EmitCtx, facts: &ExprFacts) -> (r: (Code, bool))
        requires
            if_stmt_code(*i, returning, ctx, *facts, old(self)@) is Some,
            old(self)@.names.fits(),
        ensures
            if_stmt_code(*i, returning, ctx, *facts, old(self)@) == Some((r.0@.buf, r.1, final(self)@)),
            r.0@.indent == 0,
            line_closed(r.0@.buf),
            crate::output::last_non_special(r.0@.buf) == Some('\n'),
            final(self)@.names.fits(),
        decreases i, 1nat,
    {
        let c = self.emit_expr(&i.condition, false, ctx, facts);
        let (t, td) = self.emit_block(&i.then_branch, returning, ctx, facts);
        let mut out = code_of("if (");
        out.w(c);
        out.wln(") {");
        let ghost s1 = out@.buf;
        proof {
            lemma_nl(Seq::empty(), s1.drop_last());
            reveal_strlit("\n");
            assert(s1 =~= s1.drop_last() + "\n"@);
        }
        out.indent();
        let ghost s2 = out@.buf;
        proof {
            lemma_marks_keep(s1);
        }
        let ghost tt = t@.buf;
        out.w(t);
        proof {
            lemma_boundary_after(s2, tt);
        }
        out.dedent();
        let ghost head = out@.buf;
        match &i.else_branch {
            None => {
                out.wln("}");
                proof {
                    lemma_nl(Seq::empty(), head + "}"@);
                    assert(out@.buf =~= head + ("}"@ + "\n"@));
                }
                (out, false)
            },
            Some(eb) => match &**eb {
                ElseBranch::IfExpr(ei) => {
                    let (et, ed) = self.emit_if_stmt(ei, returning, ctx, facts);
                    out.w("} else ");
                    out.w(et);
                    proof {
                        lemma_last_non_special_concat(head + "} else "@, et@.buf);
                        assert(out@.buf =~= (head + "} else "@) + et@.buf);
                    }
                    (out, td && ed)
                },
                ElseBranch::Block(b) => {
                    let (et, ed) = self.emit_block(b, returning, ctx, facts);
                    out.w("} else {");
                    out.wln("");
                    let ghost s4 = out@.buf;
                    proof {
                        reveal_strlit("");
                        lemma_nl(Seq::empty(), head + "} else {"@);
                        assert(s4 =~= head + "} else {"@ + "\n"@);
                    }
                    let out = self.wrap_indented(out, et);
                    (out, td && ed)
                },
            },
        }
    }

    /// A block's statements and tail (see `block_code`).
    pub fn emit_block(&mut self, b: &BlockExpr, returning: bool, ctx: EmitCtx, facts: &ExprFacts) -> (r: (Code, bool))
        requires
            block_code(*b, returning, ctx, *facts, old(self)@) is Some,
            old(self)@.names.fits(),
        ensures
            block_code(*b, returning, ctx, *facts, old(self)@) == Some((r.0@.buf, r.1, final(self)@)),
            r.0@.indent == 0,
            line_closed(r.0@.buf),
            final(self)@.names.fits(),
        decreases b, 1nat,
    {
        let (t1, d1) = self.emit_stmts(&b.statements, ctx, facts);
        let (t2, d2) = self.emit_opt_stmt(&b.tail_expr, returning, ctx, facts);
        let mut out = t1;
        let ghost a = out@.buf;
        out.w(t2);
        proof {
            lemma_closed_concat(a, t2@.buf);
        }
        (out, d1 || d2)
    }

    /// An optional tail expression as a statement (see `opt_stmt_code`).
    fn emit_opt_stmt(&mut self, o: &Option<Box<Expr>>, returning: bool, ctx: EmitCtx, facts: &ExprFacts) -> (r: (Code, bool))
        requires
            opt_stmt_code(*o, returning, ctx, *facts, old(self)@) is Some,
            old(self)@.names.fits(),
        ensures
            opt_stmt_code(*o, returning, ctx, *facts, old(self)@) == Some((r.0@.buf, r.1, final(self)@)),
            r.0@.indent == 0,
            line_closed(r.0@.buf),
            final(self)@.names.fits(),
        decreases o, 1nat,
    {
        match o {
            None => {
                let out = Code::new();
                proof {
                    assert(crate::output::last_non_special(out@.buf) is None);
                }
                (out, false)
            },
            Some(e) => self.emit_stmt(e, returning, ctx, facts),
        }
    }

    /// A list of statements (see `stmts_code`).
    fn emit_stmts(&mut self, c: &ChildrenContainer<Stmt>, ctx: EmitCtx, facts: &ExprFacts) -> (r: (Code, bool))
        requires
            stmts_code(*c, ctx, *facts, old(self)@) is Some,
            old(self)@.names.fits(),
        ensures
            stmts_code(*c, ctx, *facts, old(self)@) == Some((r.0@.buf, r.1, final(self)@)),
            r.0@.indent == 0,
            line_closed(r.0@.buf),
            final(self)@.names.fits(),
        decreases c, 1nat,
    {
        match c {
            ChildrenContainer::Empty => {
                let out = Code::new();
                proof {
                    assert(crate::output::last_non_special(out@.buf) is None);
                }
                (out, false)
            },
            ChildrenContainer::More(s, rest) => {
                let (t1, d1) = self.emit_stmt_one(s, ctx, facts);
                let (t2, d2) = self.emit_stmts(rest, ctx, facts);
                let mut out = t1;
                let ghost a = out@.buf;
                out.w(t2);
                proof {
                    lemma_closed_concat(a, t2@.buf);
                }
                (out, d1 || d2)
            },
        }
    }

    /// One statement (see `stmt_one_code`).
    #[verifier::rlimit(50)]
    fn emit_stmt_one(&mut self, s: &Stmt, ctx: EmitCtx, facts: &ExprFacts) -> (r: (Code, bool))
        requires
            stmt_one_code(*s, ctx, *facts, old(self)@) is Some,
            old(self)@.names.fits(),
        ensures
            stmt_one_code(*s, ctx, *facts, old(self)@) == Some((r.0@.buf, r.1, final(self)@)),
            r.0@.indent == 0,
            line_closed(r.0@.buf),
            final(self)@.names.fits(),
        decreases s, 1nat,
    {
        match s {
            Stmt::ExprStmt(es) => self.emit_stmt(&es.expr, false, ctx, facts),
            Stmt::LetStmt(ls) => match &ls.initializer {
                Some(init) => {
                    let v = self.emit_expr(init, false, ctx, facts);
                    match &ls.let_else {
                        Some(le) => {
                            if matches!(ls.pat, Pat::IdentPat(_)) {
                                let t = self.emit_let_unreachable(&ls.pat, &v, facts);
                                (t, false)
                            } else {
                                let p = self.emit_pat(&ls.pat, facts);
                                let (bt, _) = self.emit_block(&le.block_expr, false, ctx, facts);
                                let mut out = code_of("if (!(");
                                out.w(v);
                                out.w(" is ");
                                out.w(p);
                                out.w(")) ");
                                out.wln("{");
                                let ghost s1 = out@.buf;
                                proof {
                                    lemma_nl(Seq::empty(), s1.drop_last());
                                    reveal_strlit("\n");
                                    assert(s1 =~= s1.drop_last() + "\n"@);
                                }
                                let out = self.wrap_indented(out, bt);
                                (out, false)
                            }
                        },
                        None => {
                            let t = self.emit_let_unreachable(&ls.pat, &v, facts);
                            (t, false)
                        },
                    }
                },
                None => {
                    let t = self.emit_uninit_let(&ls.pat, facts);
                    (t, false)
                },
            },
            Stmt::Item(a) => {
                let mut out = Code::new();
                let defer_it = match find(&facts.items, a.id) {
                    Some(ItemFact::Fn(n)) => {
                        out.w("// inner fn: ");
                        out.w(n.as_str());
                        true
                    },
                    Some(ItemFact::Enum(n)) => {
                        out.w("// inner enum: ");
                        out.w(n.as_str());
                        true
                    },
                    Some(ItemFact::Struct(n)) => {
                        out.w("// inner enum: ");
                        out.w(n.as_str());
                        true
                    },
                    Some(ItemFact::Impl) => {
                        out.w("// impl");
                        true
                    },
                    Some(ItemFact::Const) => {
                        out.w("// const");
                        true
                    },
                    Some(ItemFact::Other(t)) => {
                        out.w("/* unsupported inner item: ");
                        out.w(t.as_str());
                        out.w(" */");
                        false
                    },
                    None => {
                        proof {
                            assert(false);
                        }
                        false
                    },
                };
                out.wln("");
                proof {
                    lemma_nl(Seq::empty(), out@.buf.drop_last());
                    reveal_strlit("\n");
                    reveal_strlit("");
                    assert(out@.buf =~= out@.buf.drop_last() + "\n"@);
                }
                if defer_it {
                    self.deferred.push(*a);
                }
                (out, false)
            },
        }
    }

    /// The arms of a `switch` statement (see `arms_stmt_code`).
    #[verifier::rlimit(50)]
    fn emit_arms_stmt(&mut self, c: &ChildrenContainer<MatchArm>, returning: bool, ctx: EmitCtx, facts: &ExprFacts) -> (r: (Code, bool))
        requires
            arms_stmt_code(*c, returning, ctx, *facts, old(self)@) is Some,
            old(self)@.names.fits(),
        ensures
            arms_stmt_code(*c, returning, ctx, *facts, old(self)@) == Some((r.0@.buf, r.1, final(self)@)),
            r.0@.indent == 0,
            line_closed(r.0@.buf),
            final(self)@.names.fits(),
        decreases c, 1nat,
    {
        match c {
            ChildrenContainer::Empty => {
                let out = Code::new();
                proof {
                    assert(crate::output::last_non_special(out@.buf) is None);
                }
                (out, true)
            },
            ChildrenContainer::More(a, rest) => {
                let p = self.emit_pat(&a.pat, facts);
                let mut out = code_of("case ");
                out.w(p);
                out.w(" ");
                match &a.guard {
                    Some(g) => {
                        let gt = self.emit_expr(g, false, ctx, facts);
                        out.w("when ");
                        out.w(gt);
                    },
                    None => {},
                }
                let (bt, bd) = self.emit_stmt(&a.expr, returning, ctx, facts);
                out.wln(":{");
                let ghost s1 = out@.buf;
                proof {
                    lemma_nl(Seq::empty(), s1.drop_last());
                    reveal_strlit("\n");
                    assert(s1 =~= s1.drop_last() + "\n"@);
                }
                let mut body = bt;
                if !bd {
                    let ghost b1 = body@.buf;
                    body.wln("break;");
                    proof {
                        lemma_nl(Seq::empty(), b1 + "break;"@);
                    }
                }
                let arm = self.wrap_indented(out, body);
                let (more, md) = self.emit_arms_stmt(rest, returning, ctx, facts);
                let mut out = arm;
                let ghost x = out@.buf;
                out.w(more);
                proof {
                    lemma_closed_concat(x, more@.buf);
                }
                (out, bd && md)
            },
        }
    }

    /// Appends a function's (or async block's) body to `out` (see
    /// `returning_block_code`).
    pub fn emit_returning_block(&mut self, out: &mut Code, b: &BlockExpr, ctx: EmitCtx, facts: &ExprFacts)
        requires
            returning_block_code(*b, ctx, *facts, old(self)@) is Some,
            old(self)@.names.fits(),
        ensures
            final(out)@ == old(out)@.push_text(returning_block_code(*b, ctx, *facts, old(self)@).unwrap().0),
            final(self)@ == returning_block_code(*b, ctx, *facts, old(self)@).unwrap().1,
            final(self)@.names.fits(),
    {
        let (t, d) = self.emit_block(b, true, ctx, facts);
        let ghost start = out@;
        let ghost tt = t@.buf;
        out.w(t);
        if ctx.returns_unit && ctx.is_async && !d {
            out.wln("return default;");
            assert(out@.buf =~= start.buf + (tt + ("return default;"@ + "\n"@)));
        } else {
            assert(out@.buf =~= start.buf + (tt + Seq::empty()));
        }
    }
}

impl BodyEmitter {
    fn emit_field(&mut self, f: &crate::eir::FieldExpr, ctx: EmitCtx, facts: &ExprFacts) -> (r: Code)
        requires
            expr_code(Expr::FieldExpr(*f), false, ctx, *facts, old(self)@) is Some,
            old(self)@.names.fits(),
        ensures
            forall|statement: bool| expr_code(Expr::FieldExpr(*f), statement, ctx, *facts, old(self)@)
                == Some((r@.buf, final(self)@)),
            r@.indent == 0,
            final(self)@.names.fits(),
        decreases Expr::FieldExpr(*f), 0nat,
    {
        {
            let r = self.emit_expr(&f.expr, false, ctx, facts);
            let ghost rt = r@.buf;
            match fact_for(facts, &f.node_info) {
                Some(ExprFact::Field { deref_adjusted, target }) => {
                    let mut out = Code::new();
                    out.w(r);
                    if *deref_adjusted {
                        out.w(".m_Deref()");
                    }
                    let ghost adj = if *deref_adjusted { ".m_Deref()"@ } else { Seq::<char>::empty() };
                    assert(out@.buf =~= rt + adj);
                    match target {
                        FieldTarget::Unresolved => {
                            out.w("./* unresolved field */");
                        },
                        FieldTarget::Named(n) => {
                            out.w(".");
                            out.w(n.as_str());
                        },
                        FieldTarget::Index(i) => {
                            out.w(".Item");
                            out.w(*i + 1);
                        },
                    }
                    assert(Some(out@.buf) == field_text(expr_fact(*facts, f.node_info), rt));
                    out
                },
                _ => {
                    proof {
                        assert(false);
                    }
                    Code::new()
                },
            }
        }
    }

    fn emit_method_call(&mut self, m: &crate::eir::MethodCallExpr, ctx: EmitCtx, facts: &ExprFacts) -> (r: Code)
        requires
            expr_code(Expr::MethodCallExpr(*m), false, ctx, *facts, old(self)@) is Some,
            old(self)@.names.fits(),
        ensures
            forall|statement: bool| expr_code(Expr::MethodCallExpr(*m), statement, ctx, *facts, old(self)@)
                == Some((r@.buf, final(self)@)),
            r@.indent == 0,
            final(self)@.names.fits(),
        decreases Expr::MethodCallExpr(*m), 0nat,
    {
        {
            let recv = self.emit_expr(&m.receiver, false, ctx, facts);
            match fact_for(facts, &m.node_info) {
                Some(ExprFact::MethodCall { resolved, self_cs, generic_cs }) => {
                    if matches!(resolved, ResolvedFunction::OmitCall { .. }) {
                        let args = vec![recv];
                        assert(crate::emitter::code_texts(args@) =~= seq![args@[0]@.buf]);
                        emit_call_expr(resolved, &args, self_cs.as_str(), generic_cs)
                    } else {
                        let ghost rt = recv@.buf;
                        let mut args = self.emit_exprs(&m.arg_list.args, ctx, facts);
                        let ghost ats = crate::emitter::code_texts(args@);
                        args.insert(0, recv);
                        assert(crate::emitter::code_texts(args@) =~= seq![rt] + ats);
                        emit_call_expr(resolved, &args, self_cs.as_str(), generic_cs)
                    }
                },
                _ => {
                    let name = match lookup_name(&facts.pats, &m.name_ref) {
                        Some(n) => n,
                        None => {
                            proof {
                                assert(false);
                            }
                            String::new()
                        },
                    };
                    let args = self.emit_exprs(&m.arg_list.args, ctx, facts);
                    let mut out = Code::new();
                    out.w(recv);
                    out.w(".");
                    out.w(name);
                    out.w("(");
                    crate::emitter::write_joined(&mut out, &args, ", ");
                    out.w(")");
                    out
                },
            }
        }
    }

    fn emit_call(&mut self, c: &crate::eir::CallExpr, ctx: EmitCtx, facts: &ExprFacts) -> (r: Code)
        requires
            expr_code(Expr::CallExpr(*c), false, ctx, *facts, old(self)@) is Some,
            old(self)@.names.fits(),
        ensures
            forall|statement: bool| expr_code(Expr::CallExpr(*c), statement, ctx, *facts, old(self)@)
                == Some((r@.buf, final(self)@)),
            r@.indent == 0,
            final(self)@.names.fits(),
        decreases Expr::CallExpr(*c), 0nat,
    {
        match fact_for(facts, &c.node_info) {
            Some(ExprFact::CtorCall(ty)) => {
                let args = self.emit_exprs(&c.arg_list.args, ctx, facts);
                let mut out = code_of(ty.as_str());
                out.w(".ctor(");
                crate::emitter::write_joined(&mut out, &args, ", ");
                out.w(")");
                out
            },
            Some(ExprFact::FunctionCall { resolved, self_cs, generic_cs }) => {
                if matches!(resolved, ResolvedFunction::OmitCall { .. }) {
                    match &c.arg_list.args {
                        ChildrenContainer::More(first, _) => {
                            let a = self.emit_expr(first, false, ctx, facts);
                            let args = vec![a];
                            assert(crate::emitter::code_texts(args@) =~= seq![args@[0]@.buf]);
                            emit_call_expr(resolved, &args, self_cs.as_str(), generic_cs)
                        },
                        ChildrenContainer::Empty => {
                            proof {
                                assert(false);
                            }
                            Code::new()
                        },
                    }
                } else {
                    let args = self.emit_exprs(&c.arg_list.args, ctx, facts);
                    emit_call_expr(resolved, &args, self_cs.as_str(), generic_cs)
                }
            },
            _ => {
                let callee = self.emit_expr(&c.expr, false, ctx, facts);
                let args = self.emit_exprs(&c.arg_list.args, ctx, facts);
                let mut out = Code::new();
                out.w(callee);
                out.w("(");
                crate::emitter::write_joined(&mut out, &args, ", ");
                out.w(")");
                out
            },
        }
    }

    fn emit_cast(&mut self, c: &crate::eir::CastExpr, ctx: EmitCtx, facts: &ExprFacts) -> (r: Code)
        requires
            expr_code(Expr::CastExpr(*c), false, ctx, *facts, old(self)@) is Some,
            old(self)@.names.fits(),
        ensures
            forall|statement: bool| expr_code(Expr::CastExpr(*c), statement, ctx, *facts, old(self)@)
                == Some((r@.buf, final(self)@)),
            r@.indent == 0,
            final(self)@.names.fits(),
        decreases Expr::CastExpr(*c), 0nat,
    {
        match fact_for(facts, &c.node_info) {
            Some(ExprFact::Type(ty)) => {
                let t = self.emit_expr(&c.expr, false, ctx, facts);
                let mut out = code_of("(");
                out.w(ty.as_str());
                out.w(") ");
                out.w(t);
                out
            },
            _ => {
                proof {
                    assert(false);
                }
                Code::new()
            },
        }
    }

    fn emit_block_expr(&mut self, b: &crate::eir::BlockExpr, ctx: EmitCtx, facts: &ExprFacts) -> (r: Code)
        requires
            expr_code(Expr::BlockExpr(*b), false, ctx, *facts, old(self)@) is Some,
            old(self)@.names.fits(),
        ensures
            forall|statement: bool| expr_code(Expr::BlockExpr(*b), statement, ctx, *facts, old(self)@)
                == Some((r@.buf, final(self)@)),
            r@.indent == 0,
            final(self)@.names.fits(),
        decreases Expr::BlockExpr(*b), 0nat,
    {
        match &b.modifier {
            None => self.emit_simple_block(b, ctx, facts),
            Some(BlockModifier::Async) => match fact_for(facts, &b.node_info) {
                Some(ExprFact::AsyncBlock { return_cs, returns_unit }) => {
                    let ctx2 = EmitCtx { is_async: true, returns_unit: *returns_unit };
                    let (t, d) = self.emit_block(b, true, ctx2, facts);
                    let mut out = code_of("RustTask.New<");
                    out.w(return_cs.as_str());
                    out.wln(">(async () => {");
                    let ghost s1 = out@.buf;
                    proof {
                        lemma_nl(Seq::empty(), "RustTask.New<"@ + return_cs@ + ">(async () => {"@);
                        assert(s1 =~= "RustTask.New<"@ + return_cs@ + ">(async () => {"@ + "\n"@);
                    }
                    out.indent();
                    let ghost s2 = out@.buf;
                    proof {
                        lemma_marks_keep(s1);
                    }
                    out.w(t);
                    proof {
                        lemma_boundary_after(s2, t@.buf);
                    }
                    let ghost s3 = out@.buf;
                    if *returns_unit && !d {
                        out.wln("return default;");
                        proof {
                            lemma_nl(s3, "return default;"@);
                        }
                    }
                    out.dedent();
                    out.w("})");
                    out
                },
                _ => {
                    proof {
                        assert(false);
                    }
                    Code::new()
                },
            },
            Some(_) => {
                proof {
                    assert(false);
                }
                Code::new()
            },
        }
    }

    fn emit_tuple(&mut self, t: &crate::eir::TupleExpr, ctx: EmitCtx, facts: &ExprFacts) -> (r: Code)
        requires
            expr_code(Expr::TupleExpr(*t), false, ctx, *facts, old(self)@) is Some,
            old(self)@.names.fits(),
        ensures
            forall|statement: bool| expr_code(Expr::TupleExpr(*t), statement, ctx, *facts, old(self)@)
                == Some((r@.buf, final(self)@)),
            r@.indent == 0,
            final(self)@.names.fits(),
        decreases Expr::TupleExpr(*t), 0nat,
    {
        match &t.fields {
            ChildrenContainer::Empty => code_of("default(global::System.ValueTuple)"),
            _ => {
                let parts = self.emit_exprs(&t.fields, ctx, facts);
                let mut out = code_of("(");
                crate::emitter::write_joined(&mut out, &parts, ", ");
                out.w(")");
                out
            },
        }
    }

    fn emit_record(&mut self, r: &crate::eir::RecordExpr, ctx: EmitCtx, facts: &ExprFacts) -> (out_code: Code)
        requires
            expr_code(Expr::RecordExpr(*r), false, ctx, *facts, old(self)@) is Some,
            old(self)@.names.fits(),
        ensures
            forall|statement: bool| expr_code(Expr::RecordExpr(*r), statement, ctx, *facts, old(self)@)
                == Some((out_code@.buf, final(self)@)),
            out_code@.indent == 0,
            final(self)@.names.fits(),
        decreases Expr::RecordExpr(*r), 0nat,
    {
        match fact_for(facts, &r.node_info) {
            Some(ExprFact::TypelessRecord(t)) => {
                let mut out = code_of("(TypelessConstruction/*");
                out.w(t.as_str());
                out.w("*/)");
                out
            },
            Some(ExprFact::UnionRecord(t)) => {
                let mut out = code_of("(UnionConstruction/*");
                out.w(t.as_str());
                out.w("*/)");
                out
            },
            Some(ExprFact::RecordCtor(ty)) => {
                let inits = self.emit_record_fields(&r.record_expr_field_list.fields, ctx, facts);
                let mut out = code_of("new ");
                out.w(ty.as_str());
                out.wln("() {");
                let ghost s1 = out@.buf;
                proof {
                    lemma_nl(Seq::empty(), "new "@ + ty@ + "() {"@);
                    assert(s1 =~= "new "@ + ty@ + "() {"@ + "\n"@);
                }
                out.indent();
                crate::emitter::write_joined(&mut out, &inits, ", \n");
                out.wln("");
                let ghost s2 = out@.buf;
                proof {
                    lemma_nl(Seq::empty(), s2.drop_last());
                    reveal_strlit("\n");
                    assert(s2 =~= s2.drop_last() + "\n"@);
                    reveal_strlit(", \n");
                    reveal_strlit(", ");
                    assert(", \n"@ =~= ", "@ + "\n"@);
                }
                out.dedent();
                out.w("}");
                proof {
                    reveal_strlit("");
                    let xs = crate::emitter::code_texts(inits@);
                    assert(join_with(xs, ", \n"@) == join_with(xs, ", "@ + "\n"@));
                    assert(out@.buf =~= "new "@ + ty@ + ("() {"@ + "\n"@) + inc() + join_with(xs, (", "@ + "\n"@))
                        + "\n"@ + dec() + "}"@);
                }
                out
            },
            _ => {
                proof {
                    assert(false);
                }
                Code::new()
            },
        }
    }

    fn emit_index(&mut self, x: &crate::eir::IndexExpr, ctx: EmitCtx, facts: &ExprFacts) -> (r: Code)
        requires
            expr_code(Expr::IndexExpr(*x), false, ctx, *facts, old(self)@) is Some,
            old(self)@.names.fits(),
        ensures
            forall|statement: bool| expr_code(Expr::IndexExpr(*x), statement, ctx, *facts, old(self)@)
                == Some((r@.buf, final(self)@)),
            r@.indent == 0,
            final(self)@.names.fits(),
        decreases Expr::IndexExpr(*x), 0nat,
    {
        {
            let b = self.emit_expr(&x.base, false, ctx, facts);
            let i = self.emit_expr(&x.index, false, ctx, facts);
            let mut out = Code::new();
            out.w(b);
            out.w(".Index(");
            out.w(i);
            out.w(")");
            out
        }
    }

    fn emit_array_repeat(&mut self, a: &crate::eir::ArrayRepeatExpr, ctx: EmitCtx, facts: &ExprFacts) -> (r: Code)
        requires
            expr_code(Expr::ArrayRepeatExpr(*a), false, ctx, *facts, old(self)@) is Some,
            old(self)@.names.fits(),
        ensures
            forall|statement: bool| expr_code(Expr::ArrayRepeatExpr(*a), statement, ctx, *facts, old(self)@)
                == Some((r@.buf, final(self)@)),
            r@.indent == 0,
            final(self)@.names.fits(),
        decreases Expr::ArrayRepeatExpr(*a), 0nat,
    {
        {
            let v = self.emit_expr(&a.initializer, false, ctx, facts);
            let n = self.emit_expr(&a.repeat, false, ctx, facts);
            let mut out = code_of("new object[");
            out.w(n);
            out.w("] /* fill ");
            out.w(v);
            out.w("*/");
            out
        }
    }

    fn emit_array_list(&mut self, a: &crate::eir::ArrayElementListExpr, ctx: EmitCtx, facts: &ExprFacts) -> (r: Code)
        requires
            expr_code(Expr::ArrayElementListExpr(*a), false, ctx, *facts, old(self)@) is Some,
            old(self)@.names.fits(),
        ensures
            forall|statement: bool| expr_code(Expr::ArrayElementListExpr(*a), statement, ctx, *facts, old(self)@)
                == Some((r@.buf, final(self)@)),
            r@.indent == 0,
            final(self)@.names.fits(),
        decreases Expr::ArrayElementListExpr(*a), 0nat,
    {
        match fact_for(facts, &a.node_info) {
            Some(ExprFact::Type(el)) => {
                let parts = self.emit_exprs(&a.elements, ctx, facts);
                let mut out = code_of("new ");
                out.w(el.as_str());
                out.w("[] { ");
                crate::emitter::write_joined(&mut out, &parts, ", ");
                out.w(" }");
                out
            },
            _ => {
                proof {
                    assert(false);
                }
                Code::new()
            },
        }
    }

    fn emit_return(&mut self, r: &crate::eir::ReturnExpr, ctx: EmitCtx, facts: &ExprFacts) -> (out_code: Code)
        requires
            expr_code(Expr::ReturnExpr(*r), false, ctx, *facts, old(self)@) is Some,
            old(self)@.names.fits(),
        ensures
            forall|statement: bool| expr_code(Expr::ReturnExpr(*r), statement, ctx, *facts, old(self)@)
                == Some((out_code@.buf, final(self)@)),
            out_code@.indent == 0,
            final(self)@.names.fits(),
        decreases Expr::ReturnExpr(*r), 0nat,
    {
        {
            let v = self.emit_opt_expr(&r.expr, ctx, facts);
            let mut out = code_of("/* return-expr */ throw r2CsRuntime.Helpers.Returns<object>(");
            match v {
                Some(t) => {
                    out.w(t);
                },
                None => {
                    out.w("0 /* unit */");
                },
            }
            out.w(")");
            out
        }
    }

    fn emit_let_expr(&mut self, l: &crate::eir::LetExpr, ctx: EmitCtx, facts: &ExprFacts) -> (r: Code)
        requires
            expr_code(Expr::LetExpr(*l), false, ctx, *facts, old(self)@) is Some,
            old(self)@.names.fits(),
        ensures
            forall|statement: bool| expr_code(Expr::LetExpr(*l), statement, ctx, *facts, old(self)@)
                == Some((r@.buf, final(self)@)),
            r@.indent == 0,
            final(self)@.names.fits(),
        decreases Expr::LetExpr(*l), 0nat,
    {
        {
            let v = self.emit_expr(&l.expr, false, ctx, facts);
            let p = self.emit_pat(&l.pat, facts);
            let mut out = code_of("(");
            out.w(v);
            out.w(" is ");
            out.w(p);
            out.w(")");
            out
        }
    }

    fn emit_match(&mut self, m: &crate::eir::MatchExpr, ctx: EmitCtx, facts: &ExprFacts) -> (r: Code)
        requires
            expr_code(Expr::MatchExpr(*m), false, ctx, *facts, old(self)@) is Some,
            old(self)@.names.fits(),
        ensures
            forall|statement: bool| expr_code(Expr::MatchExpr(*m), statement, ctx, *facts, old(self)@)
                == Some((r@.buf, final(self)@)),
            r@.indent == 0,
            final(self)@.names.fits(),
        decreases Expr::MatchExpr(*m), 0nat,
    {
        {
            let sc = self.emit_expr(&m.expr, false, ctx, facts);
            let arms = self.emit_arms(&m.match_arm_list.arms, ctx, facts);
            let mut out = code_of("(");
            out.w(sc);
            out.wln(") switch {");
            let ghost s1 = out@.buf;
            proof {
                lemma_nl(Seq::empty(), s1.drop_last());
                reveal_strlit("\n");
                assert(s1 =~= s1.drop_last() + "\n"@);
            }
            out.indent();
            let ghost s2 = out@.buf;
            proof {
                lemma_marks_keep(s1);
            }
            out.w(arms);
            proof {
                lemma_boundary_after(s2, arms@.buf);
            }
            out.dedent();
            out.w("}");
            out
        }
    }

    fn emit_format_args(&mut self, f: &crate::eir::FormatArgsExpr, ctx: EmitCtx, facts: &ExprFacts) -> (r: Code)
        requires
            expr_code(Expr::FormatArgsExpr(*f), false, ctx, *facts, old(self)@) is Some,
            old(self)@.names.fits(),
        ensures
            forall|statement: bool| expr_code(Expr::FormatArgsExpr(*f), statement, ctx, *facts, old(self)@)
                == Some((r@.buf, final(self)@)),
            r@.indent == 0,
            final(self)@.names.fits(),
        decreases Expr::FormatArgsExpr(*f), 0nat,
    {
        {
            let t = self.emit_segments(&f.segments, ctx, facts);
            let mut out = code_of("$\"");
            out.w(t);
            out.w("\"");
            out
        }
    }

    fn emit_vec_repeat(&mut self, v: &crate::eir::VecRepeatExpr, ctx: EmitCtx, facts: &ExprFacts) -> (r: Code)
        requires
            expr_code(Expr::VecRepeatExpr(*v), false, ctx, *facts, old(self)@) is Some,
            old(self)@.names.fits(),
        ensures
            forall|statement: bool| expr_code(Expr::VecRepeatExpr(*v), statement, ctx, *facts, old(self)@)
                == Some((r@.buf, final(self)@)),
            r@.indent == 0,
            final(self)@.names.fits(),
        decreases Expr::VecRepeatExpr(*v), 0nat,
    {
        match (&v.initializer, &v.repeat) {
            (Some(init), Some(rep)) => {
                let a = self.emit_expr(init, false, ctx, facts);
                let n = self.emit_expr(rep, false, ctx, facts);
                let mut out = code_of("new object[");
                out.w(n);
                out.w("] /* fill ");
                out.w(a);
                out.w("*/");
                out
            },
            _ => {
                proof {
                    assert(false);
                }
                Code::new()
            },
        }
    }

    fn emit_vec_list(&mut self, v: &crate::eir::VecListExpr, ctx: EmitCtx, facts: &ExprFacts) -> (r: Code)
        requires
            expr_code(Expr::VecListExpr(*v), false, ctx, *facts, old(self)@) is Some,
            old(self)@.names.fits(),
        ensures
            forall|statement: bool| expr_code(Expr::VecListExpr(*v), statement, ctx, *facts, old(self)@)
                == Some((r@.buf, final(self)@)),
            r@.indent == 0,
            final(self)@.names.fits(),
        decreases Expr::VecListExpr(*v), 0nat,
    {
        match fact_for(facts, &v.node_info) {
            Some(ExprFact::Type(el)) => match &v.elements {
                ChildrenContainer::Empty => {
                    let mut out = code_of("new List<");
                    out.w(el.as_str());
                    out.w(">()");
                    out
                },
                _ => {
                    let parts = self.emit_exprs(&v.elements, ctx, facts);
                    let mut out = code_of("new List<");
                    out.w(el.as_str());
                    out.w("> { ");
                    crate::emitter::write_joined(&mut out, &parts, ", ");
                    out.w(" }");
                    out
                },
            },
            _ => {
                proof {
                    assert(false);
                }
                Code::new()
            },
        }
    }
}

impl BodyEmitter {
    fn emit_stmt_return(&mut self, r: &crate::eir::ReturnExpr, returning: bool, ctx: EmitCtx, facts: &ExprFacts) -> (res: (Code, bool))
        requires
            cfg_on(*facts, expr_info(Expr::ReturnExpr(*r))),
            stmt_code(Expr::ReturnExpr(*r), returning, ctx, *facts, old(self)@) is Some,
            old(self)@.names.fits(),
        ensures
            stmt_code(Expr::ReturnExpr(*r), returning, ctx, *facts, old(self)@) == Some((res.0@.buf, res.1, final(self)@)),
            res.0@.indent == 0,
            line_closed(res.0@.buf),
            final(self)@.names.fits(),
        decreases Expr::ReturnExpr(*r), 1nat,
    {
        match &r.expr {
            Some(v) => {
                let (t, d) = self.emit_stmt(v, true, ctx, facts);
                let mut out = Code::new();
                out.w(t);
                let ghost s1 = out@.buf;
                if !d {
                    self.write_return_void(&mut out, ctx);
                    proof {
                        lemma_return_void_closed(s1, ctx);
                    }
                }
                (out, true)
            },
            None => {
                let mut out = Code::new();
                self.write_return_void(&mut out, ctx);
                proof {
                    lemma_return_void_closed(Seq::empty(), ctx);
                    assert(out@.buf =~= return_void_text(ctx));
                }
                (out, true)
            },
        }
    }

    fn emit_stmt_loop(&mut self, l: &crate::eir::LoopExpr, returning: bool, ctx: EmitCtx, facts: &ExprFacts) -> (r: (Code, bool))
        requires
            cfg_on(*facts, expr_info(Expr::LoopExpr(*l))),
            stmt_code(Expr::LoopExpr(*l), returning, ctx, *facts, old(self)@) is Some,
            old(self)@.names.fits(),
        ensures
            stmt_code(Expr::LoopExpr(*l), returning, ctx, *facts, old(self)@) == Some((r.0@.buf, r.1, final(self)@)),
            r.0@.indent == 0,
            line_closed(r.0@.buf),
            final(self)@.names.fits(),
        decreases Expr::LoopExpr(*l), 1nat,
    {
        {
            let lp = match label_prefix_of(facts, l.label) {
                Some(t) => t,
                None => {
                    proof {
                        assert(false);
                    }
                    String::new()
                },
            };
            let (t, _) = self.emit_block(&l.loop_body, false, ctx, facts);
            let mut out = code_of(lp.as_str());
            out.wln("while (true) {");
            let ghost s1 = out@.buf;
            proof {
                lemma_nl(Seq::empty(), lp@ + "while (true) {"@);
                assert(s1 =~= lp@ + "while (true) {"@ + "\n"@);
            }
            let out = self.wrap_indented(out, t);
            (out, true)
        }
    }

    fn emit_stmt_while(&mut self, w: &crate::eir::WhileExpr, returning: bool, ctx: EmitCtx, facts: &ExprFacts) -> (r: (Code, bool))
        requires
            cfg_on(*facts, expr_info(Expr::WhileExpr(*w))),
            stmt_code(Expr::WhileExpr(*w), returning, ctx, *facts, old(self)@) is Some,
            old(self)@.names.fits(),
        ensures
            stmt_code(Expr::WhileExpr(*w), returning, ctx, *facts, old(self)@) == Some((r.0@.buf, r.1, final(self)@)),
            r.0@.indent == 0,
            line_closed(r.0@.buf),
            final(self)@.names.fits(),
        decreases Expr::WhileExpr(*w), 1nat,
    {
        {
            let lp = match label_prefix_of(facts, Some(w.label)) {
                Some(t) => t,
                None => {
                    proof {
                        assert(false);
                    }
                    String::new()
                },
            };
            let c = self.emit_expr(&w.condition, false, ctx, facts);
            let (t, _) = self.emit_block(&w.loop_body, false, ctx, facts);
            let mut out = code_of(lp.as_str());
            out.w("while (");
            out.w(c);
            out.wln(") {");
            let ghost s1 = out@.buf;
            proof {
                lemma_nl(Seq::empty(), s1.drop_last());
                reveal_strlit("\n");
                assert(s1 =~= s1.drop_last() + "\n"@);
            }
            let out = self.wrap_indented(out, t);
            (out, false)
        }
    }

    fn emit_stmt_for(&mut self, f: &crate::eir::ForExpr, returning: bool, ctx: EmitCtx, facts: &ExprFacts) -> (r: (Code, bool))
        requires
            cfg_on(*facts, expr_info(Expr::ForExpr(*f))),
            stmt_code(Expr::ForExpr(*f), returning, ctx, *facts, old(self)@) is Some,
            old(self)@.names.fits(),
        ensures
            stmt_code(Expr::ForExpr(*f), returning, ctx, *facts, old(self)@) == Some((r.0@.buf, r.1, final(self)@)),
            r.0@.indent == 0,
            line_closed(r.0@.buf),
            final(self)@.names.fits(),
        decreases Expr::ForExpr(*f), 1nat,
    {
        {
            let lp = match label_prefix_of(facts, f.label) {
                Some(t) => t,
                None => {
                    proof {
                        assert(false);
                    }
                    String::new()
                },
            };
            let idx = self.match_index;
            self.match_index = self.match_index.wrapping_add(1);
            proof {
                if idx == usize::MAX {
                    assert(self.match_index == 0);
                }
            }
            let mut temp = to_string("__temp_");
            crate::text::push_decimal(&mut temp, idx as u128);
            let it = self.emit_expr(&f.iterable, false, ctx, facts);
            let tc = code_of(temp.as_str());
            let lt = self.emit_let_unreachable(&f.pat, &tc, facts);
            let (t, _) = self.emit_block(&f.loop_body, false, ctx, facts);
            let mut out = code_of(lp.as_str());
            out.w("foreach (var ");
            out.w(temp.as_str());
            out.w(" in ");
            out.w(it);
            out.wln(") {");
            let ghost s1 = out@.buf;
            proof {
                lemma_nl(Seq::empty(), s1.drop_last());
                reveal_strlit("\n");
                assert(s1 =~= s1.drop_last() + "\n"@);
            }
            let mut body = lt;
            let ghost l1 = body@.buf;
            body.w(t);
            proof {
                lemma_closed_concat(l1, t@.buf);
            }
            let out = self.wrap_indented(out, body);
            (out, false)
        }
    }

    fn emit_stmt_match(&mut self, m: &crate::eir::MatchExpr, returning: bool, ctx: EmitCtx, facts: &ExprFacts) -> (r: (Code, bool))
        requires
            cfg_on(*facts, expr_info(Expr::MatchExpr(*m))),
            stmt_code(Expr::MatchExpr(*m), returning, ctx, *facts, old(self)@) is Some,
            old(self)@.names.fits(),
        ensures
            stmt_code(Expr::MatchExpr(*m), returning, ctx, *facts, old(self)@) == Some((r.0@.buf, r.1, final(self)@)),
            r.0@.indent == 0,
            line_closed(r.0@.buf),
            final(self)@.names.fits(),
        decreases Expr::MatchExpr(*m), 1nat,
    {
        {
            let sc = self.emit_expr(&m.expr, false, ctx, facts);
            let (a, d) = self.emit_arms_stmt(&m.match_arm_list.arms, returning, ctx, facts);
            let mut out = code_of("switch (");
            out.w(sc);
            out.wln(") {");
            let ghost s1 = out@.buf;
            proof {
                lemma_nl(Seq::empty(), s1.drop_last());
                reveal_strlit("\n");
                assert(s1 =~= s1.drop_last() + "\n"@);
            }
            let mut body = a;
            let ghost b1 = body@.buf;
            body.wln("default: throw new System.NullReferenceException();");
            proof {
                lemma_nl(Seq::empty(), b1 + "default: throw new System.NullReferenceException();"@);
            }
            let out = self.wrap_indented(out, body);
            (out, d)
        }
    }

    fn emit_stmt_break(&mut self, b: &crate::eir::BreakExpr, returning: bool, ctx: EmitCtx, facts: &ExprFacts) -> (r: (Code, bool))
        requires
            cfg_on(*facts, expr_info(Expr::BreakExpr(*b))),
            stmt_code(Expr::BreakExpr(*b), returning, ctx, *facts, old(self)@) is Some,
            old(self)@.names.fits(),
        ensures
            stmt_code(Expr::BreakExpr(*b), returning, ctx, *facts, old(self)@) == Some((r.0@.buf, r.1, final(self)@)),
            r.0@.indent == 0,
            line_closed(r.0@.buf),
            final(self)@.names.fits(),
        decreases Expr::BreakExpr(*b), 1nat,
    {
        {
            let lc = match label_comment_of(facts, b.lifetime) {
                Some(t) => t,
                None => {
                    proof {
                        assert(false);
                    }
                    String::new()
                },
            };
            match &b.expr {
                Some(v) => {
                    let t = self.emit_expr(v, false, ctx, facts);
                    let mut out = code_of("/* break ");
                    out.w(t);
                    out.wln(" */");
                    proof {
                        lemma_nl(Seq::empty(), out@.buf.drop_last());
                        reveal_strlit("\n");
                        assert(out@.buf =~= out@.buf.drop_last() + "\n"@);
                    }
                    (out, false)
                },
                None => {
                    let mut out = code_of("break");
                    out.w(lc.as_str());
                    out.wln(";");
                    proof {
                        lemma_nl(Seq::empty(), out@.buf.drop_last());
                        reveal_strlit("\n");
                        assert(out@.buf =~= out@.buf.drop_last() + "\n"@);
                    }
                    (out, true)
                },
            }
        }
    }

    fn emit_stmt_continue(&mut self, c: &crate::eir::ContinueExpr, returning: bool, ctx: EmitCtx, facts: &ExprFacts) -> (r: (Code, bool))
        requires
            cfg_on(*facts, expr_info(Expr::ContinueExpr(*c))),
            stmt_code(Expr::ContinueExpr(*c), returning, ctx, *facts, old(self)@) is Some,
            old(self)@.names.fits(),
        ensures
            stmt_code(Expr::ContinueExpr(*c), returning, ctx, *facts, old(self)@) == Some((r.0@.buf, r.1, final(self)@)),
            r.0@.indent == 0,
            line_closed(r.0@.buf),
            final(self)@.names.fits(),
        decreases Expr::ContinueExpr(*c), 1nat,
    {
        {
            let lc = match label_comment_of(facts, c.lifetime) {
                Some(t) => t,
                None => {
                    proof {
                        assert(false);
                    }
                    String::new()
                },
            };
            let mut out = code_of("continue");
            out.w(lc.as_str());
            out.wln(";");
            proof {
                lemma_nl(Seq::empty(), out@.buf.drop_last());
                reveal_strlit("\n");
                assert(out@.buf =~= out@.buf.drop_last() + "\n"@);
            }
            (out, true)
        }
    }

    fn emit_stmt_await(&mut self, a: &crate::eir::AwaitExpr, returning: bool, ctx: EmitCtx, facts: &ExprFacts) -> (r: (Code, bool))
        requires
            cfg_on(*facts, expr_info(Expr::AwaitExpr(*a))),
            stmt_code(Expr::AwaitExpr(*a), returning, ctx, *facts, old(self)@) is Some,
            old(self)@.names.fits(),
        ensures
            stmt_code(Expr::AwaitExpr(*a), returning, ctx, *facts, old(self)@) == Some((r.0@.buf, r.1, final(self)@)),
            r.0@.indent == 0,
            line_closed(r.0@.buf),
            final(self)@.names.fits(),
        decreases Expr::AwaitExpr(*a), 1nat,
    {
        {
            let t = self.emit_expr(&a.expr, false, ctx, facts);
            let mut out = if returning { code_of("return await ") } else { code_of("await ") };
            out.w(t);
            out.wln(";");
            proof {
                lemma_nl(Seq::empty(), out@.buf.drop_last());
                reveal_strlit("\n");
                assert(out@.buf =~= out@.buf.drop_last() + "\n"@);
            }
            (out, returning)
        }
    }

    fn emit_stmt_macro_stmts(&mut self, m: &crate::eir::MacroStmts, returning: bool, ctx: EmitCtx, facts: &ExprFacts) -> (r: (Code, bool))
        requires
            cfg_on(*facts, expr_info(Expr::MacroStmts(*m))),
            stmt_code(Expr::MacroStmts(*m), returning, ctx, *facts, old(self)@) is Some,
            old(self)@.names.fits(),
        ensures
            stmt_code(Expr::MacroStmts(*m), returning, ctx, *facts, old(self)@) == Some((r.0@.buf, r.1, final(self)@)),
            r.0@.indent == 0,
            line_closed(r.0@.buf),
            final(self)@.names.fits(),
        decreases Expr::MacroStmts(*m), 1nat,
    {
        {
            let (t1, d1) = self.emit_stmts(&m.statements, ctx, facts);
            let (t2, d2) = self.emit_opt_stmt(&m.tail_expr, returning, ctx, facts);
            let mut out = t1;
            let ghost a = out@.buf;
            out.w(t2);
            proof {
                lemma_closed_concat(a, t2@.buf);
            }
            (out, d1 || d2)
        }
    }
}


/// The state after binding the parameters `ps` that are identifiers
/// binding a local, in order.
pub open spec fn fn_params_state(ps: Seq<Param>, facts: ExprFacts, st: EmitState) -> EmitState
    decreases ps.len(),
{
    if ps.len() == 0 {
        st
    } else {
        let st1 = fn_params_state(ps.drop_last(), facts, st);
        match ps.last().pat {
            Pat::IdentPat(ip) => match crate::patterns::fact_of(facts.pats, ip.node_info) {
                Some(PatFact::Local(rust)) => with_names(st1, st1.names.bind(ip.name, rust@)),
                _ => st1,
            },
            _ => st1,
        }
    }
}

/// A function's body: its receiver is called `self` in a trait's default
/// method and `this` elsewhere, its parameters that are binding
/// identifiers get names, then the body is emitted returning; a function
/// without body (a derived builtin) throws.
pub open spec fn function_body_code(
    params: ParamList,
    body: Option<BlockExpr>,
    cs_type: CsFunctionType,
    ctx: EmitCtx,
    facts: ExprFacts,
    st: EmitState,
) -> Option<(Seq<char>, EmitState)> {
    let st1 = match params.self_param {
        Some(sp) => match sp.node_info {
            NodeInfo::Ast(a) => Some(with_names(
                st,
                st.names.named(a, if cs_type is TraitDefaultImpl { "self"@ } else { "this"@ }),
            )),
            NodeInfo::NoAst => None,
        },
        None => Some(st),
    };
    match st1 {
        Some(st1) => {
            let st2 = fn_params_state(params.params@, facts, st1);
            match body {
                Some(b) => returning_block_code(b, ctx, facts, st2),
                None => Some(("throw new System.NotImplementedException(\"builtin-derive\");"@ + "\n"@, st2)),
            }
        },
        None => None,
    }
}

impl BodyEmitter {
    /// Appends the body of function `f`, whose parameters are `params`, to
    /// `out` (see `function_body_code`).
    pub fn emit_function_body(
        &mut self,
        out: &mut Code,
        params: &ParamList,
        f: &Function,
        cs_type: CsFunctionType,
        ctx: EmitCtx,
        facts: &ExprFacts,
    )
        requires
            function_body_code(*params, f.body, cs_type, ctx, *facts, old(self)@) is Some,
            old(self)@.names.fits(),
        ensures
            final(out)@ == old(out)@.push_text(function_body_code(*params, f.body, cs_type, ctx, *facts, old(self)@).unwrap().0),
            final(self)@ == function_body_code(*params, f.body, cs_type, ctx, *facts, old(self)@).unwrap().1,
            final(self)@.names.fits(),
    {
        match &params.self_param {
            Some(sp) => match &sp.node_info {
                NodeInfo::Ast(a) => {
                    let name = match cs_type {
                        CsFunctionType::TraitDefaultImpl => "self",
                        _ => "this",
                    };
                    self.names.add_local(*a, name);
                },
                NodeInfo::NoAst => {
                    proof {
                        assert(false);
                    }
                },
            },
            None => {},
        }
        let ghost st1 = self@;
        let v = child_refs(&params.params);
        let mut i: usize = 0;
        assert(params.params@.take(0) =~= Seq::<Param>::empty());
        while i < v.len()
            invariant
                i <= v@.len(),
                v@.len() == params.params@.len(),
                forall|j: int| 0 <= j < v@.len() ==> *(#[trigger] v@[j]) == params.params@[j],
                self@ == fn_params_state(params.params@.take(i as int), *facts, st1),
                self@.names.fits(),
            decreases v@.len() - i,
        {
            proof {
                assert(params.params@.take(i + 1).drop_last() =~= params.params@.take(i as int));
                assert(params.params@.take(i + 1).last() == params.params@[i as int]);
            }
            match &v[i].pat {
                Pat::IdentPat(ip) => match lookup_fact(&facts.pats, &ip.node_info) {
                    Some(PatFact::Local(rust)) => {
                        self.names.alloc_binding(ip.name, rust.as_str());
                    },
                    _ => {},
                },
                _ => {},
            }
            i = i + 1;
        }
        assert(params.params@.take(i as int) =~= params.params@);
        match &f.body {
            Some(b) => self.emit_returning_block(out, b, ctx, facts),
            None => {
                out.wln("throw new System.NotImplementedException(\"builtin-derive\");");
            },
        }
    }
}

} // verus!
