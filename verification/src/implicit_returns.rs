//! The pass that makes every value a function or block returns explicit:
//! C# has no block expressions, so each tail value becomes a `return`, and
//! a `return` of a unit-typed value becomes the value as a statement and a
//! bare `return`.
//!
//! The pass walks the whole body. A function body, an `async` or generator
//! block and a closure's block body are made to return their value; every
//! `return value;` whose value returns on every path once made to return
//! its own value is replaced by that value; and the statements of every
//! block in statement position have their unit-typed returns split.

use vstd::prelude::*;
use crate::eir::{
    container_of, lemma_children_view_injective, lemma_children_view_inverse, ArgList,
    ArrayElementListExpr, ArrayRepeatExpr, AwaitExpr, BinExpr, BlockExpr, BlockModifier, BreakExpr,
    CallExpr, CastExpr, ChildrenContainer, ClosureExpr, ElseBranch, Expr, ExprStmt, FieldExpr,
    ForExpr, FormatArgsExpr, FormatArgsSegment, Function, IfExpr, IndexExpr, LetElse, LetExpr,
    LetStmt, LoopExpr, MacroStmts, MatchArm, MatchArmList, MatchExpr, MethodCallExpr, NodeInfo,
    PrefixExpr, RangeExpr, RecordExpr, RecordExprField, RecordExprFieldList, RefExpr, ReturnExpr,
    Stmt, TryExpr, TupleExpr, VecListExpr, VecRepeatExpr, WhileExpr,
};
use crate::transformer::{
    block_returns_itself, lemma_plain_value_unchanged, returning_block_like,
    returning_block_like_exec, returning_stmt, returns_in_arms, returns_in_block,
    returns_in_block_exec, returns_in_expr, returns_in_expr_exec, returns_in_if, ImplicitReturns,
};

verus! {

pub open spec fn ir_m_block(x: BlockExpr) -> nat
    decreases x,
{
    1 + ir_m_stmts(x.statements) + ir_m_opt_box_expr(x.tail_expr)
}

pub open spec fn ir_m_if(x: IfExpr) -> nat
    decreases x,
{
    1 + ir_m_expr(*x.condition) + ir_m_block(x.then_branch) + ir_m_opt_else(x.else_branch)
}

pub open spec fn ir_m_arg_list(x: ArgList) -> nat
    decreases x,
{
    1 + ir_m_exprs(x.args)
}

pub open spec fn ir_m_arm(x: MatchArm) -> nat
    decreases x,
{
    1 + ir_m_opt_expr(x.guard) + ir_m_expr(x.expr)
}

pub open spec fn ir_m_record_field_list(x: RecordExprFieldList) -> nat
    decreases x,
{
    1 + ir_m_record_fields(x.fields) + ir_m_opt_box_expr(x.spread)
}

pub open spec fn ir_m_record_field(x: RecordExprField) -> nat
    decreases x,
{
    1 + ir_m_expr(x.expr)
}

pub open spec fn ir_m_let_else(x: LetElse) -> nat
    decreases x,
{
    1 + ir_m_block(x.block_expr)
}

pub open spec fn ir_m_exprs(c: ChildrenContainer<Expr>) -> nat
    decreases c,
{
    match c {
        ChildrenContainer::Empty => 0,
        ChildrenContainer::More(x, rest) => ir_m_expr(*x) + ir_m_exprs(*rest),
    }
}

pub open spec fn ir_m_stmts(c: ChildrenContainer<Stmt>) -> nat
    decreases c,
{
    match c {
        ChildrenContainer::Empty => 0,
        ChildrenContainer::More(x, rest) => ir_m_stmt(*x) + ir_m_stmts(*rest),
    }
}

pub open spec fn ir_m_arms(c: ChildrenContainer<MatchArm>) -> nat
    decreases c,
{
    match c {
        ChildrenContainer::Empty => 0,
        ChildrenContainer::More(x, rest) => ir_m_arm(*x) + ir_m_arms(*rest),
    }
}

pub open spec fn ir_m_record_fields(c: ChildrenContainer<RecordExprField>) -> nat
    decreases c,
{
    match c {
        ChildrenContainer::Empty => 0,
        ChildrenContainer::More(x, rest) => ir_m_record_field(*x) + ir_m_record_fields(*rest),
    }
}

pub open spec fn ir_m_segments(c: ChildrenContainer<FormatArgsSegment>) -> nat
    decreases c,
{
    match c {
        ChildrenContainer::Empty => 0,
        ChildrenContainer::More(x, rest) => ir_m_segment(*x) + ir_m_segments(*rest),
    }
}

pub open spec fn ir_m_opt_box_expr(o: Option<Box<Expr>>) -> nat
    decreases o,
{
    match o {
        Some(v) => ir_m_expr(*v),
        None => 0,
    }
}

pub open spec fn ir_m_opt_expr(o: Option<Expr>) -> nat
    decreases o,
{
    match o {
        Some(v) => ir_m_expr(v),
        None => 0,
    }
}

pub open spec fn ir_m_opt_else(o: Option<Box<ElseBranch>>) -> nat
    decreases o,
{
    match o {
        Some(v) => ir_m_else(*v),
        None => 0,
    }
}

pub open spec fn ir_m_opt_let_else(o: Option<LetElse>) -> nat
    decreases o,
{
    match o {
        Some(v) => ir_m_let_else(v),
        None => 0,
    }
}

/// The number of nodes the pass walks through, not counting `return`
/// expressions and expression statements, which the pass adds.
pub open spec fn ir_m_expr(e: Expr) -> nat
    decreases e,
{
    match e {
        Expr::RawCodeExpr(_) => 1,
        Expr::ArrayRepeatExpr(x) => 1 + ir_m_expr(*x.initializer) + ir_m_expr(*x.repeat),
        Expr::ArrayElementListExpr(x) => 1 + ir_m_exprs(x.elements),
        Expr::AwaitExpr(x) => 1 + ir_m_expr(*x.expr),
        Expr::BinExpr(x) => 1 + ir_m_expr(*x.lhs) + ir_m_expr(*x.rhs),
        Expr::BlockExpr(b) => ir_m_block(b),
        Expr::BreakExpr(x) => 1 + ir_m_opt_box_expr(x.expr),
        Expr::CallExpr(x) => 1 + ir_m_expr(*x.expr) + ir_m_arg_list(x.arg_list),
        Expr::CastExpr(x) => 1 + ir_m_expr(*x.expr),
        Expr::ClosureExpr(x) => 1 + ir_m_expr(*x.body),
        Expr::ContinueExpr(_) => 1,
        Expr::FieldExpr(x) => 1 + ir_m_expr(*x.expr),
        Expr::ForExpr(x) => 1 + ir_m_expr(*x.iterable) + ir_m_block(x.loop_body),
        Expr::IfExpr(i) => ir_m_if(i),
        Expr::IndexExpr(x) => 1 + ir_m_expr(*x.base) + ir_m_expr(*x.index),
        Expr::LetExpr(x) => 1 + ir_m_expr(*x.expr),
        Expr::Literal(_) => 1,
        Expr::LoopExpr(x) => 1 + ir_m_block(x.loop_body),
        Expr::MatchExpr(x) => 1 + ir_m_expr(*x.expr) + ir_m_arms(x.match_arm_list.arms),
        Expr::MethodCallExpr(x) => 1 + ir_m_expr(*x.receiver) + ir_m_arg_list(x.arg_list),
        Expr::PathExpr(_) => 1,
        Expr::PrefixExpr(x) => 1 + ir_m_expr(*x.expr),
        Expr::RangeExpr(x) => 1 + ir_m_opt_box_expr(x.start) + ir_m_opt_box_expr(x.end),
        Expr::RecordExpr(x) => 1 + ir_m_record_field_list(x.record_expr_field_list),
        Expr::RefExpr(x) => 1 + ir_m_expr(*x.expr),
        Expr::ReturnExpr(x) => ir_m_opt_box_expr(x.expr),
        Expr::TryExpr(x) => 1 + ir_m_expr(*x.expr),
        Expr::TupleExpr(x) => 1 + ir_m_exprs(x.fields),
        Expr::UnderscoreExpr(_) => 1,
        Expr::WhileExpr(x) => 1 + ir_m_expr(*x.condition) + ir_m_block(x.loop_body),
        Expr::FormatArgsExpr(x) => 1 + ir_m_segments(x.segments),
        Expr::VecRepeatExpr(x) => 1 + ir_m_opt_box_expr(x.initializer) + ir_m_opt_box_expr(x.repeat),
        Expr::VecListExpr(x) => 1 + ir_m_exprs(x.elements),
        Expr::MacroStmts(x) => 1 + ir_m_stmts(x.statements) + ir_m_opt_box_expr(x.tail_expr),
    }
}

pub open spec fn ir_m_stmt(s: Stmt) -> nat
    decreases s,
{
    match s {
        Stmt::ExprStmt(x) => ir_m_expr(x.expr),
        Stmt::LetStmt(x) => 1 + ir_m_opt_expr(x.initializer) + ir_m_opt_let_else(x.let_else),
        Stmt::Item(_) => 1,
    }
}

pub open spec fn ir_m_else(x: ElseBranch) -> nat
    decreases x,
{
    match x {
        ElseBranch::Block(b) => ir_m_block(b),
        ElseBranch::IfExpr(i) => ir_m_if(i),
    }
}

pub open spec fn ir_m_segment(x: FormatArgsSegment) -> nat
    decreases x,
{
    match x {
        FormatArgsSegment::Expr(e) => ir_m_expr(e),
        _ => 0,
    }
}

pub open spec fn ir_walked_if(ir: ImplicitReturns, x: IfExpr) -> IfExpr
    decreases ir_m_if(x), 0nat, x,
{
    IfExpr {
        condition: Box::new(ir_walked_expr(ir, *x.condition)),
        then_branch: ir_walked_block(ir, x.then_branch),
        else_branch: ir_walked_opt_else(ir, x.else_branch),
        node_info: x.node_info,
    }
}

fn ir_walk_if(ir: &ImplicitReturns, x: IfExpr) -> (r: IfExpr)
    ensures
        r == ir_walked_if(*ir, x),
    decreases ir_m_if(x), 0nat, x,
{
    let IfExpr { condition, then_branch, else_branch, node_info } = x;
    IfExpr {
        condition: Box::new(ir_walk_expr(ir, *condition)),
        then_branch: ir_walk_block(ir, then_branch),
        else_branch: ir_walk_opt_else(ir, else_branch),
        node_info: node_info,
    }
}

pub open spec fn ir_walked_arg_list(ir: ImplicitReturns, x: ArgList) -> ArgList
    decreases ir_m_arg_list(x), 0nat, x,
{
    ArgList {
        args: ir_walked_exprs(ir, x.args),
        node_info: x.node_info,
    }
}

fn ir_walk_arg_list(ir: &ImplicitReturns, x: ArgList) -> (r: ArgList)
    ensures
        r == ir_walked_arg_list(*ir, x),
    decreases ir_m_arg_list(x), 0nat, x,
{
    let ArgList { args, node_info } = x;
    ArgList {
        args: ir_walk_exprs(ir, args),
        node_info: node_info,
    }
}

pub open spec fn ir_walked_arm(ir: ImplicitReturns, x: MatchArm) -> MatchArm
    decreases ir_m_arm(x), 0nat, x,
{
    MatchArm {
        pat: x.pat,
        guard: ir_walked_opt_expr(ir, x.guard),
        expr: ir_walked_expr(ir, x.expr),
        node_info: x.node_info,
    }
}

fn ir_walk_arm(ir: &ImplicitReturns, x: MatchArm) -> (r: MatchArm)
    ensures
        r == ir_walked_arm(*ir, x),
    decreases ir_m_arm(x), 0nat, x,
{
    let MatchArm { pat, guard, expr, node_info } = x;
    MatchArm {
        pat: pat,
        guard: ir_walk_opt_expr(ir, guard),
        expr: ir_walk_expr(ir, expr),
        node_info: node_info,
    }
}

pub open spec fn ir_walked_record_field_list(ir: ImplicitReturns, x: RecordExprFieldList) -> RecordExprFieldList
    decreases ir_m_record_field_list(x), 0nat, x,
{
    RecordExprFieldList {
        fields: ir_walked_record_fields(ir, x.fields),
        spread: ir_walked_opt_box_expr(ir, x.spread),
        node_info: x.node_info,
    }
}

fn ir_walk_record_field_list(ir: &ImplicitReturns, x: RecordExprFieldList) -> (r: RecordExprFieldList)
    ensures
        r == ir_walked_record_field_list(*ir, x),
    decreases ir_m_record_field_list(x), 0nat, x,
{
    let RecordExprFieldList { fields, spread, node_info } = x;
    RecordExprFieldList {
        fields: ir_walk_record_fields(ir, fields),
        spread: ir_walk_opt_box_expr(ir, spread),
        node_info: node_info,
    }
}

pub open spec fn ir_walked_record_field(ir: ImplicitReturns, x: RecordExprField) -> RecordExprField
    decreases ir_m_record_field(x), 0nat, x,
{
    RecordExprField {
        field_name: x.field_name,
        expr: ir_walked_expr(ir, x.expr),
        node_info: x.node_info,
    }
}

fn ir_walk_record_field(ir: &ImplicitReturns, x: RecordExprField) -> (r: RecordExprField)
    ensures
        r == ir_walked_record_field(*ir, x),
    decreases ir_m_record_field(x), 0nat, x,
{
    let RecordExprField { field_name, expr, node_info } = x;
    RecordExprField {
        field_name: field_name,
        expr: ir_walk_expr(ir, expr),
        node_info: node_info,
    }
}

pub open spec fn ir_walked_let_else(ir: ImplicitReturns, x: LetElse) -> LetElse
    decreases ir_m_let_else(x), 0nat, x,
{
    LetElse {
        block_expr: ir_walked_block(ir, x.block_expr),
        node_info: x.node_info,
    }
}

fn ir_walk_let_else(ir: &ImplicitReturns, x: LetElse) -> (r: LetElse)
    ensures
        r == ir_walked_let_else(*ir, x),
    decreases ir_m_let_else(x), 0nat, x,
{
    let LetElse { block_expr, node_info } = x;
    LetElse {
        block_expr: ir_walk_block(ir, block_expr),
        node_info: node_info,
    }
}

pub open spec fn ir_walked_exprs(ir: ImplicitReturns, c: ChildrenContainer<Expr>) -> ChildrenContainer<Expr>
    decreases ir_m_exprs(c), 0nat, c,
{
    match c {
        ChildrenContainer::Empty => ChildrenContainer::Empty,
        ChildrenContainer::More(x, rest) => ChildrenContainer::More(Box::new(ir_walked_expr(ir, *x)), Box::new(ir_walked_exprs(ir, *rest))),
    }
}

fn ir_walk_exprs(ir: &ImplicitReturns, c: ChildrenContainer<Expr>) -> (r: ChildrenContainer<Expr>)
    ensures
        r == ir_walked_exprs(*ir, c),
    decreases ir_m_exprs(c), 0nat, c,
{
    match c {
        ChildrenContainer::Empty => ChildrenContainer::Empty,
        ChildrenContainer::More(x, rest) => ChildrenContainer::More(Box::new(ir_walk_expr(ir, *x)), Box::new(ir_walk_exprs(ir, *rest))),
    }
}

pub open spec fn ir_walked_stmts(ir: ImplicitReturns, c: ChildrenContainer<Stmt>) -> ChildrenContainer<Stmt>
    decreases ir_m_stmts(c), 1nat, c,
{
    match c {
        ChildrenContainer::Empty => ChildrenContainer::Empty,
        ChildrenContainer::More(x, rest) => ChildrenContainer::More(Box::new(ir_walked_stmt(ir, *x)), Box::new(ir_walked_stmts(ir, *rest))),
    }
}

fn ir_walk_stmts(ir: &ImplicitReturns, c: ChildrenContainer<Stmt>) -> (r: ChildrenContainer<Stmt>)
    ensures
        r == ir_walked_stmts(*ir, c),
    decreases ir_m_stmts(c), 1nat, c,
{
    match c {
        ChildrenContainer::Empty => ChildrenContainer::Empty,
        ChildrenContainer::More(x, rest) => ChildrenContainer::More(Box::new(ir_walk_stmt(ir, *x)), Box::new(ir_walk_stmts(ir, *rest))),
    }
}

pub open spec fn ir_walked_arms(ir: ImplicitReturns, c: ChildrenContainer<MatchArm>) -> ChildrenContainer<MatchArm>
    decreases ir_m_arms(c), 0nat, c,
{
    match c {
        ChildrenContainer::Empty => ChildrenContainer::Empty,
        ChildrenContainer::More(x, rest) => ChildrenContainer::More(Box::new(ir_walked_arm(ir, *x)), Box::new(ir_walked_arms(ir, *rest))),
    }
}

fn ir_walk_arms(ir: &ImplicitReturns, c: ChildrenContainer<MatchArm>) -> (r: ChildrenContainer<MatchArm>)
    ensures
        r == ir_walked_arms(*ir, c),
    decreases ir_m_arms(c), 0nat, c,
{
    match c {
        ChildrenContainer::Empty => ChildrenContainer::Empty,
        ChildrenContainer::More(x, rest) => ChildrenContainer::More(Box::new(ir_walk_arm(ir, *x)), Box::new(ir_walk_arms(ir, *rest))),
    }
}

pub open spec fn ir_walked_record_fields(ir: ImplicitReturns, c: ChildrenContainer<RecordExprField>) -> ChildrenContainer<RecordExprField>
    decreases ir_m_record_fields(c), 0nat, c,
{
    match c {
        ChildrenContainer::Empty => ChildrenContainer::Empty,
        ChildrenContainer::More(x, rest) => ChildrenContainer::More(Box::new(ir_walked_record_field(ir, *x)), Box::new(ir_walked_record_fields(ir, *rest))),
    }
}

fn ir_walk_record_fields(ir: &ImplicitReturns, c: ChildrenContainer<RecordExprField>) -> (r: ChildrenContainer<RecordExprField>)
    ensures
        r == ir_walked_record_fields(*ir, c),
    decreases ir_m_record_fields(c), 0nat, c,
{
    match c {
        ChildrenContainer::Empty => ChildrenContainer::Empty,
        ChildrenContainer::More(x, rest) => ChildrenContainer::More(Box::new(ir_walk_record_field(ir, *x)), Box::new(ir_walk_record_fields(ir, *rest))),
    }
}

pub open spec fn ir_walked_segments(ir: ImplicitReturns, c: ChildrenContainer<FormatArgsSegment>) -> ChildrenContainer<FormatArgsSegment>
    decreases ir_m_segments(c), 0nat, c,
{
    match c {
        ChildrenContainer::Empty => ChildrenContainer::Empty,
        ChildrenContainer::More(x, rest) => ChildrenContainer::More(Box::new(ir_walked_segment(ir, *x)), Box::new(ir_walked_segments(ir, *rest))),
    }
}

fn ir_walk_segments(ir: &ImplicitReturns, c: ChildrenContainer<FormatArgsSegment>) -> (r: ChildrenContainer<FormatArgsSegment>)
    ensures
        r == ir_walked_segments(*ir, c),
    decreases ir_m_segments(c), 0nat, c,
{
    match c {
        ChildrenContainer::Empty => ChildrenContainer::Empty,
        ChildrenContainer::More(x, rest) => ChildrenContainer::More(Box::new(ir_walk_segment(ir, *x)), Box::new(ir_walk_segments(ir, *rest))),
    }
}

pub open spec fn ir_walked_opt_box_expr(ir: ImplicitReturns, o: Option<Box<Expr>>) -> Option<Box<Expr>>
    decreases ir_m_opt_box_expr(o), 0nat, o,
{
    match o {
        Some(v) => Some(Box::new(ir_walked_expr(ir, *v))),
        None => None,
    }
}

fn ir_walk_opt_box_expr(ir: &ImplicitReturns, o: Option<Box<Expr>>) -> (r: Option<Box<Expr>>)
    ensures
        r == ir_walked_opt_box_expr(*ir, o),
    decreases ir_m_opt_box_expr(o), 0nat, o,
{
    match o {
        Some(v) => Some(Box::new(ir_walk_expr(ir, *v))),
        None => None,
    }
}

pub open spec fn ir_walked_opt_expr(ir: ImplicitReturns, o: Option<Expr>) -> Option<Expr>
    decreases ir_m_opt_expr(o), 0nat, o,
{
    match o {
        Some(v) => Some(ir_walked_expr(ir, v)),
        None => None,
    }
}

fn ir_walk_opt_expr(ir: &ImplicitReturns, o: Option<Expr>) -> (r: Option<Expr>)
    ensures
        r == ir_walked_opt_expr(*ir, o),
    decreases ir_m_opt_expr(o), 0nat, o,
{
    match o {
        Some(v) => Some(ir_walk_expr(ir, v)),
        None => None,
    }
}

pub open spec fn ir_walked_opt_else(ir: ImplicitReturns, o: Option<Box<ElseBranch>>) -> Option<Box<ElseBranch>>
    decreases ir_m_opt_else(o), 0nat, o,
{
    match o {
        Some(v) => Some(Box::new(ir_walked_else(ir, *v))),
        None => None,
    }
}

fn ir_walk_opt_else(ir: &ImplicitReturns, o: Option<Box<ElseBranch>>) -> (r: Option<Box<ElseBranch>>)
    ensures
        r == ir_walked_opt_else(*ir, o),
    decreases ir_m_opt_else(o), 0nat, o,
{
    match o {
        Some(v) => Some(Box::new(ir_walk_else(ir, *v))),
        None => None,
    }
}

pub open spec fn ir_walked_opt_let_else(ir: ImplicitReturns, o: Option<LetElse>) -> Option<LetElse>
    decreases ir_m_opt_let_else(o), 0nat, o,
{
    match o {
        Some(v) => Some(ir_walked_let_else(ir, v)),
        None => None,
    }
}

fn ir_walk_opt_let_else(ir: &ImplicitReturns, o: Option<LetElse>) -> (r: Option<LetElse>)
    ensures
        r == ir_walked_opt_let_else(*ir, o),
    decreases ir_m_opt_let_else(o), 0nat, o,
{
    match o {
        Some(v) => Some(ir_walk_let_else(ir, v)),
        None => None,
    }
}

/// Whether a block is `async` or a generator block, whose value the
/// pass makes it return itself.
pub open spec fn is_async_like(m: Option<BlockModifier>) -> bool {
    match m {
        Some(BlockModifier::Async) => true,
        Some(BlockModifier::Gen) => true,
        Some(BlockModifier::AsyncGen) => true,
        _ => false,
    }
}

/// A closure body that is a block, made to return its value.
pub open spec fn closure_body_returning(body: Expr) -> Expr {
    match body {
        Expr::BlockExpr(b) => Expr::BlockExpr(returns_in_block(b).0),
        _ => body,
    }
}

// ---------------------------------------------------------------------
// The measure is kept by making positions return
// ---------------------------------------------------------------------

pub proof fn lemma_m_push(s: Seq<Stmt>, x: Stmt)
    ensures
        ir_m_stmts(container_of(s.push(x))) == ir_m_stmts(container_of(s)) + ir_m_stmt(x),
    decreases s.len(),
{
    let t = s.push(x);
    assert(container_of(t) == ChildrenContainer::More(Box::new(t[0]), Box::new(container_of(t.drop_first()))));
    if s.len() > 0 {
        assert(t.drop_first() =~= s.drop_first().push(x));
        lemma_m_push(s.drop_first(), x);
        assert(container_of(s) == ChildrenContainer::More(Box::new(s[0]), Box::new(container_of(s.drop_first()))));
    } else {
        assert(t.drop_first() =~= Seq::<Stmt>::empty());
        assert(container_of(s) == ChildrenContainer::<Stmt>::Empty);
        assert(container_of(t.drop_first()) == ChildrenContainer::<Stmt>::Empty);
    }
}

pub proof fn lemma_m_returning(stmts: ChildrenContainer<Stmt>, tail: Option<Box<Expr>>)
    ensures
        ir_m_stmts(returning_block_like(stmts, tail)) == ir_m_stmts(stmts) + ir_m_opt_box_expr(tail),
    decreases tail, 1nat,
{
    lemma_m_push(stmts@, returning_stmt(tail));
    lemma_children_view_inverse(stmts, Seq::empty());
    lemma_m_returning_stmt(tail);
}

pub proof fn lemma_m_returning_stmt(tail: Option<Box<Expr>>)
    ensures
        ir_m_stmt(returning_stmt(tail)) == ir_m_opt_box_expr(tail),
    decreases tail, 0nat,
{
    if let Some(t) = tail {
        lemma_m_returns_in_expr(*t);
    }
}

pub proof fn lemma_m_returns_in_block(b: BlockExpr)
    ensures
        ir_m_block(returns_in_block(b).0) == ir_m_block(b),
    decreases b, 0nat,
{
    if block_returns_itself(b) {
        lemma_m_returning(b.statements, b.tail_expr);
    }
}

pub proof fn lemma_m_returns_in_if(i: IfExpr)
    ensures
        ir_m_if(returns_in_if(i)) == ir_m_if(i),
    decreases i, 0nat,
{
    lemma_m_returns_in_block(i.then_branch);
    let r = returns_in_if(i);
    assert(r.then_branch == returns_in_block(i.then_branch).0);
    if let Some(eb) = i.else_branch {
        match *eb {
            ElseBranch::IfExpr(e) => {
                lemma_m_returns_in_if(e);
                assert(r.else_branch == Some(Box::new(ElseBranch::IfExpr(returns_in_if(e)))));
                assert(ir_m_opt_else(r.else_branch) == ir_m_if(returns_in_if(e)));
                assert(ir_m_opt_else(i.else_branch) == ir_m_if(e));
            },
            ElseBranch::Block(b) => {
                lemma_m_returns_in_block(b);
                assert(r.else_branch == Some(Box::new(ElseBranch::Block(returns_in_block(b).0))));
                assert(ir_m_opt_else(r.else_branch) == ir_m_block(returns_in_block(b).0));
                assert(ir_m_opt_else(i.else_branch) == ir_m_block(b));
            },
        }
    }
}

pub proof fn lemma_m_returns_in_arms(arms: ChildrenContainer<MatchArm>)
    ensures
        ir_m_arms(returns_in_arms(arms)) == ir_m_arms(arms),
    decreases arms, 0nat,
{
    match arms {
        ChildrenContainer::Empty => {},
        ChildrenContainer::More(a, rest) => {
            lemma_m_returns_in_expr(a.expr);
            lemma_m_returns_in_arms(*rest);
            let (x, emitted) = returns_in_expr(a.expr);
            let new_expr = if emitted { x } else { crate::transformer::return_expr(Some(Box::new(x))) };
            if !emitted {
                assert(ir_m_expr(new_expr) == ir_m_opt_box_expr(Some(Box::new(x))));
                assert(ir_m_opt_box_expr(Some(Box::new(x))) == ir_m_expr(x));
            }
            let new_arm = MatchArm { pat: a.pat, guard: a.guard, expr: new_expr, node_info: a.node_info };
            assert(returns_in_arms(arms) == ChildrenContainer::More(Box::new(new_arm), Box::new(returns_in_arms(*rest))));
            assert(ir_m_arm(new_arm) == 1 + ir_m_opt_expr(a.guard) + ir_m_expr(new_expr));
            assert(ir_m_arm(*a) == 1 + ir_m_opt_expr(a.guard) + ir_m_expr(a.expr));
        },
    }
}

/// Making a position return its value keeps the number of nodes walked.
pub proof fn lemma_m_returns_in_expr(e: Expr)
    ensures
        ir_m_expr(returns_in_expr(e).0) == ir_m_expr(e),
    decreases e, 0nat,
{
    match e {
        Expr::BlockExpr(b) => {
            lemma_m_returns_in_block(b);
            assert(returns_in_expr(e).0 == Expr::BlockExpr(returns_in_block(b).0));
            assert(ir_m_expr(Expr::BlockExpr(returns_in_block(b).0)) == ir_m_block(returns_in_block(b).0));
            assert(ir_m_expr(e) == ir_m_block(b));
        },
        Expr::MacroStmts(m) => {
            lemma_m_returning(m.statements, m.tail_expr);
            let r = returns_in_expr(e).0;
            assert(r == Expr::MacroStmts(MacroStmts {
                statements: returning_block_like(m.statements, m.tail_expr),
                tail_expr: None,
                node_info: m.node_info,
            }));
            assert(ir_m_opt_box_expr(None) == 0);
        },
        Expr::IfExpr(i) => {
            lemma_m_returns_in_if(i);
            assert(returns_in_expr(e).0 == Expr::IfExpr(returns_in_if(i)));
            assert(ir_m_expr(Expr::IfExpr(returns_in_if(i))) == ir_m_if(returns_in_if(i)));
            assert(ir_m_expr(e) == ir_m_if(i));
        },
        Expr::MatchExpr(m) => {
            lemma_m_returns_in_arms(m.match_arm_list.arms);
        },
        _ => {},
    }
}

pub proof fn lemma_m_closure_body(body: Expr)
    ensures
        ir_m_expr(closure_body_returning(body)) == ir_m_expr(body),
{
    if let Expr::BlockExpr(b) = body {
        lemma_m_returns_in_block(b);
    }
}

// ---------------------------------------------------------------------
// The walk
// ---------------------------------------------------------------------

/// An expression after the pass.
pub open spec fn ir_walked_expr(ir: ImplicitReturns, e: Expr) -> Expr
    decreases ir_m_expr(e), 0nat, e,
{
    match e {
        Expr::BlockExpr(b) => if is_async_like(b.modifier) {
            proof {
                lemma_m_returning(b.statements, b.tail_expr);
                assert(ir_m_expr(e) == ir_m_block(b));
                assert(ir_m_block(b) == 1 + ir_m_stmts(b.statements) + ir_m_opt_box_expr(b.tail_expr));
            }
            Expr::BlockExpr(BlockExpr {
                modifier: b.modifier,
                statements: ir_walked_stmts(ir, returning_block_like(b.statements, b.tail_expr)),
                tail_expr: None,
                node_info: b.node_info,
            })
        } else {
            proof {
                assert(ir_m_expr(e) == ir_m_block(b));
                assert(ir_m_block(b) == 1 + ir_m_stmts(b.statements) + ir_m_opt_box_expr(b.tail_expr));
            }
            Expr::BlockExpr(BlockExpr {
                modifier: b.modifier,
                statements: ir_walked_stmts(ir, b.statements),
                tail_expr: ir_walked_opt_box_expr(ir, b.tail_expr),
                node_info: b.node_info,
            })
        },
        Expr::ClosureExpr(x) => {
            proof {
                lemma_m_closure_body(*x.body);
            }
            Expr::ClosureExpr(ClosureExpr {
                async_token: x.async_token,
                param_list: x.param_list,
                body: Box::new(ir_walked_expr(ir, closure_body_returning(*x.body))),
                node_info: x.node_info,
            })
        },
        Expr::MacroStmts(x) => Expr::MacroStmts(MacroStmts {
            statements: container_of(ir.split_unit_returns(ir_walked_stmts(ir, x.statements))),
            tail_expr: ir_walked_opt_box_expr(ir, x.tail_expr),
            node_info: x.node_info,
        }),
        Expr::IfExpr(i) => Expr::IfExpr(ir_walked_if(ir, i)),
        Expr::RawCodeExpr(_) => e,
        Expr::ArrayRepeatExpr(x) => Expr::ArrayRepeatExpr(ArrayRepeatExpr {
            initializer: Box::new(ir_walked_expr(ir, *x.initializer)),
            repeat: Box::new(ir_walked_expr(ir, *x.repeat)),
            node_info: x.node_info,
        }),
        Expr::ArrayElementListExpr(x) => Expr::ArrayElementListExpr(ArrayElementListExpr {
            elements: ir_walked_exprs(ir, x.elements),
            node_info: x.node_info,
        }),
        Expr::AwaitExpr(x) => Expr::AwaitExpr(AwaitExpr {
            expr: Box::new(ir_walked_expr(ir, *x.expr)),
            node_info: x.node_info,
        }),
        Expr::BinExpr(x) => Expr::BinExpr(BinExpr {
            lhs: Box::new(ir_walked_expr(ir, *x.lhs)),
            rhs: Box::new(ir_walked_expr(ir, *x.rhs)),
            op_kind: x.op_kind,
            node_info: x.node_info,
        }),
        Expr::BreakExpr(x) => Expr::BreakExpr(BreakExpr {
            expr: ir_walked_opt_box_expr(ir, x.expr),
            lifetime: x.lifetime,
            node_info: x.node_info,
        }),
        Expr::CallExpr(x) => Expr::CallExpr(CallExpr {
            expr: Box::new(ir_walked_expr(ir, *x.expr)),
            arg_list: ir_walked_arg_list(ir, x.arg_list),
            node_info: x.node_info,
        }),
        Expr::CastExpr(x) => Expr::CastExpr(CastExpr {
            expr: Box::new(ir_walked_expr(ir, *x.expr)),
            ty: x.ty,
            node_info: x.node_info,
        }),
        Expr::ContinueExpr(_) => e,
        Expr::FieldExpr(x) => Expr::FieldExpr(FieldExpr {
            expr: Box::new(ir_walked_expr(ir, *x.expr)),
            name_ref: x.name_ref,
            node_info: x.node_info,
        }),
        Expr::ForExpr(x) => Expr::ForExpr(ForExpr {
            pat: x.pat,
            iterable: Box::new(ir_walked_expr(ir, *x.iterable)),
            label: x.label,
            loop_body: ir_walked_block(ir, x.loop_body),
            node_info: x.node_info,
        }),
        Expr::IndexExpr(x) => Expr::IndexExpr(IndexExpr {
            base: Box::new(ir_walked_expr(ir, *x.base)),
            index: Box::new(ir_walked_expr(ir, *x.index)),
            node_info: x.node_info,
        }),
        Expr::LetExpr(x) => Expr::LetExpr(LetExpr {
            pat: x.pat,
            expr: Box::new(ir_walked_expr(ir, *x.expr)),
            node_info: x.node_info,
        }),
        Expr::Literal(_) => e,
        Expr::LoopExpr(x) => Expr::LoopExpr(LoopExpr {
            label: x.label,
            loop_body: ir_walked_block(ir, x.loop_body),
            node_info: x.node_info,
        }),
        Expr::MatchExpr(x) => Expr::MatchExpr(MatchExpr {
            expr: Box::new(ir_walked_expr(ir, *x.expr)),
            match_arm_list: MatchArmList { arms: ir_walked_arms(ir, x.match_arm_list.arms), node_info: x.match_arm_list.node_info },
            node_info: x.node_info,
        }),
        Expr::MethodCallExpr(x) => Expr::MethodCallExpr(MethodCallExpr {
            receiver: Box::new(ir_walked_expr(ir, *x.receiver)),
            name_ref: x.name_ref,
            arg_list: ir_walked_arg_list(ir, x.arg_list),
            node_info: x.node_info,
        }),
        Expr::PathExpr(_) => e,
        Expr::PrefixExpr(x) => Expr::PrefixExpr(PrefixExpr {
            op_kind: x.op_kind,
            expr: Box::new(ir_walked_expr(ir, *x.expr)),
            node_info: x.node_info,
        }),
        Expr::RangeExpr(x) => Expr::RangeExpr(RangeExpr {
            start: ir_walked_opt_box_expr(ir, x.start),
            end: ir_walked_opt_box_expr(ir, x.end),
            op_kind: x.op_kind,
            node_info: x.node_info,
        }),
        Expr::RecordExpr(x) => Expr::RecordExpr(RecordExpr {
            record_expr_field_list: ir_walked_record_field_list(ir, x.record_expr_field_list),
            node_info: x.node_info,
        }),
        Expr::RefExpr(x) => Expr::RefExpr(RefExpr {
            expr: Box::new(ir_walked_expr(ir, *x.expr)),
            node_info: x.node_info,
        }),
        Expr::ReturnExpr(x) => Expr::ReturnExpr(ReturnExpr {
            expr: ir_walked_opt_box_expr(ir, x.expr),
            node_info: x.node_info,
        }),
        Expr::TryExpr(x) => Expr::TryExpr(TryExpr {
            expr: Box::new(ir_walked_expr(ir, *x.expr)),
            node_info: x.node_info,
        }),
        Expr::TupleExpr(x) => Expr::TupleExpr(TupleExpr {
            fields: ir_walked_exprs(ir, x.fields),
            node_info: x.node_info,
        }),
        Expr::UnderscoreExpr(_) => e,
        Expr::WhileExpr(x) => Expr::WhileExpr(WhileExpr {
            label: x.label,
            condition: Box::new(ir_walked_expr(ir, *x.condition)),
            loop_body: ir_walked_block(ir, x.loop_body),
            node_info: x.node_info,
        }),
        Expr::FormatArgsExpr(x) => Expr::FormatArgsExpr(FormatArgsExpr {
            segments: ir_walked_segments(ir, x.segments),
            node_info: x.node_info,
        }),
        Expr::VecRepeatExpr(x) => Expr::VecRepeatExpr(VecRepeatExpr {
            initializer: ir_walked_opt_box_expr(ir, x.initializer),
            repeat: ir_walked_opt_box_expr(ir, x.repeat),
            node_info: x.node_info,
        }),
        Expr::VecListExpr(x) => Expr::VecListExpr(VecListExpr {
            elements: ir_walked_exprs(ir, x.elements),
            node_info: x.node_info,
        }),
    }
}

/// A block in statement position after the pass: its statements walked,
/// with their unit-typed returns split.
pub open spec fn ir_walked_block(ir: ImplicitReturns, b: BlockExpr) -> BlockExpr
    decreases ir_m_block(b), 0nat, b,
{
    BlockExpr {
        modifier: b.modifier,
        statements: container_of(ir.split_unit_returns(ir_walked_stmts(ir, b.statements))),
        tail_expr: ir_walked_opt_box_expr(ir, b.tail_expr),
        node_info: b.node_info,
    }
}

/// Whether the statement is `return value;` with a value that returns on
/// every path once made to return its own value.
pub open spec fn returns_returning_value(s: Stmt) -> bool {
    &&& s is ExprStmt
    &&& s->ExprStmt_0.expr is ReturnExpr
    &&& s->ExprStmt_0.expr->ReturnExpr_0.expr.is_some()
    &&& returns_in_expr(*s->ExprStmt_0.expr->ReturnExpr_0.expr.unwrap()).1
}

/// A statement after the pass.
pub open spec fn ir_walked_stmt(ir: ImplicitReturns, s: Stmt) -> Stmt
    decreases ir_m_stmt(s), 1nat, s,
{
    match s {
        Stmt::ExprStmt(x) => if returns_returning_value(s) {
            let v = *x.expr->ReturnExpr_0.expr.unwrap();
            proof {
                lemma_m_returns_in_expr(v);
            }
            Stmt::ExprStmt(ExprStmt { expr: ir_walked_expr(ir, returns_in_expr(v).0), node_info: x.node_info })
        } else {
            Stmt::ExprStmt(ExprStmt { expr: ir_walked_expr(ir, x.expr), node_info: x.node_info })
        },
        Stmt::LetStmt(x) => Stmt::LetStmt(LetStmt {
            pat: x.pat,
            initializer: ir_walked_opt_expr(ir, x.initializer),
            let_else: ir_walked_opt_let_else(ir, x.let_else),
            node_info: x.node_info,
        }),
        Stmt::Item(_) => s,
    }
}

pub open spec fn ir_walked_else(ir: ImplicitReturns, x: ElseBranch) -> ElseBranch
    decreases ir_m_else(x), 0nat, x,
{
    match x {
        ElseBranch::Block(b) => ElseBranch::Block(ir_walked_block(ir, b)),
        ElseBranch::IfExpr(i) => ElseBranch::IfExpr(ir_walked_if(ir, i)),
    }
}

pub open spec fn ir_walked_segment(ir: ImplicitReturns, x: FormatArgsSegment) -> FormatArgsSegment
    decreases ir_m_segment(x), 0nat, x,
{
    match x {
        FormatArgsSegment::Expr(e) => FormatArgsSegment::Expr(ir_walked_expr(ir, e)),
        _ => x,
    }
}

fn ir_walk_expr(ir: &ImplicitReturns, e: Expr) -> (r: Expr)
    ensures
        r == ir_walked_expr(*ir, e),
    decreases ir_m_expr(e), 0nat, e,
{
    match e {
        Expr::BlockExpr(b) => {
            let async_like = match b.modifier {
                Some(BlockModifier::Async) => true,
                Some(BlockModifier::Gen) => true,
                Some(BlockModifier::AsyncGen) => true,
                _ => false,
            };
            proof {
                assert(ir_m_expr(e) == ir_m_block(b));
                assert(ir_m_block(b) == 1 + ir_m_stmts(b.statements) + ir_m_opt_box_expr(b.tail_expr));
            }
            let BlockExpr { modifier, statements, tail_expr, node_info } = b;
            if async_like {
                proof {
                    lemma_m_returning(statements, tail_expr);
                }
                let stmts = returning_block_like_exec(statements, tail_expr);
                Expr::BlockExpr(BlockExpr { modifier, statements: ir_walk_stmts(ir, stmts), tail_expr: None, node_info })
            } else {
                Expr::BlockExpr(BlockExpr {
                    modifier,
                    statements: ir_walk_stmts(ir, statements),
                    tail_expr: ir_walk_opt_box_expr(ir, tail_expr),
                    node_info,
                })
            }
        },
        Expr::ClosureExpr(x) => {
            let ClosureExpr { async_token, param_list, body, node_info } = x;
            proof {
                lemma_m_closure_body(*body);
            }
            let body = match *body {
                Expr::BlockExpr(b) => Expr::BlockExpr(returns_in_block_exec(b).0),
                other => other,
            };
            Expr::ClosureExpr(ClosureExpr { async_token, param_list, body: Box::new(ir_walk_expr(ir, body)), node_info })
        },
        Expr::MacroStmts(x) => {
            let MacroStmts { statements, tail_expr, node_info } = x;
            let walked = ir_walk_stmts(ir, statements);
            let split = ir.split_unit_returns_exec(walked);
            let ghost sv = ir.split_unit_returns(ir_walked_stmts(*ir, x.statements));
            proof {
                lemma_children_view_inverse(split, sv);
                lemma_children_view_injective(split, container_of(sv));
            }
            Expr::MacroStmts(MacroStmts { statements: split, tail_expr: ir_walk_opt_box_expr(ir, tail_expr), node_info })
        },
        Expr::IfExpr(i) => Expr::IfExpr(ir_walk_if(ir, i)),
        Expr::RawCodeExpr(x) => Expr::RawCodeExpr(x),
        Expr::ArrayRepeatExpr(x) => {
            let ArrayRepeatExpr { initializer, repeat, node_info } = x;
            Expr::ArrayRepeatExpr(ArrayRepeatExpr {
                initializer: Box::new(ir_walk_expr(ir, *initializer)),
                repeat: Box::new(ir_walk_expr(ir, *repeat)),
                node_info: node_info,
            })
        },
        Expr::ArrayElementListExpr(x) => {
            let ArrayElementListExpr { elements, node_info } = x;
            Expr::ArrayElementListExpr(ArrayElementListExpr {
                elements: ir_walk_exprs(ir, elements),
                node_info: node_info,
            })
        },
        Expr::AwaitExpr(x) => {
            let AwaitExpr { expr, node_info } = x;
            Expr::AwaitExpr(AwaitExpr {
                expr: Box::new(ir_walk_expr(ir, *expr)),
                node_info: node_info,
            })
        },
        Expr::BinExpr(x) => {
            let BinExpr { lhs, rhs, op_kind, node_info } = x;
            Expr::BinExpr(BinExpr {
                lhs: Box::new(ir_walk_expr(ir, *lhs)),
                rhs: Box::new(ir_walk_expr(ir, *rhs)),
                op_kind: op_kind,
                node_info: node_info,
            })
        },
        Expr::BreakExpr(x) => {
            let BreakExpr { expr, lifetime, node_info } = x;
            Expr::BreakExpr(BreakExpr {
                expr: ir_walk_opt_box_expr(ir, expr),
                lifetime: lifetime,
                node_info: node_info,
            })
        },
        Expr::CallExpr(x) => {
            let CallExpr { expr, arg_list, node_info } = x;
            Expr::CallExpr(CallExpr {
                expr: Box::new(ir_walk_expr(ir, *expr)),
                arg_list: ir_walk_arg_list(ir, arg_list),
                node_info: node_info,
            })
        },
        Expr::CastExpr(x) => {
            let CastExpr { expr, ty, node_info } = x;
            Expr::CastExpr(CastExpr {
                expr: Box::new(ir_walk_expr(ir, *expr)),
                ty: ty,
                node_info: node_info,
            })
        },
        Expr::ContinueExpr(x) => Expr::ContinueExpr(x),
        Expr::FieldExpr(x) => {
            let FieldExpr { expr, name_ref, node_info } = x;
            Expr::FieldExpr(FieldExpr {
                expr: Box::new(ir_walk_expr(ir, *expr)),
                name_ref: name_ref,
                node_info: node_info,
            })
        },
        Expr::ForExpr(x) => {
            let ForExpr { pat, iterable, label, loop_body, node_info } = x;
            Expr::ForExpr(ForExpr {
                pat: pat,
                iterable: Box::new(ir_walk_expr(ir, *iterable)),
                label: label,
                loop_body: ir_walk_block(ir, loop_body),
                node_info: node_info,
            })
        },
        Expr::IndexExpr(x) => {
            let IndexExpr { base, index, node_info } = x;
            Expr::IndexExpr(IndexExpr {
                base: Box::new(ir_walk_expr(ir, *base)),
                index: Box::new(ir_walk_expr(ir, *index)),
                node_info: node_info,
            })
        },
        Expr::LetExpr(x) => {
            let LetExpr { pat, expr, node_info } = x;
            Expr::LetExpr(LetExpr {
                pat: pat,
                expr: Box::new(ir_walk_expr(ir, *expr)),
                node_info: node_info,
            })
        },
        Expr::Literal(x) => Expr::Literal(x),
        Expr::LoopExpr(x) => {
            let LoopExpr { label, loop_body, node_info } = x;
            Expr::LoopExpr(LoopExpr {
                label: label,
                loop_body: ir_walk_block(ir, loop_body),
                node_info: node_info,
            })
        },
        Expr::MatchExpr(x) => {
            let MatchExpr { expr, match_arm_list, node_info } = x;
            let MatchArmList { arms: match_arm_list_arms, node_info: match_arm_list_info } = match_arm_list;
            Expr::MatchExpr(MatchExpr {
                expr: Box::new(ir_walk_expr(ir, *expr)),
                match_arm_list: MatchArmList { arms: ir_walk_arms(ir, match_arm_list_arms), node_info: match_arm_list_info },
                node_info: node_info,
            })
        },
        Expr::MethodCallExpr(x) => {
            let MethodCallExpr { receiver, name_ref, arg_list, node_info } = x;
            Expr::MethodCallExpr(MethodCallExpr {
                receiver: Box::new(ir_walk_expr(ir, *receiver)),
                name_ref: name_ref,
                arg_list: ir_walk_arg_list(ir, arg_list),
                node_info: node_info,
            })
        },
        Expr::PathExpr(x) => Expr::PathExpr(x),
        Expr::PrefixExpr(x) => {
            let PrefixExpr { op_kind, expr, node_info } = x;
            Expr::PrefixExpr(PrefixExpr {
                op_kind: op_kind,
                expr: Box::new(ir_walk_expr(ir, *expr)),
                node_info: node_info,
            })
        },
        Expr::RangeExpr(x) => {
            let RangeExpr { start, end, op_kind, node_info } = x;
            Expr::RangeExpr(RangeExpr {
                start: ir_walk_opt_box_expr(ir, start),
                end: ir_walk_opt_box_expr(ir, end),
                op_kind: op_kind,
                node_info: node_info,
            })
        },
        Expr::RecordExpr(x) => {
            let RecordExpr { record_expr_field_list, node_info } = x;
            Expr::RecordExpr(RecordExpr {
                record_expr_field_list: ir_walk_record_field_list(ir, record_expr_field_list),
                node_info: node_info,
            })
        },
        Expr::RefExpr(x) => {
            let RefExpr { expr, node_info } = x;
            Expr::RefExpr(RefExpr {
                expr: Box::new(ir_walk_expr(ir, *expr)),
                node_info: node_info,
            })
        },
        Expr::ReturnExpr(x) => {
            let ReturnExpr { expr, node_info } = x;
            Expr::ReturnExpr(ReturnExpr {
                expr: ir_walk_opt_box_expr(ir, expr),
                node_info: node_info,
            })
        },
        Expr::TryExpr(x) => {
            let TryExpr { expr, node_info } = x;
            Expr::TryExpr(TryExpr {
                expr: Box::new(ir_walk_expr(ir, *expr)),
                node_info: node_info,
            })
        },
        Expr::TupleExpr(x) => {
            let TupleExpr { fields, node_info } = x;
            Expr::TupleExpr(TupleExpr {
                fields: ir_walk_exprs(ir, fields),
                node_info: node_info,
            })
        },
        Expr::UnderscoreExpr(x) => Expr::UnderscoreExpr(x),
        Expr::WhileExpr(x) => {
            let WhileExpr { label, condition, loop_body, node_info } = x;
            Expr::WhileExpr(WhileExpr {
                label: label,
                condition: Box::new(ir_walk_expr(ir, *condition)),
                loop_body: ir_walk_block(ir, loop_body),
                node_info: node_info,
            })
        },
        Expr::FormatArgsExpr(x) => {
            let FormatArgsExpr { segments, node_info } = x;
            Expr::FormatArgsExpr(FormatArgsExpr {
                segments: ir_walk_segments(ir, segments),
                node_info: node_info,
            })
        },
        Expr::VecRepeatExpr(x) => {
            let VecRepeatExpr { initializer, repeat, node_info } = x;
            Expr::VecRepeatExpr(VecRepeatExpr {
                initializer: ir_walk_opt_box_expr(ir, initializer),
                repeat: ir_walk_opt_box_expr(ir, repeat),
                node_info: node_info,
            })
        },
        Expr::VecListExpr(x) => {
            let VecListExpr { elements, node_info } = x;
            Expr::VecListExpr(VecListExpr {
                elements: ir_walk_exprs(ir, elements),
                node_info: node_info,
            })
        },
    }
}

fn ir_walk_block(ir: &ImplicitReturns, b: BlockExpr) -> (r: BlockExpr)
    ensures
        r == ir_walked_block(*ir, b),
    decreases ir_m_block(b), 0nat, b,
{
    let BlockExpr { modifier, statements, tail_expr, node_info } = b;
    let walked = ir_walk_stmts(ir, statements);
    let split = ir.split_unit_returns_exec(walked);
    let ghost sv = ir.split_unit_returns(ir_walked_stmts(*ir, b.statements));
    proof {
        lemma_children_view_inverse(split, sv);
        lemma_children_view_injective(split, container_of(sv));
    }
    BlockExpr { modifier, statements: split, tail_expr: ir_walk_opt_box_expr(ir, tail_expr), node_info }
}

fn ir_walk_stmt(ir: &ImplicitReturns, s: Stmt) -> (r: Stmt)
    ensures
        r == ir_walked_stmt(*ir, s),
    decreases ir_m_stmt(s), 1nat, s,
{
    match s {
        Stmt::ExprStmt(x) => {
            let ExprStmt { expr, node_info } = x;
            match expr {
                Expr::ReturnExpr(ret) => {
                    let ReturnExpr { expr: value, node_info: ret_info } = ret;
                    match value {
                        Some(v) => {
                            proof {
                                lemma_m_returns_in_expr(*v);
                                lemma_plain_value_unchanged(*v);
                            }
                            let (y, emitted) = returns_in_expr_exec(*v);
                            if emitted {
                                Stmt::ExprStmt(ExprStmt { expr: ir_walk_expr(ir, y), node_info })
                            } else {
                                let back = Expr::ReturnExpr(ReturnExpr { expr: Some(Box::new(y)), node_info: ret_info });
                                Stmt::ExprStmt(ExprStmt { expr: ir_walk_expr(ir, back), node_info })
                            }
                        },
                        None => {
                            let back = Expr::ReturnExpr(ReturnExpr { expr: None, node_info: ret_info });
                            Stmt::ExprStmt(ExprStmt { expr: ir_walk_expr(ir, back), node_info })
                        },
                    }
                },
                other => Stmt::ExprStmt(ExprStmt { expr: ir_walk_expr(ir, other), node_info }),
            }
        },
        Stmt::LetStmt(x) => {
            let LetStmt { pat, initializer, let_else, node_info } = x;
            Stmt::LetStmt(LetStmt {
                pat,
                initializer: ir_walk_opt_expr(ir, initializer),
                let_else: ir_walk_opt_let_else(ir, let_else),
                node_info,
            })
        },
        Stmt::Item(a) => Stmt::Item(a),
    }
}

fn ir_walk_else(ir: &ImplicitReturns, x: ElseBranch) -> (r: ElseBranch)
    ensures
        r == ir_walked_else(*ir, x),
    decreases ir_m_else(x), 0nat, x,
{
    match x {
        ElseBranch::Block(b) => ElseBranch::Block(ir_walk_block(ir, b)),
        ElseBranch::IfExpr(i) => ElseBranch::IfExpr(ir_walk_if(ir, i)),
    }
}

fn ir_walk_segment(ir: &ImplicitReturns, x: FormatArgsSegment) -> (r: FormatArgsSegment)
    ensures
        r == ir_walked_segment(*ir, x),
    decreases ir_m_segment(x), 0nat, x,
{
    match x {
        FormatArgsSegment::Expr(e) => FormatArgsSegment::Expr(ir_walk_expr(ir, e)),
        _ => x,
    }
}

/// A function after the pass: its body made to return its value, then
/// walked.
pub open spec fn ir_walked_fn(ir: ImplicitReturns, f: Function) -> Function {
    Function {
        body: match f.body {
            Some(b) => Some(ir_walked_block(ir, returns_in_block(b).0)),
            None => None,
        },
        node_info: f.node_info,
    }
}

impl ImplicitReturns {
    /// Runs the pass over a function.
    pub fn visit_fn(&mut self, f: &mut Function)
        ensures
            *final(f) == ir_walked_fn(*old(self), *old(f)),
            *final(self) == *old(self),
    {
        let mut body = None;
        core::mem::swap(&mut body, &mut f.body);
        f.body = match body {
            Some(b) => Some(ir_walk_block(self, returns_in_block_exec(b).0)),
            None => None,
        };
    }

    /// Runs the pass over `expr` and everything inside it.
    pub fn visit_expr(&mut self, expr: &mut Expr)
        ensures
            *final(expr) == ir_walked_expr(*old(self), *old(expr)),
            *final(self) == *old(self),
    {
        let e = crate::transformer::take_eir(expr);
        *expr = ir_walk_expr(self, e);
    }

    /// Runs the pass over a block in statement position and everything
    /// inside it.
    pub fn visit_block_expr(&mut self, block: &mut BlockExpr)
        ensures
            *final(block) == ir_walked_block(*old(self), *old(block)),
            *final(self) == *old(self),
    {
        let mut b = BlockExpr { modifier: None, statements: ChildrenContainer::Empty, tail_expr: None, node_info: NodeInfo::NoAst };
        core::mem::swap(&mut b, block);
        *block = ir_walk_block(self, b);
    }

    /// Runs the pass over `stmt` and everything inside it.
    pub fn visit_stmt(&mut self, stmt: &mut Stmt)
        ensures
            *final(stmt) == ir_walked_stmt(*old(self), *old(stmt)),
            *final(self) == *old(self),
    {
        let mut s = Stmt::Item(crate::eir::AstRef { id: 0 });
        core::mem::swap(&mut s, stmt);
        *stmt = ir_walk_stmt(self, s);
    }
}

/// After the pass, the body of a function (one without an `async` or
/// generator modifier) has no tail value left: everything it produces is
/// returned by a statement.
pub proof fn lemma_fn_body_has_no_tail(ir: ImplicitReturns, f: Function)
    requires
        f.body is Some,
        block_returns_itself(f.body.unwrap()),
    ensures
        ir_walked_fn(ir, f).body is Some,
        ir_walked_fn(ir, f).body.unwrap().tail_expr is None,
{
}

} // verus!
