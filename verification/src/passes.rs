//! The rewriting passes over a whole body: each walks every expression and
//! statement, and rewrites where its rule applies.
//!
//! `ExpandBlockExpr` turns `let pat = { ...; value };` (and `if`/`match`
//! initializers with statements) into a declaration followed by the
//! block-like expression assigning its value; `MatchOrPatternDefinitions`
//! splits match arms whose or-patterns declare variables. Both rewrite a
//! node and then walk into what it became; the walk here applies the rewrite
//! to the already walked parts, which gives the same tree because walking
//! leaves assignment targets and patterns as they are.

use vstd::prelude::*;
use crate::eir::{
    container_of, lemma_children_view_injective, lemma_children_view_inverse, ArgList, ArrayElementListExpr, ArrayRepeatExpr, AwaitExpr, BinExpr, BlockExpr,
    BreakExpr, CallExpr, CastExpr, ChildrenContainer, ClosureExpr, ElseBranch, Expr, ExprStmt,
    FieldExpr, ForExpr, FormatArgsExpr, FormatArgsSegment, IfExpr, IndexExpr, LetElse, LetExpr,
    LetStmt, LoopExpr, MacroStmts, MatchArm, MatchArmList, MatchExpr, MethodCallExpr, NodeInfo,
    PrefixExpr, RangeExpr, RecordExpr, RecordExprField, RecordExprFieldList, RefExpr, ReturnExpr,
    Stmt, TryExpr, TupleExpr, VecListExpr, VecRepeatExpr, WhileExpr,
};
use crate::or_patterns::{arms_expandable, split_arms, split_arms_exec};
use crate::transformer::{
    assign_tail, assigned_tail, expandable_let, has_stmt_in_expr, pair_container,
    pat_to_assignee_expr, pat_to_assignee_spec,
};

verus! {

/// A pass over a whole body.
#[derive(Copy, Clone, PartialEq, Eq, Structural)]
pub enum Pass {
    ExpandBlockExpr,
    MatchOrPatternDefinitions,
}

/// `let pat;` followed by `init` assigning its value to what `pat` binds,
/// as one group of statements.
pub open spec fn expanded_let(ls: LetStmt, init: Expr) -> Stmt {
    let place = pat_to_assignee_spec(ls.pat).unwrap();
    Stmt::ExprStmt(ExprStmt {
        expr: Expr::MacroStmts(MacroStmts {
            statements: pair_container(
                Stmt::LetStmt(LetStmt { pat: ls.pat, initializer: None, let_else: ls.let_else, node_info: ls.node_info }),
                Stmt::ExprStmt(ExprStmt { expr: assign_tail(init, place), node_info: NodeInfo::NoAst }),
            ),
            tail_expr: None,
            node_info: NodeInfo::NoAst,
        }),
        node_info: NodeInfo::NoAst,
    })
}

/// A statement after the pass: an expandable `let` is expanded (with its
/// initializer walked), any other statement has its parts walked.
pub open spec fn walked_stmt(p: Pass, s: Stmt) -> Stmt
    decreases s,
{
    match s {
        Stmt::ExprStmt(x) => Stmt::ExprStmt(ExprStmt { expr: walked_expr(p, x.expr), node_info: x.node_info }),
        Stmt::LetStmt(x) => if p is ExpandBlockExpr && expandable_let(s) {
            expanded_let(x, walked_expr(p, x.initializer.unwrap()))
        } else {
            Stmt::LetStmt(LetStmt {
                pat: x.pat,
                initializer: walked_opt_expr(p, x.initializer),
                let_else: walked_opt_let_else(p, x.let_else),
                node_info: x.node_info,
            })
        },
        Stmt::Item(_) => s,
    }
}

pub open spec fn walk_ok_stmt(p: Pass, s: Stmt) -> bool
    decreases s,
{
    match s {
        Stmt::ExprStmt(x) => walk_ok_expr(p, x.expr),
        Stmt::LetStmt(x) => walk_ok_opt_expr(p, x.initializer) && walk_ok_opt_let_else(p, x.let_else),
        Stmt::Item(_) => true,
    }
}

fn is_expandable_let(x: &LetStmt) -> (r: bool)
    ensures
        r == expandable_let(Stmt::LetStmt(*x)),
{
    match &x.initializer {
        Some(init) => x.let_else.is_none() && has_stmt_in_expr(init) && pat_to_assignee_expr(&x.pat).is_some(),
        None => false,
    }
}

fn walk_stmt(p: Pass, s: Stmt) -> (r: Stmt)
    requires
        walk_ok_stmt(p, s),
    ensures
        r == walked_stmt(p, s),
    decreases s,
{
    match s {
        Stmt::ExprStmt(x) => {
            let ExprStmt { expr, node_info } = x;
            Stmt::ExprStmt(ExprStmt { expr: walk_expr(p, expr), node_info })
        },
        Stmt::LetStmt(x) => {
            let expand = match p {
                Pass::ExpandBlockExpr => is_expandable_let(&x),
                _ => false,
            };
            if expand {
                let LetStmt { pat, initializer, let_else, node_info } = x;
                let init = walk_expr(p, initializer.unwrap());
                let place = pat_to_assignee_expr(&pat).unwrap();
                let assigned = assigned_tail(init, &place);
                Stmt::ExprStmt(ExprStmt {
                    expr: Expr::MacroStmts(MacroStmts {
                        statements: ChildrenContainer::More(
                            Box::new(Stmt::LetStmt(LetStmt { pat, initializer: None, let_else, node_info })),
                            Box::new(ChildrenContainer::More(
                                Box::new(Stmt::ExprStmt(ExprStmt { expr: assigned, node_info: NodeInfo::NoAst })),
                                Box::new(ChildrenContainer::Empty),
                            )),
                        ),
                        tail_expr: None,
                        node_info: NodeInfo::NoAst,
                    }),
                    node_info: NodeInfo::NoAst,
                })
            } else {
                let LetStmt { pat, initializer, let_else, node_info } = x;
                Stmt::LetStmt(LetStmt {
                    pat,
                    initializer: walk_opt_expr(p, initializer),
                    let_else: walk_opt_let_else(p, let_else),
                    node_info,
                })
            }
        },
        Stmt::Item(a) => Stmt::Item(a),
    }
}

pub open spec fn walked_else(p: Pass, x: ElseBranch) -> ElseBranch
    decreases x,
{
    match x {
        ElseBranch::Block(b) => ElseBranch::Block(walked_block(p, b)),
        ElseBranch::IfExpr(i) => ElseBranch::IfExpr(walked_if(p, i)),
    }
}

pub open spec fn walk_ok_else(p: Pass, x: ElseBranch) -> bool
    decreases x,
{
    match x {
        ElseBranch::Block(b) => walk_ok_block(p, b),
        ElseBranch::IfExpr(i) => walk_ok_if(p, i),
    }
}

fn walk_else(p: Pass, x: ElseBranch) -> (r: ElseBranch)
    requires
        walk_ok_else(p, x),
    ensures
        r == walked_else(p, x),
    decreases x,
{
    match x {
        ElseBranch::Block(b) => ElseBranch::Block(walk_block(p, b)),
        ElseBranch::IfExpr(i) => ElseBranch::IfExpr(walk_if(p, i)),
    }
}

pub open spec fn walked_segment(p: Pass, x: FormatArgsSegment) -> FormatArgsSegment
    decreases x,
{
    match x {
        FormatArgsSegment::Expr(e) => FormatArgsSegment::Expr(walked_expr(p, e)),
        _ => x,
    }
}

pub open spec fn walk_ok_segment(p: Pass, x: FormatArgsSegment) -> bool
    decreases x,
{
    match x {
        FormatArgsSegment::Expr(e) => walk_ok_expr(p, e),
        _ => true,
    }
}

fn walk_segment(p: Pass, x: FormatArgsSegment) -> (r: FormatArgsSegment)
    requires
        walk_ok_segment(p, x),
    ensures
        r == walked_segment(p, x),
    decreases x,
{
    match x {
        FormatArgsSegment::Expr(e) => FormatArgsSegment::Expr(walk_expr(p, e)),
        _ => x,
    }
}

/// Walking match arms keeps their patterns, so they stay expandable.
proof fn lemma_walked_arms_expandable(p: Pass, arms: ChildrenContainer<MatchArm>)
    requires
        arms_expandable(arms),
    ensures
        arms_expandable(walked_arms(p, arms)),
    decreases arms,
{
    match arms {
        ChildrenContainer::Empty => {},
        ChildrenContainer::More(a, rest) => {
            lemma_walked_arms_expandable(p, *rest);
            assert(walked_arm(p, *a).pat == a.pat);
        },
    }
}

pub open spec fn walked_block(p: Pass, x: BlockExpr) -> BlockExpr
    decreases x,
{
    BlockExpr {
        modifier: x.modifier,
        statements: walked_stmts(p, x.statements),
        tail_expr: walked_opt_box_expr(p, x.tail_expr),
        node_info: x.node_info,
    }
}

pub open spec fn walk_ok_block(p: Pass, x: BlockExpr) -> bool
    decreases x,
{
    walk_ok_stmts(p, x.statements)
        && walk_ok_opt_box_expr(p, x.tail_expr)
}

fn walk_block(p: Pass, x: BlockExpr) -> (r: BlockExpr)
    requires
        walk_ok_block(p, x),
    ensures
        r == walked_block(p, x),
    decreases x,
{
    let BlockExpr { modifier, statements, tail_expr, node_info } = x;
    BlockExpr {
        modifier: modifier,
        statements: walk_stmts(p, statements),
        tail_expr: walk_opt_box_expr(p, tail_expr),
        node_info: node_info,
    }
}

pub open spec fn walked_if(p: Pass, x: IfExpr) -> IfExpr
    decreases x,
{
    IfExpr {
        condition: Box::new(walked_expr(p, *x.condition)),
        then_branch: walked_block(p, x.then_branch),
        else_branch: walked_opt_else(p, x.else_branch),
        node_info: x.node_info,
    }
}

pub open spec fn walk_ok_if(p: Pass, x: IfExpr) -> bool
    decreases x,
{
    walk_ok_expr(p, *x.condition)
        && walk_ok_block(p, x.then_branch)
        && walk_ok_opt_else(p, x.else_branch)
}

fn walk_if(p: Pass, x: IfExpr) -> (r: IfExpr)
    requires
        walk_ok_if(p, x),
    ensures
        r == walked_if(p, x),
    decreases x,
{
    let IfExpr { condition, then_branch, else_branch, node_info } = x;
    IfExpr {
        condition: Box::new(walk_expr(p, *condition)),
        then_branch: walk_block(p, then_branch),
        else_branch: walk_opt_else(p, else_branch),
        node_info: node_info,
    }
}

pub open spec fn walked_arg_list(p: Pass, x: ArgList) -> ArgList
    decreases x,
{
    ArgList {
        args: walked_exprs(p, x.args),
        node_info: x.node_info,
    }
}

pub open spec fn walk_ok_arg_list(p: Pass, x: ArgList) -> bool
    decreases x,
{
    walk_ok_exprs(p, x.args)
}

fn walk_arg_list(p: Pass, x: ArgList) -> (r: ArgList)
    requires
        walk_ok_arg_list(p, x),
    ensures
        r == walked_arg_list(p, x),
    decreases x,
{
    let ArgList { args, node_info } = x;
    ArgList {
        args: walk_exprs(p, args),
        node_info: node_info,
    }
}

pub open spec fn walked_arm(p: Pass, x: MatchArm) -> MatchArm
    decreases x,
{
    MatchArm {
        pat: x.pat,
        guard: walked_opt_expr(p, x.guard),
        expr: walked_expr(p, x.expr),
        node_info: x.node_info,
    }
}

pub open spec fn walk_ok_arm(p: Pass, x: MatchArm) -> bool
    decreases x,
{
    walk_ok_opt_expr(p, x.guard)
        && walk_ok_expr(p, x.expr)
}

fn walk_arm(p: Pass, x: MatchArm) -> (r: MatchArm)
    requires
        walk_ok_arm(p, x),
    ensures
        r == walked_arm(p, x),
    decreases x,
{
    let MatchArm { pat, guard, expr, node_info } = x;
    MatchArm {
        pat: pat,
        guard: walk_opt_expr(p, guard),
        expr: walk_expr(p, expr),
        node_info: node_info,
    }
}

pub open spec fn walked_record_field_list(p: Pass, x: RecordExprFieldList) -> RecordExprFieldList
    decreases x,
{
    RecordExprFieldList {
        fields: walked_record_fields(p, x.fields),
        spread: walked_opt_box_expr(p, x.spread),
        node_info: x.node_info,
    }
}

pub open spec fn walk_ok_record_field_list(p: Pass, x: RecordExprFieldList) -> bool
    decreases x,
{
    walk_ok_record_fields(p, x.fields)
        && walk_ok_opt_box_expr(p, x.spread)
}

fn walk_record_field_list(p: Pass, x: RecordExprFieldList) -> (r: RecordExprFieldList)
    requires
        walk_ok_record_field_list(p, x),
    ensures
        r == walked_record_field_list(p, x),
    decreases x,
{
    let RecordExprFieldList { fields, spread, node_info } = x;
    RecordExprFieldList {
        fields: walk_record_fields(p, fields),
        spread: walk_opt_box_expr(p, spread),
        node_info: node_info,
    }
}

pub open spec fn walked_record_field(p: Pass, x: RecordExprField) -> RecordExprField
    decreases x,
{
    RecordExprField {
        field_name: x.field_name,
        expr: walked_expr(p, x.expr),
        node_info: x.node_info,
    }
}

pub open spec fn walk_ok_record_field(p: Pass, x: RecordExprField) -> bool
    decreases x,
{
    walk_ok_expr(p, x.expr)
}

fn walk_record_field(p: Pass, x: RecordExprField) -> (r: RecordExprField)
    requires
        walk_ok_record_field(p, x),
    ensures
        r == walked_record_field(p, x),
    decreases x,
{
    let RecordExprField { field_name, expr, node_info } = x;
    RecordExprField {
        field_name: field_name,
        expr: walk_expr(p, expr),
        node_info: node_info,
    }
}

pub open spec fn walked_let_else(p: Pass, x: LetElse) -> LetElse
    decreases x,
{
    LetElse {
        block_expr: walked_block(p, x.block_expr),
        node_info: x.node_info,
    }
}

pub open spec fn walk_ok_let_else(p: Pass, x: LetElse) -> bool
    decreases x,
{
    walk_ok_block(p, x.block_expr)
}

fn walk_let_else(p: Pass, x: LetElse) -> (r: LetElse)
    requires
        walk_ok_let_else(p, x),
    ensures
        r == walked_let_else(p, x),
    decreases x,
{
    let LetElse { block_expr, node_info } = x;
    LetElse {
        block_expr: walk_block(p, block_expr),
        node_info: node_info,
    }
}

pub open spec fn walked_exprs(p: Pass, c: ChildrenContainer<Expr>) -> ChildrenContainer<Expr>
    decreases c,
{
    match c {
        ChildrenContainer::Empty => ChildrenContainer::Empty,
        ChildrenContainer::More(x, rest) => ChildrenContainer::More(Box::new(walked_expr(p, *x)), Box::new(walked_exprs(p, *rest))),
    }
}

pub open spec fn walk_ok_exprs(p: Pass, c: ChildrenContainer<Expr>) -> bool
    decreases c,
{
    match c {
        ChildrenContainer::Empty => true,
        ChildrenContainer::More(x, rest) => walk_ok_expr(p, *x) && walk_ok_exprs(p, *rest),
    }
}

fn walk_exprs(p: Pass, c: ChildrenContainer<Expr>) -> (r: ChildrenContainer<Expr>)
    requires
        walk_ok_exprs(p, c),
    ensures
        r == walked_exprs(p, c),
    decreases c,
{
    match c {
        ChildrenContainer::Empty => ChildrenContainer::Empty,
        ChildrenContainer::More(x, rest) => ChildrenContainer::More(Box::new(walk_expr(p, *x)), Box::new(walk_exprs(p, *rest))),
    }
}

pub open spec fn walked_stmts(p: Pass, c: ChildrenContainer<Stmt>) -> ChildrenContainer<Stmt>
    decreases c,
{
    match c {
        ChildrenContainer::Empty => ChildrenContainer::Empty,
        ChildrenContainer::More(x, rest) => ChildrenContainer::More(Box::new(walked_stmt(p, *x)), Box::new(walked_stmts(p, *rest))),
    }
}

pub open spec fn walk_ok_stmts(p: Pass, c: ChildrenContainer<Stmt>) -> bool
    decreases c,
{
    match c {
        ChildrenContainer::Empty => true,
        ChildrenContainer::More(x, rest) => walk_ok_stmt(p, *x) && walk_ok_stmts(p, *rest),
    }
}

fn walk_stmts(p: Pass, c: ChildrenContainer<Stmt>) -> (r: ChildrenContainer<Stmt>)
    requires
        walk_ok_stmts(p, c),
    ensures
        r == walked_stmts(p, c),
    decreases c,
{
    match c {
        ChildrenContainer::Empty => ChildrenContainer::Empty,
        ChildrenContainer::More(x, rest) => ChildrenContainer::More(Box::new(walk_stmt(p, *x)), Box::new(walk_stmts(p, *rest))),
    }
}

pub open spec fn walked_arms(p: Pass, c: ChildrenContainer<MatchArm>) -> ChildrenContainer<MatchArm>
    decreases c,
{
    match c {
        ChildrenContainer::Empty => ChildrenContainer::Empty,
        ChildrenContainer::More(x, rest) => ChildrenContainer::More(Box::new(walked_arm(p, *x)), Box::new(walked_arms(p, *rest))),
    }
}

pub open spec fn walk_ok_arms(p: Pass, c: ChildrenContainer<MatchArm>) -> bool
    decreases c,
{
    match c {
        ChildrenContainer::Empty => true,
        ChildrenContainer::More(x, rest) => walk_ok_arm(p, *x) && walk_ok_arms(p, *rest),
    }
}

fn walk_arms(p: Pass, c: ChildrenContainer<MatchArm>) -> (r: ChildrenContainer<MatchArm>)
    requires
        walk_ok_arms(p, c),
    ensures
        r == walked_arms(p, c),
    decreases c,
{
    match c {
        ChildrenContainer::Empty => ChildrenContainer::Empty,
        ChildrenContainer::More(x, rest) => ChildrenContainer::More(Box::new(walk_arm(p, *x)), Box::new(walk_arms(p, *rest))),
    }
}

pub open spec fn walked_record_fields(p: Pass, c: ChildrenContainer<RecordExprField>) -> ChildrenContainer<RecordExprField>
    decreases c,
{
    match c {
        ChildrenContainer::Empty => ChildrenContainer::Empty,
        ChildrenContainer::More(x, rest) => ChildrenContainer::More(Box::new(walked_record_field(p, *x)), Box::new(walked_record_fields(p, *rest))),
    }
}

pub open spec fn walk_ok_record_fields(p: Pass, c: ChildrenContainer<RecordExprField>) -> bool
    decreases c,
{
    match c {
        ChildrenContainer::Empty => true,
        ChildrenContainer::More(x, rest) => walk_ok_record_field(p, *x) && walk_ok_record_fields(p, *rest),
    }
}

fn walk_record_fields(p: Pass, c: ChildrenContainer<RecordExprField>) -> (r: ChildrenContainer<RecordExprField>)
    requires
        walk_ok_record_fields(p, c),
    ensures
        r == walked_record_fields(p, c),
    decreases c,
{
    match c {
        ChildrenContainer::Empty => ChildrenContainer::Empty,
        ChildrenContainer::More(x, rest) => ChildrenContainer::More(Box::new(walk_record_field(p, *x)), Box::new(walk_record_fields(p, *rest))),
    }
}

pub open spec fn walked_segments(p: Pass, c: ChildrenContainer<FormatArgsSegment>) -> ChildrenContainer<FormatArgsSegment>
    decreases c,
{
    match c {
        ChildrenContainer::Empty => ChildrenContainer::Empty,
        ChildrenContainer::More(x, rest) => ChildrenContainer::More(Box::new(walked_segment(p, *x)), Box::new(walked_segments(p, *rest))),
    }
}

pub open spec fn walk_ok_segments(p: Pass, c: ChildrenContainer<FormatArgsSegment>) -> bool
    decreases c,
{
    match c {
        ChildrenContainer::Empty => true,
        ChildrenContainer::More(x, rest) => walk_ok_segment(p, *x) && walk_ok_segments(p, *rest),
    }
}

fn walk_segments(p: Pass, c: ChildrenContainer<FormatArgsSegment>) -> (r: ChildrenContainer<FormatArgsSegment>)
    requires
        walk_ok_segments(p, c),
    ensures
        r == walked_segments(p, c),
    decreases c,
{
    match c {
        ChildrenContainer::Empty => ChildrenContainer::Empty,
        ChildrenContainer::More(x, rest) => ChildrenContainer::More(Box::new(walk_segment(p, *x)), Box::new(walk_segments(p, *rest))),
    }
}

pub open spec fn walked_opt_box_expr(p: Pass, o: Option<Box<Expr>>) -> Option<Box<Expr>>
    decreases o,
{
    match o {
        Some(v) => Some(Box::new(walked_expr(p, *v))),
        None => None,
    }
}

pub open spec fn walk_ok_opt_box_expr(p: Pass, o: Option<Box<Expr>>) -> bool
    decreases o,
{
    match o {
        Some(v) => walk_ok_expr(p, *v),
        None => true,
    }
}

fn walk_opt_box_expr(p: Pass, o: Option<Box<Expr>>) -> (r: Option<Box<Expr>>)
    requires
        walk_ok_opt_box_expr(p, o),
    ensures
        r == walked_opt_box_expr(p, o),
    decreases o,
{
    match o {
        Some(v) => Some(Box::new(walk_expr(p, *v))),
        None => None,
    }
}

pub open spec fn walked_opt_expr(p: Pass, o: Option<Expr>) -> Option<Expr>
    decreases o,
{
    match o {
        Some(v) => Some(walked_expr(p, v)),
        None => None,
    }
}

pub open spec fn walk_ok_opt_expr(p: Pass, o: Option<Expr>) -> bool
    decreases o,
{
    match o {
        Some(v) => walk_ok_expr(p, v),
        None => true,
    }
}

fn walk_opt_expr(p: Pass, o: Option<Expr>) -> (r: Option<Expr>)
    requires
        walk_ok_opt_expr(p, o),
    ensures
        r == walked_opt_expr(p, o),
    decreases o,
{
    match o {
        Some(v) => Some(walk_expr(p, v)),
        None => None,
    }
}

pub open spec fn walked_opt_else(p: Pass, o: Option<Box<ElseBranch>>) -> Option<Box<ElseBranch>>
    decreases o,
{
    match o {
        Some(v) => Some(Box::new(walked_else(p, *v))),
        None => None,
    }
}

pub open spec fn walk_ok_opt_else(p: Pass, o: Option<Box<ElseBranch>>) -> bool
    decreases o,
{
    match o {
        Some(v) => walk_ok_else(p, *v),
        None => true,
    }
}

fn walk_opt_else(p: Pass, o: Option<Box<ElseBranch>>) -> (r: Option<Box<ElseBranch>>)
    requires
        walk_ok_opt_else(p, o),
    ensures
        r == walked_opt_else(p, o),
    decreases o,
{
    match o {
        Some(v) => Some(Box::new(walk_else(p, *v))),
        None => None,
    }
}

pub open spec fn walked_opt_let_else(p: Pass, o: Option<LetElse>) -> Option<LetElse>
    decreases o,
{
    match o {
        Some(v) => Some(walked_let_else(p, v)),
        None => None,
    }
}

pub open spec fn walk_ok_opt_let_else(p: Pass, o: Option<LetElse>) -> bool
    decreases o,
{
    match o {
        Some(v) => walk_ok_let_else(p, v),
        None => true,
    }
}

fn walk_opt_let_else(p: Pass, o: Option<LetElse>) -> (r: Option<LetElse>)
    requires
        walk_ok_opt_let_else(p, o),
    ensures
        r == walked_opt_let_else(p, o),
    decreases o,
{
    match o {
        Some(v) => Some(walk_let_else(p, v)),
        None => None,
    }
}

pub open spec fn walked_expr(p: Pass, e: Expr) -> Expr
    decreases e,
{
    match e {
        Expr::RawCodeExpr(_) => e,
        Expr::ArrayRepeatExpr(x) => Expr::ArrayRepeatExpr(ArrayRepeatExpr {
            initializer: Box::new(walked_expr(p, *x.initializer)),
            repeat: Box::new(walked_expr(p, *x.repeat)),
            node_info: x.node_info,
        }),
        Expr::ArrayElementListExpr(x) => Expr::ArrayElementListExpr(ArrayElementListExpr {
            elements: walked_exprs(p, x.elements),
            node_info: x.node_info,
        }),
        Expr::AwaitExpr(x) => Expr::AwaitExpr(AwaitExpr {
            expr: Box::new(walked_expr(p, *x.expr)),
            node_info: x.node_info,
        }),
        Expr::BinExpr(x) => Expr::BinExpr(BinExpr {
            lhs: Box::new(walked_expr(p, *x.lhs)),
            rhs: Box::new(walked_expr(p, *x.rhs)),
            op_kind: x.op_kind,
            node_info: x.node_info,
        }),
        Expr::BlockExpr(b) => Expr::BlockExpr(walked_block(p, b)),
        Expr::BreakExpr(x) => Expr::BreakExpr(BreakExpr {
            expr: walked_opt_box_expr(p, x.expr),
            lifetime: x.lifetime,
            node_info: x.node_info,
        }),
        Expr::CallExpr(x) => Expr::CallExpr(CallExpr {
            expr: Box::new(walked_expr(p, *x.expr)),
            arg_list: walked_arg_list(p, x.arg_list),
            node_info: x.node_info,
        }),
        Expr::CastExpr(x) => Expr::CastExpr(CastExpr {
            expr: Box::new(walked_expr(p, *x.expr)),
            ty: x.ty,
            node_info: x.node_info,
        }),
        Expr::ClosureExpr(x) => Expr::ClosureExpr(ClosureExpr {
            async_token: x.async_token,
            param_list: x.param_list,
            body: Box::new(walked_expr(p, *x.body)),
            node_info: x.node_info,
        }),
        Expr::ContinueExpr(_) => e,
        Expr::FieldExpr(x) => Expr::FieldExpr(FieldExpr {
            expr: Box::new(walked_expr(p, *x.expr)),
            name_ref: x.name_ref,
            node_info: x.node_info,
        }),
        Expr::ForExpr(x) => Expr::ForExpr(ForExpr {
            pat: x.pat,
            iterable: Box::new(walked_expr(p, *x.iterable)),
            label: x.label,
            loop_body: walked_block(p, x.loop_body),
            node_info: x.node_info,
        }),
        Expr::IfExpr(i) => Expr::IfExpr(walked_if(p, i)),
        Expr::IndexExpr(x) => Expr::IndexExpr(IndexExpr {
            base: Box::new(walked_expr(p, *x.base)),
            index: Box::new(walked_expr(p, *x.index)),
            node_info: x.node_info,
        }),
        Expr::LetExpr(x) => Expr::LetExpr(LetExpr {
            pat: x.pat,
            expr: Box::new(walked_expr(p, *x.expr)),
            node_info: x.node_info,
        }),
        Expr::Literal(_) => e,
        Expr::LoopExpr(x) => Expr::LoopExpr(LoopExpr {
            label: x.label,
            loop_body: walked_block(p, x.loop_body),
            node_info: x.node_info,
        }),
        Expr::MatchExpr(x) => Expr::MatchExpr(MatchExpr {
            expr: Box::new(walked_expr(p, *x.expr)),
            match_arm_list: MatchArmList {
                arms: match p {
                    Pass::MatchOrPatternDefinitions => container_of(split_arms(walked_arms(p, x.match_arm_list.arms))),
                    _ => walked_arms(p, x.match_arm_list.arms),
                },
                node_info: x.match_arm_list.node_info,
            },
            node_info: x.node_info,
        }),
        Expr::MethodCallExpr(x) => Expr::MethodCallExpr(MethodCallExpr {
            receiver: Box::new(walked_expr(p, *x.receiver)),
            name_ref: x.name_ref,
            arg_list: walked_arg_list(p, x.arg_list),
            node_info: x.node_info,
        }),
        Expr::PathExpr(_) => e,
        Expr::PrefixExpr(x) => Expr::PrefixExpr(PrefixExpr {
            op_kind: x.op_kind,
            expr: Box::new(walked_expr(p, *x.expr)),
            node_info: x.node_info,
        }),
        Expr::RangeExpr(x) => Expr::RangeExpr(RangeExpr {
            start: walked_opt_box_expr(p, x.start),
            end: walked_opt_box_expr(p, x.end),
            op_kind: x.op_kind,
            node_info: x.node_info,
        }),
        Expr::RecordExpr(x) => Expr::RecordExpr(RecordExpr {
            record_expr_field_list: walked_record_field_list(p, x.record_expr_field_list),
            node_info: x.node_info,
        }),
        Expr::RefExpr(x) => Expr::RefExpr(RefExpr {
            expr: Box::new(walked_expr(p, *x.expr)),
            node_info: x.node_info,
        }),
        Expr::ReturnExpr(x) => Expr::ReturnExpr(ReturnExpr {
            expr: walked_opt_box_expr(p, x.expr),
            node_info: x.node_info,
        }),
        Expr::TryExpr(x) => Expr::TryExpr(TryExpr {
            expr: Box::new(walked_expr(p, *x.expr)),
            node_info: x.node_info,
        }),
        Expr::TupleExpr(x) => Expr::TupleExpr(TupleExpr {
            fields: walked_exprs(p, x.fields),
            node_info: x.node_info,
        }),
        Expr::UnderscoreExpr(_) => e,
        Expr::WhileExpr(x) => Expr::WhileExpr(WhileExpr {
            label: x.label,
            condition: Box::new(walked_expr(p, *x.condition)),
            loop_body: walked_block(p, x.loop_body),
            node_info: x.node_info,
        }),
        Expr::FormatArgsExpr(x) => Expr::FormatArgsExpr(FormatArgsExpr {
            segments: walked_segments(p, x.segments),
            node_info: x.node_info,
        }),
        Expr::VecRepeatExpr(x) => Expr::VecRepeatExpr(VecRepeatExpr {
            initializer: walked_opt_box_expr(p, x.initializer),
            repeat: walked_opt_box_expr(p, x.repeat),
            node_info: x.node_info,
        }),
        Expr::VecListExpr(x) => Expr::VecListExpr(VecListExpr {
            elements: walked_exprs(p, x.elements),
            node_info: x.node_info,
        }),
        Expr::MacroStmts(x) => Expr::MacroStmts(MacroStmts {
            statements: walked_stmts(p, x.statements),
            tail_expr: walked_opt_box_expr(p, x.tail_expr),
            node_info: x.node_info,
        }),
    }
}

pub open spec fn walk_ok_expr(p: Pass, e: Expr) -> bool
    decreases e,
{
    match e {
        Expr::RawCodeExpr(_) => true,
        Expr::ArrayRepeatExpr(x) => walk_ok_expr(p, *x.initializer) && walk_ok_expr(p, *x.repeat),
        Expr::ArrayElementListExpr(x) => walk_ok_exprs(p, x.elements),
        Expr::AwaitExpr(x) => walk_ok_expr(p, *x.expr),
        Expr::BinExpr(x) => walk_ok_expr(p, *x.lhs) && walk_ok_expr(p, *x.rhs),
        Expr::BlockExpr(b) => walk_ok_block(p, b),
        Expr::BreakExpr(x) => walk_ok_opt_box_expr(p, x.expr),
        Expr::CallExpr(x) => walk_ok_expr(p, *x.expr) && walk_ok_arg_list(p, x.arg_list),
        Expr::CastExpr(x) => walk_ok_expr(p, *x.expr),
        Expr::ClosureExpr(x) => walk_ok_expr(p, *x.body),
        Expr::ContinueExpr(_) => true,
        Expr::FieldExpr(x) => walk_ok_expr(p, *x.expr),
        Expr::ForExpr(x) => walk_ok_expr(p, *x.iterable) && walk_ok_block(p, x.loop_body),
        Expr::IfExpr(i) => walk_ok_if(p, i),
        Expr::IndexExpr(x) => walk_ok_expr(p, *x.base) && walk_ok_expr(p, *x.index),
        Expr::LetExpr(x) => walk_ok_expr(p, *x.expr),
        Expr::Literal(_) => true,
        Expr::LoopExpr(x) => walk_ok_block(p, x.loop_body),
        Expr::MatchExpr(x) => walk_ok_expr(p, *x.expr) && walk_ok_arms(p, x.match_arm_list.arms)
            && (p is MatchOrPatternDefinitions ==> arms_expandable(x.match_arm_list.arms)),
        Expr::MethodCallExpr(x) => walk_ok_expr(p, *x.receiver) && walk_ok_arg_list(p, x.arg_list),
        Expr::PathExpr(_) => true,
        Expr::PrefixExpr(x) => walk_ok_expr(p, *x.expr),
        Expr::RangeExpr(x) => walk_ok_opt_box_expr(p, x.start) && walk_ok_opt_box_expr(p, x.end),
        Expr::RecordExpr(x) => walk_ok_record_field_list(p, x.record_expr_field_list),
        Expr::RefExpr(x) => walk_ok_expr(p, *x.expr),
        Expr::ReturnExpr(x) => walk_ok_opt_box_expr(p, x.expr),
        Expr::TryExpr(x) => walk_ok_expr(p, *x.expr),
        Expr::TupleExpr(x) => walk_ok_exprs(p, x.fields),
        Expr::UnderscoreExpr(_) => true,
        Expr::WhileExpr(x) => walk_ok_expr(p, *x.condition) && walk_ok_block(p, x.loop_body),
        Expr::FormatArgsExpr(x) => walk_ok_segments(p, x.segments),
        Expr::VecRepeatExpr(x) => walk_ok_opt_box_expr(p, x.initializer) && walk_ok_opt_box_expr(p, x.repeat),
        Expr::VecListExpr(x) => walk_ok_exprs(p, x.elements),
        Expr::MacroStmts(x) => walk_ok_stmts(p, x.statements) && walk_ok_opt_box_expr(p, x.tail_expr),
    }
}

#[verifier::rlimit(60)]
fn walk_expr(p: Pass, e: Expr) -> (r: Expr)
    requires
        walk_ok_expr(p, e),
    ensures
        r == walked_expr(p, e),
    decreases e,
{
    match e {
        Expr::RawCodeExpr(x) => Expr::RawCodeExpr(x),
        Expr::ArrayRepeatExpr(x) => {
            let ArrayRepeatExpr { initializer, repeat, node_info } = x;
            Expr::ArrayRepeatExpr(ArrayRepeatExpr {
                initializer: Box::new(walk_expr(p, *initializer)),
                repeat: Box::new(walk_expr(p, *repeat)),
                node_info: node_info,
            })
        },
        Expr::ArrayElementListExpr(x) => {
            let ArrayElementListExpr { elements, node_info } = x;
            Expr::ArrayElementListExpr(ArrayElementListExpr {
                elements: walk_exprs(p, elements),
                node_info: node_info,
            })
        },
        Expr::AwaitExpr(x) => {
            let AwaitExpr { expr, node_info } = x;
            Expr::AwaitExpr(AwaitExpr {
                expr: Box::new(walk_expr(p, *expr)),
                node_info: node_info,
            })
        },
        Expr::BinExpr(x) => {
            let BinExpr { lhs, rhs, op_kind, node_info } = x;
            Expr::BinExpr(BinExpr {
                lhs: Box::new(walk_expr(p, *lhs)),
                rhs: Box::new(walk_expr(p, *rhs)),
                op_kind: op_kind,
                node_info: node_info,
            })
        },
        Expr::BlockExpr(b) => Expr::BlockExpr(walk_block(p, b)),
        Expr::BreakExpr(x) => {
            let BreakExpr { expr, lifetime, node_info } = x;
            Expr::BreakExpr(BreakExpr {
                expr: walk_opt_box_expr(p, expr),
                lifetime: lifetime,
                node_info: node_info,
            })
        },
        Expr::CallExpr(x) => {
            let CallExpr { expr, arg_list, node_info } = x;
            Expr::CallExpr(CallExpr {
                expr: Box::new(walk_expr(p, *expr)),
                arg_list: walk_arg_list(p, arg_list),
                node_info: node_info,
            })
        },
        Expr::CastExpr(x) => {
            let CastExpr { expr, ty, node_info } = x;
            Expr::CastExpr(CastExpr {
                expr: Box::new(walk_expr(p, *expr)),
                ty: ty,
                node_info: node_info,
            })
        },
        Expr::ClosureExpr(x) => {
            let ClosureExpr { async_token, param_list, body, node_info } = x;
            Expr::ClosureExpr(ClosureExpr {
                async_token: async_token,
                param_list: param_list,
                body: Box::new(walk_expr(p, *body)),
                node_info: node_info,
            })
        },
        Expr::ContinueExpr(x) => Expr::ContinueExpr(x),
        Expr::FieldExpr(x) => {
            let FieldExpr { expr, name_ref, node_info } = x;
            Expr::FieldExpr(FieldExpr {
                expr: Box::new(walk_expr(p, *expr)),
                name_ref: name_ref,
                node_info: node_info,
            })
        },
        Expr::ForExpr(x) => {
            let ForExpr { pat, iterable, label, loop_body, node_info } = x;
            Expr::ForExpr(ForExpr {
                pat: pat,
                iterable: Box::new(walk_expr(p, *iterable)),
                label: label,
                loop_body: walk_block(p, loop_body),
                node_info: node_info,
            })
        },
        Expr::IfExpr(i) => Expr::IfExpr(walk_if(p, i)),
        Expr::IndexExpr(x) => {
            let IndexExpr { base, index, node_info } = x;
            Expr::IndexExpr(IndexExpr {
                base: Box::new(walk_expr(p, *base)),
                index: Box::new(walk_expr(p, *index)),
                node_info: node_info,
            })
        },
        Expr::LetExpr(x) => {
            let LetExpr { pat, expr, node_info } = x;
            Expr::LetExpr(LetExpr {
                pat: pat,
                expr: Box::new(walk_expr(p, *expr)),
                node_info: node_info,
            })
        },
        Expr::Literal(x) => Expr::Literal(x),
        Expr::LoopExpr(x) => {
            let LoopExpr { label, loop_body, node_info } = x;
            Expr::LoopExpr(LoopExpr {
                label: label,
                loop_body: walk_block(p, loop_body),
                node_info: node_info,
            })
        },
        Expr::MatchExpr(x) => {
            let MatchExpr { expr, match_arm_list, node_info } = x;
            let MatchArmList { arms, node_info: list_info } = match_arm_list;
            let ghost before_walk = arms;
            let arms = walk_arms(p, arms);
            let arms = match p {
                Pass::MatchOrPatternDefinitions => {
                    proof {
                        lemma_walked_arms_expandable(p, before_walk);
                    }
                    let v = split_arms_exec(arms);
                    let ghost sv = v@;
                    let c = ChildrenContainer::from_vec(v);
                    proof {
                        lemma_children_view_inverse(c, sv);
                        lemma_children_view_injective(c, container_of(sv));
                    }
                    c
                },
                _ => arms,
            };
            Expr::MatchExpr(MatchExpr {
                expr: Box::new(walk_expr(p, *expr)),
                match_arm_list: MatchArmList { arms, node_info: list_info },
                node_info,
            })
        },
        Expr::MethodCallExpr(x) => {
            let MethodCallExpr { receiver, name_ref, arg_list, node_info } = x;
            Expr::MethodCallExpr(MethodCallExpr {
                receiver: Box::new(walk_expr(p, *receiver)),
                name_ref: name_ref,
                arg_list: walk_arg_list(p, arg_list),
                node_info: node_info,
            })
        },
        Expr::PathExpr(x) => Expr::PathExpr(x),
        Expr::PrefixExpr(x) => {
            let PrefixExpr { op_kind, expr, node_info } = x;
            Expr::PrefixExpr(PrefixExpr {
                op_kind: op_kind,
                expr: Box::new(walk_expr(p, *expr)),
                node_info: node_info,
            })
        },
        Expr::RangeExpr(x) => {
            let RangeExpr { start, end, op_kind, node_info } = x;
            Expr::RangeExpr(RangeExpr {
                start: walk_opt_box_expr(p, start),
                end: walk_opt_box_expr(p, end),
                op_kind: op_kind,
                node_info: node_info,
            })
        },
        Expr::RecordExpr(x) => {
            let RecordExpr { record_expr_field_list, node_info } = x;
            Expr::RecordExpr(RecordExpr {
                record_expr_field_list: walk_record_field_list(p, record_expr_field_list),
                node_info: node_info,
            })
        },
        Expr::RefExpr(x) => {
            let RefExpr { expr, node_info } = x;
            Expr::RefExpr(RefExpr {
                expr: Box::new(walk_expr(p, *expr)),
                node_info: node_info,
            })
        },
        Expr::ReturnExpr(x) => {
            let ReturnExpr { expr, node_info } = x;
            Expr::ReturnExpr(ReturnExpr {
                expr: walk_opt_box_expr(p, expr),
                node_info: node_info,
            })
        },
        Expr::TryExpr(x) => {
            let TryExpr { expr, node_info } = x;
            Expr::TryExpr(TryExpr {
                expr: Box::new(walk_expr(p, *expr)),
                node_info: node_info,
            })
        },
        Expr::TupleExpr(x) => {
            let TupleExpr { fields, node_info } = x;
            Expr::TupleExpr(TupleExpr {
                fields: walk_exprs(p, fields),
                node_info: node_info,
            })
        },
        Expr::UnderscoreExpr(x) => Expr::UnderscoreExpr(x),
        Expr::WhileExpr(x) => {
            let WhileExpr { label, condition, loop_body, node_info } = x;
            Expr::WhileExpr(WhileExpr {
                label: label,
                condition: Box::new(walk_expr(p, *condition)),
                loop_body: walk_block(p, loop_body),
                node_info: node_info,
            })
        },
        Expr::FormatArgsExpr(x) => {
            let FormatArgsExpr { segments, node_info } = x;
            Expr::FormatArgsExpr(FormatArgsExpr {
                segments: walk_segments(p, segments),
                node_info: node_info,
            })
        },
        Expr::VecRepeatExpr(x) => {
            let VecRepeatExpr { initializer, repeat, node_info } = x;
            Expr::VecRepeatExpr(VecRepeatExpr {
                initializer: walk_opt_box_expr(p, initializer),
                repeat: walk_opt_box_expr(p, repeat),
                node_info: node_info,
            })
        },
        Expr::VecListExpr(x) => {
            let VecListExpr { elements, node_info } = x;
            Expr::VecListExpr(VecListExpr {
                elements: walk_exprs(p, elements),
                node_info: node_info,
            })
        },
        Expr::MacroStmts(x) => {
            let MacroStmts { statements, tail_expr, node_info } = x;
            Expr::MacroStmts(MacroStmts {
                statements: walk_stmts(p, statements),
                tail_expr: walk_opt_box_expr(p, tail_expr),
                node_info: node_info,
            })
        },
    }
}

proof fn lemma_ok_block(x: BlockExpr)
    ensures
        walk_ok_block(Pass::ExpandBlockExpr, x),
    decreases x,
{
    lemma_ok_stmts(x.statements);
    lemma_ok_opt_box_expr(x.tail_expr);
}

proof fn lemma_ok_if(x: IfExpr)
    ensures
        walk_ok_if(Pass::ExpandBlockExpr, x),
    decreases x,
{
    lemma_ok_expr(*x.condition);
    lemma_ok_block(x.then_branch);
    lemma_ok_opt_else(x.else_branch);
}

proof fn lemma_ok_arg_list(x: ArgList)
    ensures
        walk_ok_arg_list(Pass::ExpandBlockExpr, x),
    decreases x,
{
    lemma_ok_exprs(x.args);
}

proof fn lemma_ok_arm(x: MatchArm)
    ensures
        walk_ok_arm(Pass::ExpandBlockExpr, x),
    decreases x,
{
    lemma_ok_opt_expr(x.guard);
    lemma_ok_expr(x.expr);
}

proof fn lemma_ok_record_field_list(x: RecordExprFieldList)
    ensures
        walk_ok_record_field_list(Pass::ExpandBlockExpr, x),
    decreases x,
{
    lemma_ok_record_fields(x.fields);
    lemma_ok_opt_box_expr(x.spread);
}

proof fn lemma_ok_record_field(x: RecordExprField)
    ensures
        walk_ok_record_field(Pass::ExpandBlockExpr, x),
    decreases x,
{
    lemma_ok_expr(x.expr);
}

proof fn lemma_ok_let_else(x: LetElse)
    ensures
        walk_ok_let_else(Pass::ExpandBlockExpr, x),
    decreases x,
{
    lemma_ok_block(x.block_expr);
}

proof fn lemma_ok_exprs(c: ChildrenContainer<Expr>)
    ensures
        walk_ok_exprs(Pass::ExpandBlockExpr, c),
    decreases c,
{
    match c {
        ChildrenContainer::Empty => {},
        ChildrenContainer::More(x, rest) => {
            lemma_ok_expr(*x);
            lemma_ok_exprs(*rest);
        },
    }
}

proof fn lemma_ok_stmts(c: ChildrenContainer<Stmt>)
    ensures
        walk_ok_stmts(Pass::ExpandBlockExpr, c),
    decreases c,
{
    match c {
        ChildrenContainer::Empty => {},
        ChildrenContainer::More(x, rest) => {
            lemma_ok_stmt(*x);
            lemma_ok_stmts(*rest);
        },
    }
}

proof fn lemma_ok_arms(c: ChildrenContainer<MatchArm>)
    ensures
        walk_ok_arms(Pass::ExpandBlockExpr, c),
    decreases c,
{
    match c {
        ChildrenContainer::Empty => {},
        ChildrenContainer::More(x, rest) => {
            lemma_ok_arm(*x);
            lemma_ok_arms(*rest);
        },
    }
}

proof fn lemma_ok_record_fields(c: ChildrenContainer<RecordExprField>)
    ensures
        walk_ok_record_fields(Pass::ExpandBlockExpr, c),
    decreases c,
{
    match c {
        ChildrenContainer::Empty => {},
        ChildrenContainer::More(x, rest) => {
            lemma_ok_record_field(*x);
            lemma_ok_record_fields(*rest);
        },
    }
}

proof fn lemma_ok_segments(c: ChildrenContainer<FormatArgsSegment>)
    ensures
        walk_ok_segments(Pass::ExpandBlockExpr, c),
    decreases c,
{
    match c {
        ChildrenContainer::Empty => {},
        ChildrenContainer::More(x, rest) => {
            lemma_ok_segment(*x);
            lemma_ok_segments(*rest);
        },
    }
}

proof fn lemma_ok_opt_box_expr(o: Option<Box<Expr>>)
    ensures
        walk_ok_opt_box_expr(Pass::ExpandBlockExpr, o),
    decreases o,
{
    match o {
        Some(v) => {
            lemma_ok_expr(*v);
        },
        None => {},
    }
}

proof fn lemma_ok_opt_expr(o: Option<Expr>)
    ensures
        walk_ok_opt_expr(Pass::ExpandBlockExpr, o),
    decreases o,
{
    match o {
        Some(v) => {
            lemma_ok_expr(v);
        },
        None => {},
    }
}

proof fn lemma_ok_opt_else(o: Option<Box<ElseBranch>>)
    ensures
        walk_ok_opt_else(Pass::ExpandBlockExpr, o),
    decreases o,
{
    match o {
        Some(v) => {
            lemma_ok_else(*v);
        },
        None => {},
    }
}

proof fn lemma_ok_opt_let_else(o: Option<LetElse>)
    ensures
        walk_ok_opt_let_else(Pass::ExpandBlockExpr, o),
    decreases o,
{
    match o {
        Some(v) => {
            lemma_ok_let_else(v);
        },
        None => {},
    }
}

/// Expanding block-like `let` initializers applies to every body.
pub proof fn lemma_ok_expr(e: Expr)
    ensures
        walk_ok_expr(Pass::ExpandBlockExpr, e),
    decreases e,
{
    match e {
        Expr::RawCodeExpr(_) => {},
        Expr::ArrayRepeatExpr(x) => {
            lemma_ok_expr(*x.initializer);
            lemma_ok_expr(*x.repeat);
        },
        Expr::ArrayElementListExpr(x) => {
            lemma_ok_exprs(x.elements);
        },
        Expr::AwaitExpr(x) => {
            lemma_ok_expr(*x.expr);
        },
        Expr::BinExpr(x) => {
            lemma_ok_expr(*x.lhs);
            lemma_ok_expr(*x.rhs);
        },
        Expr::BlockExpr(b) => lemma_ok_block(b),
        Expr::BreakExpr(x) => {
            lemma_ok_opt_box_expr(x.expr);
        },
        Expr::CallExpr(x) => {
            lemma_ok_expr(*x.expr);
            lemma_ok_arg_list(x.arg_list);
        },
        Expr::CastExpr(x) => {
            lemma_ok_expr(*x.expr);
        },
        Expr::ClosureExpr(x) => {
            lemma_ok_expr(*x.body);
        },
        Expr::ContinueExpr(_) => {},
        Expr::FieldExpr(x) => {
            lemma_ok_expr(*x.expr);
        },
        Expr::ForExpr(x) => {
            lemma_ok_expr(*x.iterable);
            lemma_ok_block(x.loop_body);
        },
        Expr::IfExpr(i) => lemma_ok_if(i),
        Expr::IndexExpr(x) => {
            lemma_ok_expr(*x.base);
            lemma_ok_expr(*x.index);
        },
        Expr::LetExpr(x) => {
            lemma_ok_expr(*x.expr);
        },
        Expr::Literal(_) => {},
        Expr::LoopExpr(x) => {
            lemma_ok_block(x.loop_body);
        },
        Expr::MatchExpr(x) => {
            lemma_ok_expr(*x.expr);
            lemma_ok_arms(x.match_arm_list.arms);
        },
        Expr::MethodCallExpr(x) => {
            lemma_ok_expr(*x.receiver);
            lemma_ok_arg_list(x.arg_list);
        },
        Expr::PathExpr(_) => {},
        Expr::PrefixExpr(x) => {
            lemma_ok_expr(*x.expr);
        },
        Expr::RangeExpr(x) => {
            lemma_ok_opt_box_expr(x.start);
            lemma_ok_opt_box_expr(x.end);
        },
        Expr::RecordExpr(x) => {
            lemma_ok_record_field_list(x.record_expr_field_list);
        },
        Expr::RefExpr(x) => {
            lemma_ok_expr(*x.expr);
        },
        Expr::ReturnExpr(x) => {
            lemma_ok_opt_box_expr(x.expr);
        },
        Expr::TryExpr(x) => {
            lemma_ok_expr(*x.expr);
        },
        Expr::TupleExpr(x) => {
            lemma_ok_exprs(x.fields);
        },
        Expr::UnderscoreExpr(_) => {},
        Expr::WhileExpr(x) => {
            lemma_ok_expr(*x.condition);
            lemma_ok_block(x.loop_body);
        },
        Expr::FormatArgsExpr(x) => {
            lemma_ok_segments(x.segments);
        },
        Expr::VecRepeatExpr(x) => {
            lemma_ok_opt_box_expr(x.initializer);
            lemma_ok_opt_box_expr(x.repeat);
        },
        Expr::VecListExpr(x) => {
            lemma_ok_exprs(x.elements);
        },
        Expr::MacroStmts(x) => {
            lemma_ok_stmts(x.statements);
            lemma_ok_opt_box_expr(x.tail_expr);
        },
    }
}

proof fn lemma_ok_stmt(s: Stmt)
    ensures
        walk_ok_stmt(Pass::ExpandBlockExpr, s),
    decreases s,
{
    match s {
        Stmt::ExprStmt(x) => lemma_ok_expr(x.expr),
        Stmt::LetStmt(x) => {
            lemma_ok_opt_expr(x.initializer);
            lemma_ok_opt_let_else(x.let_else);
        },
        Stmt::Item(_) => {},
    }
}

proof fn lemma_ok_else(x: ElseBranch)
    ensures
        walk_ok_else(Pass::ExpandBlockExpr, x),
    decreases x,
{
    match x {
        ElseBranch::Block(b) => lemma_ok_block(b),
        ElseBranch::IfExpr(i) => lemma_ok_if(i),
    }
}

proof fn lemma_ok_segment(x: FormatArgsSegment)
    ensures
        walk_ok_segment(Pass::ExpandBlockExpr, x),
    decreases x,
{
    match x {
        FormatArgsSegment::Expr(e) => lemma_ok_expr(e),
        _ => {},
    }
}

/// The pass that expands `let` statements with block-like initializers.
pub struct ExpandBlockExpr;

impl ExpandBlockExpr {
    /// Runs the pass over `stmt` and everything inside it.
    pub fn visit_stmt(&mut self, stmt: &mut Stmt)
        ensures
            *final(stmt) == walked_stmt(Pass::ExpandBlockExpr, *old(stmt)),
    {
        proof {
            lemma_ok_stmt(*stmt);
        }
        let mut s = Stmt::Item(crate::eir::AstRef { id: 0 });
        core::mem::swap(&mut s, stmt);
        *stmt = walk_stmt(Pass::ExpandBlockExpr, s);
    }

    /// Runs the pass over `expr` and everything inside it.
    pub fn visit_expr(&mut self, expr: &mut Expr)
        ensures
            *final(expr) == walked_expr(Pass::ExpandBlockExpr, *old(expr)),
    {
        proof {
            lemma_ok_expr(*expr);
        }
        let e = crate::transformer::take_eir(expr);
        *expr = walk_expr(Pass::ExpandBlockExpr, e);
    }

    /// Runs the pass over a block and everything inside it.
    pub fn visit_block_expr(&mut self, block: &mut BlockExpr)
        ensures
            *final(block) == walked_block(Pass::ExpandBlockExpr, *old(block)),
    {
        proof {
            lemma_ok_block(*block);
        }
        let mut b = BlockExpr { modifier: None, statements: ChildrenContainer::Empty, tail_expr: None, node_info: NodeInfo::NoAst };
        core::mem::swap(&mut b, block);
        *block = walk_block(Pass::ExpandBlockExpr, b);
    }
}

impl crate::or_patterns::MatchOrPatternDefinitions {
    /// Runs the pass over `expr` and everything inside it: every `match`
    /// has its arms split where their or-patterns declare variables.
    pub fn visit_expr(&mut self, expr: &mut Expr)
        requires
            walk_ok_expr(Pass::MatchOrPatternDefinitions, *old(expr)),
        ensures
            *final(expr) == walked_expr(Pass::MatchOrPatternDefinitions, *old(expr)),
    {
        let e = crate::transformer::take_eir(expr);
        *expr = walk_expr(Pass::MatchOrPatternDefinitions, e);
    }

    /// Runs the pass over a block and everything inside it.
    pub fn visit_block_expr(&mut self, block: &mut BlockExpr)
        requires
            walk_ok_block(Pass::MatchOrPatternDefinitions, *old(block)),
        ensures
            *final(block) == walked_block(Pass::MatchOrPatternDefinitions, *old(block)),
    {
        let mut b = BlockExpr { modifier: None, statements: ChildrenContainer::Empty, tail_expr: None, node_info: NodeInfo::NoAst };
        core::mem::swap(&mut b, block);
        *block = walk_block(Pass::MatchOrPatternDefinitions, b);
    }
}

// ---------------------------------------------------------------------
// Laws
// ---------------------------------------------------------------------

/// Whether `e` is an expression that assigns to what a pattern binds: a
/// path, `_`, or a tuple or array of such.
pub open spec fn is_assignee(e: Expr) -> bool
    decreases e,
{
    match e {
        Expr::PathExpr(_) => true,
        Expr::UnderscoreExpr(_) => true,
        Expr::TupleExpr(t) => all_assignees(t.fields),
        Expr::ArrayElementListExpr(a) => all_assignees(a.elements),
        _ => false,
    }
}

pub open spec fn all_assignees(c: ChildrenContainer<Expr>) -> bool
    decreases c,
{
    match c {
        ChildrenContainer::Empty => true,
        ChildrenContainer::More(x, rest) => is_assignee(*x) && all_assignees(*rest),
    }
}

proof fn lemma_pats_assignees(pats: ChildrenContainer<crate::eir::Pat>)
    ensures
        crate::transformer::pats_to_assignees(pats) matches Some(es) ==> all_assignees(es),
    decreases pats,
{
    match pats {
        ChildrenContainer::Empty => {},
        ChildrenContainer::More(q, rest) => {
            lemma_pat_assignee(*q);
            lemma_pats_assignees(*rest);
        },
    }
}

/// What a pattern assigns to is an assignee expression.
pub proof fn lemma_pat_assignee(pat: crate::eir::Pat)
    ensures
        pat_to_assignee_spec(pat) matches Some(e) ==> is_assignee(e),
    decreases pat,
{
    match pat {
        crate::eir::Pat::SlicePat(slice) => lemma_pats_assignees(slice.components.prefix),
        crate::eir::Pat::TuplePat(tuple) => lemma_pats_assignees(tuple.fields),
        _ => {},
    }
}

proof fn lemma_walk_assignees(p: Pass, c: ChildrenContainer<Expr>)
    requires
        all_assignees(c),
    ensures
        walked_exprs(p, c) == c,
    decreases c,
{
    match c {
        ChildrenContainer::Empty => {},
        ChildrenContainer::More(x, rest) => {
            lemma_walk_assignee(p, *x);
            lemma_walk_assignees(p, *rest);
        },
    }
}

/// A pass leaves an assignee expression as it is.
pub proof fn lemma_walk_assignee(p: Pass, e: Expr)
    requires
        is_assignee(e),
    ensures
        walked_expr(p, e) == e,
    decreases e,
{
    match e {
        Expr::TupleExpr(t) => lemma_walk_assignees(p, t.fields),
        Expr::ArrayElementListExpr(a) => lemma_walk_assignees(p, a.elements),
        _ => {},
    }
}

proof fn lemma_walked_stmts_view(p: Pass, c: ChildrenContainer<Stmt>)
    ensures
        walked_stmts(p, c)@ == c@.map_values(|s: Stmt| walked_stmt(p, s)),
    decreases c,
{
    match c {
        ChildrenContainer::Empty => {
            assert(walked_stmts(p, c)@ =~= c@.map_values(|s: Stmt| walked_stmt(p, s)));
        },
        ChildrenContainer::More(x, rest) => {
            lemma_walked_stmts_view(p, *rest);
            assert(walked_stmts(p, c)@ =~= c@.map_values(|s: Stmt| walked_stmt(p, s)));
        },
    }
}

/// Walking the statements with one more at the end walks that one too.
proof fn lemma_walked_stmts_push(p: Pass, c: ChildrenContainer<Stmt>, s: Stmt)
    ensures
        walked_stmts(p, container_of(c@.push(s))) == container_of(walked_stmts(p, c)@.push(walked_stmt(p, s))),
{
    let pushed = container_of(c@.push(s));
    lemma_children_view_inverse(pushed, c@.push(s));
    lemma_walked_stmts_view(p, pushed);
    lemma_walked_stmts_view(p, c);
    let rhs = container_of(walked_stmts(p, c)@.push(walked_stmt(p, s)));
    lemma_children_view_inverse(rhs, walked_stmts(p, c)@.push(walked_stmt(p, s)));
    assert(walked_stmts(p, pushed)@ =~= rhs@);
    lemma_children_view_injective(walked_stmts(p, pushed), rhs);
}

proof fn lemma_walk_assign_block(p: Pass, b: BlockExpr, place: Expr)
    requires
        is_assignee(place),
    ensures
        walked_block(p, crate::transformer::assign_tail_block(b, place))
            == crate::transformer::assign_tail_block(walked_block(p, b), place),
{
    lemma_walk_assignee(p, place);
    if let Some(t) = b.tail_expr {
        lemma_walked_stmts_push(p, b.statements, crate::transformer::assign_stmt(place, *t));
    }
}

proof fn lemma_walk_assign_if(p: Pass, i: IfExpr, place: Expr)
    requires
        is_assignee(place),
    ensures
        walked_if(p, crate::transformer::assign_tail_if(i, place))
            == crate::transformer::assign_tail_if(walked_if(p, i), place),
    decreases i,
{
    lemma_walk_assign_block(p, i.then_branch, place);
    if let Some(eb) = i.else_branch {
        match *eb {
            ElseBranch::IfExpr(e) => {
                lemma_walk_assign_if(p, e, place);
                assert(walked_else(p, ElseBranch::IfExpr(crate::transformer::assign_tail_if(e, place)))
                    == ElseBranch::IfExpr(crate::transformer::assign_tail_if(walked_if(p, e), place)));
            },
            ElseBranch::Block(b) => {
                lemma_walk_assign_block(p, b, place);
                assert(walked_else(p, ElseBranch::Block(crate::transformer::assign_tail_block(b, place)))
                    == ElseBranch::Block(crate::transformer::assign_tail_block(walked_block(p, b), place)));
            },
        }
    }
}

proof fn lemma_walk_assign_arms(arms: ChildrenContainer<MatchArm>, place: Expr)
    requires
        is_assignee(place),
    ensures
        walked_arms(Pass::ExpandBlockExpr, crate::transformer::assign_arms(arms, place))
            == crate::transformer::assign_arms(walked_arms(Pass::ExpandBlockExpr, arms), place),
    decreases arms,
{
    lemma_walk_assignee(Pass::ExpandBlockExpr, place);
    match arms {
        ChildrenContainer::Empty => {},
        ChildrenContainer::More(a, rest) => {
            lemma_walk_assign_arms(*rest, place);
            let p = Pass::ExpandBlockExpr;
            assert(walked_expr(p, crate::transformer::assign_expr(place, a.expr))
                == crate::transformer::assign_expr(place, walked_expr(p, a.expr)));
            assert(walked_arm(p, MatchArm {
                pat: a.pat,
                guard: a.guard,
                expr: crate::transformer::assign_expr(place, a.expr),
                node_info: a.node_info,
            }) == MatchArm {
                pat: walked_arm(p, *a).pat,
                guard: walked_arm(p, *a).guard,
                expr: crate::transformer::assign_expr(place, walked_arm(p, *a).expr),
                node_info: walked_arm(p, *a).node_info,
            });
        },
    }
}

/// Expanding a `let` and then walking into what it became gives the same
/// tree as walking its initializer first: the expansion commutes with the
/// walk of `ExpandBlockExpr`.
pub proof fn lemma_expand_commutes(e: Expr, place: Expr)
    requires
        crate::transformer::is_block_like(e),
        is_assignee(place),
    ensures
        walked_expr(Pass::ExpandBlockExpr, assign_tail(e, place))
            == assign_tail(walked_expr(Pass::ExpandBlockExpr, e), place),
{
    match e {
        Expr::BlockExpr(b) => lemma_walk_assign_block(Pass::ExpandBlockExpr, b, place),
        Expr::IfExpr(i) => lemma_walk_assign_if(Pass::ExpandBlockExpr, i, place),
        Expr::MatchExpr(m) => lemma_walk_assign_arms(m.match_arm_list.arms, place),
        _ => {},
    }
}

proof fn lemma_idem_block(x: BlockExpr)
    ensures
        walked_block(Pass::ExpandBlockExpr, walked_block(Pass::ExpandBlockExpr, x)) == walked_block(Pass::ExpandBlockExpr, x),
    decreases x,
{
    lemma_idem_stmts(x.statements);
    lemma_idem_opt_box_expr(x.tail_expr);
}

proof fn lemma_idem_if(x: IfExpr)
    ensures
        walked_if(Pass::ExpandBlockExpr, walked_if(Pass::ExpandBlockExpr, x)) == walked_if(Pass::ExpandBlockExpr, x),
    decreases x,
{
    lemma_idem_expr(*x.condition);
    lemma_idem_block(x.then_branch);
    lemma_idem_opt_else(x.else_branch);
}

proof fn lemma_idem_arg_list(x: ArgList)
    ensures
        walked_arg_list(Pass::ExpandBlockExpr, walked_arg_list(Pass::ExpandBlockExpr, x)) == walked_arg_list(Pass::ExpandBlockExpr, x),
    decreases x,
{
    lemma_idem_exprs(x.args);
}

proof fn lemma_idem_arm(x: MatchArm)
    ensures
        walked_arm(Pass::ExpandBlockExpr, walked_arm(Pass::ExpandBlockExpr, x)) == walked_arm(Pass::ExpandBlockExpr, x),
    decreases x,
{
    lemma_idem_opt_expr(x.guard);
    lemma_idem_expr(x.expr);
}

proof fn lemma_idem_record_field_list(x: RecordExprFieldList)
    ensures
        walked_record_field_list(Pass::ExpandBlockExpr, walked_record_field_list(Pass::ExpandBlockExpr, x)) == walked_record_field_list(Pass::ExpandBlockExpr, x),
    decreases x,
{
    lemma_idem_record_fields(x.fields);
    lemma_idem_opt_box_expr(x.spread);
}

proof fn lemma_idem_record_field(x: RecordExprField)
    ensures
        walked_record_field(Pass::ExpandBlockExpr, walked_record_field(Pass::ExpandBlockExpr, x)) == walked_record_field(Pass::ExpandBlockExpr, x),
    decreases x,
{
    lemma_idem_expr(x.expr);
}

proof fn lemma_idem_let_else(x: LetElse)
    ensures
        walked_let_else(Pass::ExpandBlockExpr, walked_let_else(Pass::ExpandBlockExpr, x)) == walked_let_else(Pass::ExpandBlockExpr, x),
    decreases x,
{
    lemma_idem_block(x.block_expr);
}

proof fn lemma_idem_exprs(c: ChildrenContainer<Expr>)
    ensures
        walked_exprs(Pass::ExpandBlockExpr, walked_exprs(Pass::ExpandBlockExpr, c)) == walked_exprs(Pass::ExpandBlockExpr, c),
    decreases c,
{
    match c {
        ChildrenContainer::Empty => {},
        ChildrenContainer::More(x, rest) => {
            lemma_idem_expr(*x);
            lemma_idem_exprs(*rest);
        },
    }
}

proof fn lemma_idem_stmts(c: ChildrenContainer<Stmt>)
    ensures
        walked_stmts(Pass::ExpandBlockExpr, walked_stmts(Pass::ExpandBlockExpr, c)) == walked_stmts(Pass::ExpandBlockExpr, c),
    decreases c,
{
    match c {
        ChildrenContainer::Empty => {},
        ChildrenContainer::More(x, rest) => {
            lemma_idem_stmt(*x);
            lemma_idem_stmts(*rest);
        },
    }
}

proof fn lemma_idem_arms(c: ChildrenContainer<MatchArm>)
    ensures
        walked_arms(Pass::ExpandBlockExpr, walked_arms(Pass::ExpandBlockExpr, c)) == walked_arms(Pass::ExpandBlockExpr, c),
    decreases c,
{
    match c {
        ChildrenContainer::Empty => {},
        ChildrenContainer::More(x, rest) => {
            lemma_idem_arm(*x);
            lemma_idem_arms(*rest);
        },
    }
}

proof fn lemma_idem_record_fields(c: ChildrenContainer<RecordExprField>)
    ensures
        walked_record_fields(Pass::ExpandBlockExpr, walked_record_fields(Pass::ExpandBlockExpr, c)) == walked_record_fields(Pass::ExpandBlockExpr, c),
    decreases c,
{
    match c {
        ChildrenContainer::Empty => {},
        ChildrenContainer::More(x, rest) => {
            lemma_idem_record_field(*x);
            lemma_idem_record_fields(*rest);
        },
    }
}

proof fn lemma_idem_segments(c: ChildrenContainer<FormatArgsSegment>)
    ensures
        walked_segments(Pass::ExpandBlockExpr, walked_segments(Pass::ExpandBlockExpr, c)) == walked_segments(Pass::ExpandBlockExpr, c),
    decreases c,
{
    match c {
        ChildrenContainer::Empty => {},
        ChildrenContainer::More(x, rest) => {
            lemma_idem_segment(*x);
            lemma_idem_segments(*rest);
        },
    }
}

proof fn lemma_idem_opt_box_expr(o: Option<Box<Expr>>)
    ensures
        walked_opt_box_expr(Pass::ExpandBlockExpr, walked_opt_box_expr(Pass::ExpandBlockExpr, o)) == walked_opt_box_expr(Pass::ExpandBlockExpr, o),
    decreases o,
{
    match o {
        Some(v) => {
            lemma_idem_expr(*v);
        },
        None => {},
    }
}

proof fn lemma_idem_opt_expr(o: Option<Expr>)
    ensures
        walked_opt_expr(Pass::ExpandBlockExpr, walked_opt_expr(Pass::ExpandBlockExpr, o)) == walked_opt_expr(Pass::ExpandBlockExpr, o),
    decreases o,
{
    match o {
        Some(v) => {
            lemma_idem_expr(v);
        },
        None => {},
    }
}

proof fn lemma_idem_opt_else(o: Option<Box<ElseBranch>>)
    ensures
        walked_opt_else(Pass::ExpandBlockExpr, walked_opt_else(Pass::ExpandBlockExpr, o)) == walked_opt_else(Pass::ExpandBlockExpr, o),
    decreases o,
{
    match o {
        Some(v) => {
            lemma_idem_else(*v);
        },
        None => {},
    }
}

proof fn lemma_idem_opt_let_else(o: Option<LetElse>)
    ensures
        walked_opt_let_else(Pass::ExpandBlockExpr, walked_opt_let_else(Pass::ExpandBlockExpr, o)) == walked_opt_let_else(Pass::ExpandBlockExpr, o),
    decreases o,
{
    match o {
        Some(v) => {
            lemma_idem_let_else(v);
        },
        None => {},
    }
}

/// Running `ExpandBlockExpr` a second time changes nothing: no `let`
/// that it would expand is left.
pub proof fn lemma_idem_expr(e: Expr)
    ensures
        walked_expr(Pass::ExpandBlockExpr, walked_expr(Pass::ExpandBlockExpr, e)) == walked_expr(Pass::ExpandBlockExpr, e),
    decreases e,
{
    match e {
        Expr::RawCodeExpr(_) => {},
        Expr::ArrayRepeatExpr(x) => {
            lemma_idem_expr(*x.initializer);
            lemma_idem_expr(*x.repeat);
        },
        Expr::ArrayElementListExpr(x) => {
            lemma_idem_exprs(x.elements);
        },
        Expr::AwaitExpr(x) => {
            lemma_idem_expr(*x.expr);
        },
        Expr::BinExpr(x) => {
            lemma_idem_expr(*x.lhs);
            lemma_idem_expr(*x.rhs);
        },
        Expr::BlockExpr(b) => lemma_idem_block(b),
        Expr::BreakExpr(x) => {
            lemma_idem_opt_box_expr(x.expr);
        },
        Expr::CallExpr(x) => {
            lemma_idem_expr(*x.expr);
            lemma_idem_arg_list(x.arg_list);
        },
        Expr::CastExpr(x) => {
            lemma_idem_expr(*x.expr);
        },
        Expr::ClosureExpr(x) => {
            lemma_idem_expr(*x.body);
        },
        Expr::ContinueExpr(_) => {},
        Expr::FieldExpr(x) => {
            lemma_idem_expr(*x.expr);
        },
        Expr::ForExpr(x) => {
            lemma_idem_expr(*x.iterable);
            lemma_idem_block(x.loop_body);
        },
        Expr::IfExpr(i) => lemma_idem_if(i),
        Expr::IndexExpr(x) => {
            lemma_idem_expr(*x.base);
            lemma_idem_expr(*x.index);
        },
        Expr::LetExpr(x) => {
            lemma_idem_expr(*x.expr);
        },
        Expr::Literal(_) => {},
        Expr::LoopExpr(x) => {
            lemma_idem_block(x.loop_body);
        },
        Expr::MatchExpr(x) => {
            lemma_idem_expr(*x.expr);
            lemma_idem_arms(x.match_arm_list.arms);
        },
        Expr::MethodCallExpr(x) => {
            lemma_idem_expr(*x.receiver);
            lemma_idem_arg_list(x.arg_list);
        },
        Expr::PathExpr(_) => {},
        Expr::PrefixExpr(x) => {
            lemma_idem_expr(*x.expr);
        },
        Expr::RangeExpr(x) => {
            lemma_idem_opt_box_expr(x.start);
            lemma_idem_opt_box_expr(x.end);
        },
        Expr::RecordExpr(x) => {
            lemma_idem_record_field_list(x.record_expr_field_list);
        },
        Expr::RefExpr(x) => {
            lemma_idem_expr(*x.expr);
        },
        Expr::ReturnExpr(x) => {
            lemma_idem_opt_box_expr(x.expr);
        },
        Expr::TryExpr(x) => {
            lemma_idem_expr(*x.expr);
        },
        Expr::TupleExpr(x) => {
            lemma_idem_exprs(x.fields);
        },
        Expr::UnderscoreExpr(_) => {},
        Expr::WhileExpr(x) => {
            lemma_idem_expr(*x.condition);
            lemma_idem_block(x.loop_body);
        },
        Expr::FormatArgsExpr(x) => {
            lemma_idem_segments(x.segments);
        },
        Expr::VecRepeatExpr(x) => {
            lemma_idem_opt_box_expr(x.initializer);
            lemma_idem_opt_box_expr(x.repeat);
        },
        Expr::VecListExpr(x) => {
            lemma_idem_exprs(x.elements);
        },
        Expr::MacroStmts(x) => {
            lemma_idem_stmts(x.statements);
            lemma_idem_opt_box_expr(x.tail_expr);
        },
    }
}

proof fn lemma_idem_else(x: ElseBranch)
    ensures
        walked_else(Pass::ExpandBlockExpr, walked_else(Pass::ExpandBlockExpr, x)) == walked_else(Pass::ExpandBlockExpr, x),
    decreases x,
{
    match x {
        ElseBranch::Block(b) => lemma_idem_block(b),
        ElseBranch::IfExpr(i) => lemma_idem_if(i),
    }
}

proof fn lemma_idem_segment(x: FormatArgsSegment)
    ensures
        walked_segment(Pass::ExpandBlockExpr, walked_segment(Pass::ExpandBlockExpr, x)) == walked_segment(Pass::ExpandBlockExpr, x),
    decreases x,
{
    match x {
        FormatArgsSegment::Expr(e) => lemma_idem_expr(e),
        _ => {},
    }
}

proof fn lemma_has_stmt_walk(e: Expr)
    ensures
        crate::transformer::has_stmt_spec(walked_expr(Pass::ExpandBlockExpr, e)) == crate::transformer::has_stmt_spec(e),
    decreases e,
{
    match e {
        Expr::BlockExpr(b) => lemma_block_stmts_walk(b),
        Expr::IfExpr(i) => lemma_if_chain_walk(i),
        Expr::MatchExpr(m) => lemma_arms_have_stmt_walk(m.match_arm_list.arms),
        _ => {},
    }
}

proof fn lemma_block_stmts_walk(b: BlockExpr)
    ensures
        crate::transformer::block_has_stmts(walked_block(Pass::ExpandBlockExpr, b)) == crate::transformer::block_has_stmts(b),
{
    lemma_walked_stmts_view(Pass::ExpandBlockExpr, b.statements);
    assert(walked_block(Pass::ExpandBlockExpr, b).statements == walked_stmts(Pass::ExpandBlockExpr, b.statements));
}

proof fn lemma_if_chain_walk(i: IfExpr)
    ensures
        crate::transformer::if_chain_has_stmt(walked_if(Pass::ExpandBlockExpr, i)) == crate::transformer::if_chain_has_stmt(i),
    decreases i,
{
    let p = Pass::ExpandBlockExpr;
    lemma_block_stmts_walk(i.then_branch);
    assert(walked_if(p, i).then_branch == walked_block(p, i.then_branch));
    if let Some(eb) = i.else_branch {
        match *eb {
            ElseBranch::IfExpr(e) => {
                lemma_if_chain_walk(e);
                assert(walked_if(p, i).else_branch == walked_opt_else(p, i.else_branch));
                assert(walked_opt_else(p, i.else_branch) == Some(Box::new(walked_else(p, *eb))));
                assert(walked_else(p, *eb) == ElseBranch::IfExpr(walked_if(p, e)));
            },
            ElseBranch::Block(b) => {
                lemma_block_stmts_walk(b);
                assert(walked_if(p, i).else_branch == walked_opt_else(p, i.else_branch));
                assert(walked_opt_else(p, i.else_branch) == Some(Box::new(walked_else(p, *eb))));
                assert(walked_else(p, *eb) == ElseBranch::Block(walked_block(p, b)));
            },
        }
    } else {
        assert(walked_if(p, i).else_branch.is_none());
    }
}

proof fn lemma_arms_have_stmt_walk(c: ChildrenContainer<MatchArm>)
    ensures
        crate::transformer::arms_have_stmt(walked_arms(Pass::ExpandBlockExpr, c)) == crate::transformer::arms_have_stmt(c),
    decreases c,
{
    match c {
        ChildrenContainer::Empty => {},
        ChildrenContainer::More(a, rest) => {
            lemma_has_stmt_walk(a.expr);
            lemma_arms_have_stmt_walk(*rest);
            assert(walked_arm(Pass::ExpandBlockExpr, *a).expr == walked_expr(Pass::ExpandBlockExpr, a.expr));
        },
    }
}

proof fn lemma_idem_stmt(s: Stmt)
    ensures
        walked_stmt(Pass::ExpandBlockExpr, walked_stmt(Pass::ExpandBlockExpr, s)) == walked_stmt(Pass::ExpandBlockExpr, s),
    decreases s,
{
    let p = Pass::ExpandBlockExpr;
    match s {
        Stmt::ExprStmt(x) => lemma_idem_expr(x.expr),
        Stmt::LetStmt(x) => {
            if expandable_let(s) {
                let init = x.initializer.unwrap();
                let place = pat_to_assignee_spec(x.pat).unwrap();
                lemma_pat_assignee(x.pat);
                crate::transformer::lemma_has_stmt_block_like(init);
                let w = walked_expr(p, init);
                assert(crate::transformer::is_block_like(w));
                lemma_expand_commutes(w, place);
                lemma_idem_expr(init);
                let decl = Stmt::LetStmt(LetStmt { pat: x.pat, initializer: None, let_else: x.let_else, node_info: x.node_info });
                let assigning = Stmt::ExprStmt(ExprStmt { expr: assign_tail(w, place), node_info: NodeInfo::NoAst });
                assert(!expandable_let(decl));
                assert(walked_stmt(p, decl) == decl);
                assert(walked_stmt(p, assigning) == assigning);
                let last = ChildrenContainer::More(Box::new(assigning), Box::new(ChildrenContainer::<Stmt>::Empty));
                assert(walked_stmts(p, ChildrenContainer::<Stmt>::Empty) == ChildrenContainer::<Stmt>::Empty);
                assert(walked_stmts(p, last) == last);
                assert(walked_stmts(p, pair_container(decl, assigning)) == pair_container(decl, assigning));
            } else {
                lemma_idem_opt_expr(x.initializer);
                lemma_idem_opt_let_else(x.let_else);
                if let Some(init) = x.initializer {
                    lemma_has_stmt_walk(init);
                }
                let ws = walked_stmt(p, s);
                assert(!expandable_let(ws));
            }
        },
        Stmt::Item(_) => {},
    }
}

/// Running `ExpandBlockExpr` a second time over a statement changes nothing.
pub proof fn lemma_expand_block_idempotent(s: Stmt)
    ensures
        walked_stmt(Pass::ExpandBlockExpr, walked_stmt(Pass::ExpandBlockExpr, s)) == walked_stmt(Pass::ExpandBlockExpr, s),
{
    lemma_idem_stmt(s);
}

} // verus!
