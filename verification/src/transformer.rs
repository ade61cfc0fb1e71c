//! Rewrites of the expression IR that make it fit C#: block-like values
//! assigned through their tails, explicit returns, and or-patterns that
//! bind variables split into several match arms.

use vstd::prelude::*;
use core::ops::ControlFlow;
use crate::eir::{
    expr_info, AstRef, container_of, lemma_children_view_injective, lemma_children_view_inverse,
    ArrayElementListExpr, BinExpr, BinaryOp, BlockExpr, BlockModifier, ChildrenContainer,
    ElseBranch, Expr, ExprStmt, IfExpr, LetStmt, MacroStmts, MatchArm, MatchArmList, MatchExpr,
    NodeInfo, Pat, Path, PathExpr, RawCodeExpr, ReturnExpr, Stmt, TupleExpr, UnderscoreExpr,
    WildcardPat,
};
use crate::eir_clone::{clone_expr, clone_path};
use crate::output::{Code, CodeState};

verus! {

/// A node that a pass may leave behind in place of one it took out.
pub trait ReplaceDefault: Sized {
    /// Whether `self` is such a placeholder.
    spec fn is_placeholder(&self) -> bool;

    fn replace_default() -> (r: Self)
        ensures
            r.is_placeholder(),
    ;
}

/// An empty piece of C# code with no syntax node: the placeholder expression.
pub open spec fn is_placeholder_expr(e: Expr) -> bool {
    &&& e is RawCodeExpr
    &&& e->RawCodeExpr_0.code@ == (CodeState { buf: Seq::empty(), indent: 0 })
    &&& !e->RawCodeExpr_0.divergent
    &&& e->RawCodeExpr_0.node_info is NoAst
}

fn placeholder_expr() -> (r: Expr)
    ensures
        is_placeholder_expr(r),
{
    Expr::RawCodeExpr(RawCodeExpr { code: Code::new(), divergent: false, node_info: NodeInfo::NoAst })
}

impl ReplaceDefault for Expr {
    open spec fn is_placeholder(&self) -> bool {
        is_placeholder_expr(*self)
    }

    fn replace_default() -> (r: Self) {
        placeholder_expr()
    }
}

impl ReplaceDefault for Pat {
    /// The placeholder pattern is `_` with no syntax node.
    open spec fn is_placeholder(&self) -> bool {
        *self == Pat::WildcardPat(WildcardPat { node_info: NodeInfo::NoAst })
    }

    fn replace_default() -> (r: Self) {
        Pat::WildcardPat(WildcardPat { node_info: NodeInfo::NoAst })
    }
}

impl ReplaceDefault for Stmt {
    /// The placeholder statement is the placeholder expression as a statement.
    open spec fn is_placeholder(&self) -> bool {
        &&& *self is ExprStmt
        &&& is_placeholder_expr(self->ExprStmt_0.expr)
        &&& self->ExprStmt_0.node_info is NoAst
    }

    fn replace_default() -> (r: Self) {
        Stmt::ExprStmt(ExprStmt { expr: placeholder_expr(), node_info: NodeInfo::NoAst })
    }
}

impl<T> ReplaceDefault for ChildrenContainer<T> {
    open spec fn is_placeholder(&self) -> bool {
        self@.len() == 0
    }

    fn replace_default() -> (r: Self) {
        ChildrenContainer::Empty
    }
}

/// Takes the node out of `value`, leaving a placeholder.
pub fn take_eir<T: ReplaceDefault>(value: &mut T) -> (r: T)
    ensures
        r == *old(value),
        final(value).is_placeholder(),
{
    let mut r = T::replace_default();
    core::mem::swap(&mut r, value);
    r
}

// ---------------------------------------------------------------------
// Block-like expressions with statements
// ---------------------------------------------------------------------

/// Whether a block holds any statement.
pub open spec fn block_has_stmts(b: BlockExpr) -> bool {
    b.statements@.len() > 0
}

/// Whether a branch of an `if`/`else if`/`else` chain holds a statement.
pub open spec fn if_chain_has_stmt(i: IfExpr) -> bool
    decreases i,
{
    block_has_stmts(i.then_branch) || match i.else_branch {
        Some(eb) => match *eb {
            ElseBranch::IfExpr(e) => if_chain_has_stmt(e),
            ElseBranch::Block(b) => block_has_stmts(b),
        },
        None => false,
    }
}

/// Whether the expression of some arm holds a statement.
pub open spec fn arms_have_stmt(arms: ChildrenContainer<MatchArm>) -> bool
    decreases arms,
{
    match arms {
        ChildrenContainer::Empty => false,
        ChildrenContainer::More(arm, rest) => has_stmt_spec(arm.expr) || arms_have_stmt(*rest),
    }
}

/// Whether `e` is a block-like expression (a block, an `if` chain or a
/// `match`) with statements inside, which C# cannot write as an expression.
pub open spec fn has_stmt_spec(e: Expr) -> bool
    decreases e,
{
    match e {
        Expr::BlockExpr(b) => block_has_stmts(b),
        Expr::IfExpr(i) => if_chain_has_stmt(i),
        Expr::MatchExpr(m) => arms_have_stmt(m.match_arm_list.arms),
        _ => false,
    }
}

fn is_block_like_expression_block(block: &BlockExpr) -> (r: bool)
    ensures
        r == block_has_stmts(*block),
{
    match &block.statements {
        ChildrenContainer::Empty => false,
        ChildrenContainer::More(_, _) => true,
    }
}

fn if_chain_has_stmt_exec(if_expr: &IfExpr) -> (r: bool)
    ensures
        r == if_chain_has_stmt(*if_expr),
{
    let mut cur = if_expr;
    loop
        invariant
            if_chain_has_stmt(*if_expr) == if_chain_has_stmt(*cur),
        decreases *cur,
    {
        if is_block_like_expression_block(&cur.then_branch) {
            return true;
        }
        match &cur.else_branch {
            Some(eb) => match &**eb {
                ElseBranch::IfExpr(else_if) => {
                    cur = else_if;
                },
                ElseBranch::Block(block) => {
                    return is_block_like_expression_block(block);
                },
            },
            None => {
                return false;
            },
        }
    }
}

fn arms_have_stmt_exec(arms: &ChildrenContainer<MatchArm>) -> (r: bool)
    ensures
        r == arms_have_stmt(*arms),
    decreases arms,
{
    match arms {
        ChildrenContainer::Empty => false,
        ChildrenContainer::More(arm, rest) => has_stmt_in_expr(&arm.expr) || arms_have_stmt_exec(rest),
    }
}

/// Whether `expr` is a block-like expression with statements inside.
pub fn has_stmt_in_expr(expr: &Expr) -> (r: bool)
    ensures
        r == has_stmt_spec(*expr),
    decreases expr,
{
    match expr {
        Expr::BlockExpr(block) => is_block_like_expression_block(block),
        Expr::IfExpr(if_expr) => if_chain_has_stmt_exec(if_expr),
        Expr::MatchExpr(match_expr) => arms_have_stmt_exec(&match_expr.match_arm_list.arms),
        _ => false,
    }
}

// ---------------------------------------------------------------------
// Patterns as assignment targets
// ---------------------------------------------------------------------

/// The assignee expressions of a list of patterns, if each has one.
pub open spec fn pats_to_assignees(pats: ChildrenContainer<Pat>) -> Option<ChildrenContainer<Expr>>
    decreases pats,
{
    match pats {
        ChildrenContainer::Empty => Some(ChildrenContainer::Empty),
        ChildrenContainer::More(p, rest) => match (pat_to_assignee_spec(*p), pats_to_assignees(*rest)) {
            (Some(e), Some(es)) => Some(ChildrenContainer::More(Box::new(e), Box::new(es))),
            _ => None,
        },
    }
}

/// The expression that assigns to what a pattern binds, where C# has one:
/// an identifier (with its syntax node) becomes the variable it binds, a
/// path stays a path, a slice pattern without a rest binding becomes an
/// array of its elements, a tuple pattern a tuple and `_` the discard `_`.
pub open spec fn pat_to_assignee_spec(pat: Pat) -> Option<Expr>
    decreases pat,
{
    match pat {
        Pat::IdentPat(ident) => match ident.node_info {
            NodeInfo::Ast(a) => Some(Expr::PathExpr(PathExpr { path: Path::IdentPat(a), node_info: NodeInfo::NoAst })),
            NodeInfo::NoAst => None,
        },
        Pat::PathPat(path) => Some(Expr::PathExpr(PathExpr { path: path.path, node_info: NodeInfo::NoAst })),
        Pat::SlicePat(slice) => if slice.components.slice.is_some() {
            None
        } else {
            match pats_to_assignees(slice.components.prefix) {
                Some(es) => Some(Expr::ArrayElementListExpr(ArrayElementListExpr { elements: es, node_info: NodeInfo::NoAst })),
                None => None,
            }
        },
        Pat::TuplePat(tuple) => match pats_to_assignees(tuple.fields) {
            Some(es) => Some(Expr::TupleExpr(TupleExpr { fields: es, node_info: NodeInfo::NoAst })),
            None => None,
        },
        Pat::WildcardPat(_) => Some(Expr::UnderscoreExpr(UnderscoreExpr { node_info: NodeInfo::NoAst })),
        _ => None,
    }
}

fn pats_to_assignees_exec(pats: &ChildrenContainer<Pat>) -> (r: Option<ChildrenContainer<Expr>>)
    ensures
        r == pats_to_assignees(*pats),
    decreases pats,
{
    match pats {
        ChildrenContainer::Empty => Some(ChildrenContainer::Empty),
        ChildrenContainer::More(p, rest) => {
            let first = pat_to_assignee_expr(p);
            match first {
                Some(e) => match pats_to_assignees_exec(rest) {
                    Some(es) => Some(ChildrenContainer::More(Box::new(e), Box::new(es))),
                    None => None,
                },
                None => None,
            }
        },
    }
}

/// The expression that assigns to what `pat` binds, if C# has one.
pub fn pat_to_assignee_expr(pat: &Pat) -> (r: Option<Expr>)
    ensures
        r == pat_to_assignee_spec(*pat),
    decreases pat,
{
    match pat {
        Pat::IdentPat(ident) => match ident.node_info {
            NodeInfo::Ast(a) => Some(Expr::PathExpr(PathExpr { path: Path::IdentPat(a), node_info: NodeInfo::NoAst })),
            NodeInfo::NoAst => None,
        },
        Pat::PathPat(path) => Some(Expr::PathExpr(PathExpr { path: clone_path(&path.path), node_info: NodeInfo::NoAst })),
        Pat::SlicePat(slice) => {
            if slice.components.slice.is_some() {
                return None;
            }
            match pats_to_assignees_exec(&slice.components.prefix) {
                Some(es) => Some(Expr::ArrayElementListExpr(ArrayElementListExpr { elements: es, node_info: NodeInfo::NoAst })),
                None => None,
            }
        },
        Pat::TuplePat(tuple) => match pats_to_assignees_exec(&tuple.fields) {
            Some(es) => Some(Expr::TupleExpr(TupleExpr { fields: es, node_info: NodeInfo::NoAst })),
            None => None,
        },
        Pat::WildcardPat(_) => Some(Expr::UnderscoreExpr(UnderscoreExpr { node_info: NodeInfo::NoAst })),
        Pat::LiteralPat(_) => None,
        Pat::OrPat(_) => None,
        Pat::RangePat(_) => None,
        Pat::RecordPat(_) => None,
        Pat::RefPat(_) => None,
        Pat::RestPat(_) => None,
        Pat::TupleStructPat(_) => None,
    }
}

// ---------------------------------------------------------------------
// Tails turned into assignments
// ---------------------------------------------------------------------

/// The statement `target = value;`, made up by a pass.
pub open spec fn assign_stmt(target: Expr, value: Expr) -> Stmt {
    Stmt::ExprStmt(ExprStmt { expr: assign_expr(target, value), node_info: NodeInfo::NoAst })
}

/// The expression `target = value`, made up by a pass.
pub open spec fn assign_expr(target: Expr, value: Expr) -> Expr {
    Expr::BinExpr(BinExpr {
        lhs: Box::new(target),
        rhs: Box::new(value),
        op_kind: BinaryOp::Assignment { op: None },
        node_info: NodeInfo::NoAst,
    })
}

/// The block with its tail expression, if any, assigned to `target` as a
/// last statement.
pub open spec fn assign_tail_block(b: BlockExpr, target: Expr) -> BlockExpr {
    match b.tail_expr {
        Some(e) => BlockExpr {
            modifier: b.modifier,
            statements: container_of(b.statements@.push(assign_stmt(target, *e))),
            tail_expr: None,
            node_info: b.node_info,
        },
        None => b,
    }
}

/// Every branch of an `if` chain with its tail assigned to `target`.
pub open spec fn assign_tail_if(i: IfExpr, target: Expr) -> IfExpr
    decreases i,
{
    IfExpr {
        condition: i.condition,
        then_branch: assign_tail_block(i.then_branch, target),
        else_branch: match i.else_branch {
            Some(eb) => Some(Box::new(match *eb {
                ElseBranch::IfExpr(e) => ElseBranch::IfExpr(assign_tail_if(e, target)),
                ElseBranch::Block(b) => ElseBranch::Block(assign_tail_block(b, target)),
            })),
            None => None,
        },
        node_info: i.node_info,
    }
}

/// Every arm's expression wrapped in an assignment to `target`.
pub open spec fn assign_arms(arms: ChildrenContainer<MatchArm>, target: Expr) -> ChildrenContainer<MatchArm>
    decreases arms,
{
    match arms {
        ChildrenContainer::Empty => ChildrenContainer::Empty,
        ChildrenContainer::More(arm, rest) => ChildrenContainer::More(
            Box::new(MatchArm {
                pat: arm.pat,
                guard: arm.guard,
                expr: assign_expr(target, arm.expr),
                node_info: arm.node_info,
            }),
            Box::new(assign_arms(*rest, target)),
        ),
    }
}

/// A block-like expression whose value is assigned to `target` wherever
/// it is produced.
pub open spec fn assign_tail(e: Expr, target: Expr) -> Expr {
    match e {
        Expr::BlockExpr(b) => Expr::BlockExpr(assign_tail_block(b, target)),
        Expr::IfExpr(i) => Expr::IfExpr(assign_tail_if(i, target)),
        Expr::MatchExpr(m) => Expr::MatchExpr(MatchExpr {
            expr: m.expr,
            match_arm_list: MatchArmList {
                arms: assign_arms(m.match_arm_list.arms, target),
                node_info: m.match_arm_list.node_info,
            },
            node_info: m.node_info,
        }),
        _ => e,
    }
}

/// Whether `e` is a block, an `if` or a `match`.
pub open spec fn is_block_like(e: Expr) -> bool {
    e is BlockExpr || e is IfExpr || e is MatchExpr
}

fn assigned_tail_block(b: BlockExpr, target: &Expr) -> (r: BlockExpr)
    ensures
        r == assign_tail_block(b, *target),
{
    let BlockExpr { modifier, statements, tail_expr, node_info } = b;
    match tail_expr {
        Some(e) => {
            let stmt = Stmt::ExprStmt(ExprStmt {
                expr: Expr::BinExpr(BinExpr {
                    lhs: Box::new(clone_expr(target)),
                    rhs: e,
                    op_kind: BinaryOp::Assignment { op: None },
                    node_info: NodeInfo::NoAst,
                }),
                node_info: NodeInfo::NoAst,
            });
            let ghost old_stmts = statements@;
            let ghost st = stmt;
            let statements = statements.pushed(stmt);
            proof {
                lemma_children_view_inverse(statements, old_stmts.push(st));
                lemma_children_view_injective(statements, container_of(old_stmts.push(st)));
            }
            BlockExpr { modifier, statements, tail_expr: None, node_info }
        },
        None => BlockExpr { modifier, statements, tail_expr: None, node_info },
    }
}

fn assigned_tail_if(i: IfExpr, target: &Expr) -> (r: IfExpr)
    ensures
        r == assign_tail_if(i, *target),
    decreases i,
{
    let IfExpr { condition, then_branch, else_branch, node_info } = i;
    let then_branch = assigned_tail_block(then_branch, target);
    let else_branch = match else_branch {
        Some(eb) => Some(Box::new(match *eb {
            ElseBranch::IfExpr(e) => ElseBranch::IfExpr(assigned_tail_if(e, target)),
            ElseBranch::Block(b) => ElseBranch::Block(assigned_tail_block(b, target)),
        })),
        None => None,
    };
    IfExpr { condition, then_branch, else_branch, node_info }
}

fn assigned_arms(arms: ChildrenContainer<MatchArm>, target: &Expr) -> (r: ChildrenContainer<MatchArm>)
    ensures
        r == assign_arms(arms, *target),
    decreases arms,
{
    match arms {
        ChildrenContainer::Empty => ChildrenContainer::Empty,
        ChildrenContainer::More(arm, rest) => {
            let MatchArm { pat, guard, expr, node_info } = *arm;
            let expr = Expr::BinExpr(BinExpr {
                lhs: Box::new(clone_expr(target)),
                rhs: Box::new(expr),
                op_kind: BinaryOp::Assignment { op: None },
                node_info: NodeInfo::NoAst,
            });
            ChildrenContainer::More(
                Box::new(MatchArm { pat, guard, expr, node_info }),
                Box::new(assigned_arms(*rest, target)),
            )
        },
    }
}

pub(crate) fn assigned_tail(e: Expr, target: &Expr) -> (r: Expr)
    requires
        is_block_like(e),
    ensures
        r == assign_tail(e, *target),
{
    match e {
        Expr::BlockExpr(b) => Expr::BlockExpr(assigned_tail_block(b, target)),
        Expr::IfExpr(i) => Expr::IfExpr(assigned_tail_if(i, target)),
        Expr::MatchExpr(m) => {
            let MatchExpr { expr, match_arm_list, node_info } = m;
            let MatchArmList { arms, node_info: list_info } = match_arm_list;
            Expr::MatchExpr(MatchExpr {
                expr,
                match_arm_list: MatchArmList { arms: assigned_arms(arms, target), node_info: list_info },
                node_info,
            })
        },
        _ => e,
    }
}

/// Moves the block's tail expression, if any, into a last statement that
/// assigns it to `target`.
pub fn tail_expr_to_assignment_for_block(block: &mut BlockExpr, target: &Expr)
    ensures
        *final(block) == assign_tail_block(*old(block), *target),
{
    let mut b = BlockExpr {
        modifier: None,
        statements: ChildrenContainer::Empty,
        tail_expr: None,
        node_info: NodeInfo::NoAst,
    };
    core::mem::swap(&mut b, block);
    *block = assigned_tail_block(b, target);
}

/// Makes a block-like expression assign its value to `target` wherever the
/// value is produced: at the tail of a block or of each branch of an `if`
/// chain, or around the expression of each `match` arm.
pub fn tail_expr_to_assignment(expr: &mut Expr, target: &Expr)
    requires
        is_block_like(*old(expr)),
    ensures
        *final(expr) == assign_tail(*old(expr), *target),
{
    let e = take_eir(expr);
    *expr = assigned_tail(e, target);
}

/// A block-like expression with statements is a block, an `if` or a `match`.
pub proof fn lemma_has_stmt_block_like(e: Expr)
    requires
        has_stmt_spec(e),
    ensures
        is_block_like(e),
{
}

/// The container holding `a` and then `b`.
pub open spec fn pair_container<T>(a: T, b: T) -> ChildrenContainer<T> {
    ChildrenContainer::More(Box::new(a), Box::new(ChildrenContainer::More(Box::new(b), Box::new(ChildrenContainer::Empty))))
}

// ---------------------------------------------------------------------
// Let statements with block-like initializers
// ---------------------------------------------------------------------

/// Whether the statement is `let pat = init;`, without `else`, with an
/// initializer that is block-like with statements and a pattern that C#
/// can assign to.
pub open spec fn expandable_let(s: Stmt) -> bool {
    &&& s is LetStmt
    &&& s->LetStmt_0.let_else.is_none()
    &&& s->LetStmt_0.initializer.is_some()
    &&& has_stmt_spec(s->LetStmt_0.initializer.unwrap())
    &&& pat_to_assignee_spec(s->LetStmt_0.pat).is_some()
}

/// `let pat = init;` becomes `let pat; init'` in one group of statements
/// with no scope of its own, where `init'` assigns its value to what the
/// pattern binds. Any other statement stays as it is.
pub open spec fn expand_let_spec(s: Stmt) -> Stmt {
    if expandable_let(s) {
        let ls = s->LetStmt_0;
        let place = pat_to_assignee_spec(ls.pat).unwrap();
        Stmt::ExprStmt(ExprStmt {
            expr: Expr::MacroStmts(MacroStmts {
                statements: pair_container(
                    Stmt::LetStmt(LetStmt {
                        pat: ls.pat,
                        initializer: None,
                        let_else: ls.let_else,
                        node_info: ls.node_info,
                    }),
                    Stmt::ExprStmt(ExprStmt {
                        expr: assign_tail(ls.initializer.unwrap(), place),
                        node_info: NodeInfo::NoAst,
                    }),
                ),
                tail_expr: None,
                node_info: NodeInfo::NoAst,
            }),
            node_info: NodeInfo::NoAst,
        })
    } else {
        s
    }
}

/// The rewrite of `ExpandBlockExpr` at one statement.
pub fn expand_let(s: Stmt) -> (r: Stmt)
    ensures
        r == expand_let_spec(s),
{
    match s {
        Stmt::LetStmt(ls) => {
            let LetStmt { pat, initializer, let_else, node_info } = ls;
            if let_else.is_none() && initializer.is_some() {
                let init = initializer.unwrap();
                if has_stmt_in_expr(&init) {
                    match pat_to_assignee_expr(&pat) {
                        Some(place) => {
                            let assigned = assigned_tail(init, &place);
                            return Stmt::ExprStmt(ExprStmt {
                                expr: Expr::MacroStmts(MacroStmts {
                                    statements: ChildrenContainer::More(
                                        Box::new(Stmt::LetStmt(LetStmt { pat, initializer: None, let_else, node_info })),
                                        Box::new(ChildrenContainer::More(
                                            Box::new(Stmt::ExprStmt(ExprStmt { expr: assigned, node_info: NodeInfo::NoAst })),
                                            Box::new(ChildrenContainer::Empty),
                                        )),
                                    ),
                                    tail_expr: None,
                                    node_info: NodeInfo::NoAst,
                                }),
                                node_info: NodeInfo::NoAst,
                            });
                        },
                        None => {
                            return Stmt::LetStmt(LetStmt { pat, initializer: Some(init), let_else, node_info });
                        },
                    }
                }
                Stmt::LetStmt(LetStmt { pat, initializer: Some(init), let_else, node_info })
            } else {
                Stmt::LetStmt(LetStmt { pat, initializer, let_else, node_info })
            }
        },
        _ => s,
    }
}

// ---------------------------------------------------------------------
// Implicit returns
// ---------------------------------------------------------------------

/// `return value` (or `return` for `None`), made up by a pass.
pub open spec fn return_expr(value: Option<Box<Expr>>) -> Expr {
    Expr::ReturnExpr(ReturnExpr { expr: value, node_info: NodeInfo::NoAst })
}

/// Whether a block returns its value itself: blocks with no modifier and
/// `const`, `unsafe` and labelled blocks; not `async` or generator blocks.
pub open spec fn block_returns_itself(b: BlockExpr) -> bool {
    match b.modifier {
        None => true,
        Some(m) => match m {
            BlockModifier::Const | BlockModifier::Unsafe | BlockModifier::Label(_) => true,
            _ => false,
        },
    }
}

/// The statement that makes a returning position return `tail`: the tail
/// itself when it already returns on every path, `return tail;` when it is
/// a plain value, and `return;` when there is no tail.
pub open spec fn returning_stmt(tail: Option<Box<Expr>>) -> Stmt
    decreases tail, 0nat,
{
    match tail {
        Some(t) => {
            let (x, emitted) = returns_in_expr(*t);
            Stmt::ExprStmt(ExprStmt {
                expr: if emitted { x } else { return_expr(Some(Box::new(x))) },
                node_info: NodeInfo::NoAst,
            })
        },
        None => Stmt::ExprStmt(ExprStmt { expr: return_expr(None), node_info: NodeInfo::NoAst }),
    }
}

/// The statements of a block whose value is returned, with the returning
/// statement for its tail added last.
pub open spec fn returning_block_like(stmts: ChildrenContainer<Stmt>, tail: Option<Box<Expr>>) -> ChildrenContainer<Stmt>
    decreases tail, 1nat,
{
    container_of(stmts@.push(returning_stmt(tail)))
}

/// A block in returning position: rewritten when it returns its value
/// itself, with whether it was.
pub open spec fn returns_in_block(b: BlockExpr) -> (BlockExpr, bool)
    decreases b, 0nat,
{
    if block_returns_itself(b) {
        (BlockExpr {
            modifier: b.modifier,
            statements: returning_block_like(b.statements, b.tail_expr),
            tail_expr: None,
            node_info: b.node_info,
        }, true)
    } else {
        (b, false)
    }
}

/// An `if` chain in returning position: each branch returns its value.
pub open spec fn returns_in_if(i: IfExpr) -> IfExpr
    decreases i, 0nat,
{
    IfExpr {
        condition: i.condition,
        then_branch: returns_in_block(i.then_branch).0,
        else_branch: match i.else_branch {
            Some(eb) => Some(Box::new(match *eb {
                ElseBranch::IfExpr(e) => ElseBranch::IfExpr(returns_in_if(e)),
                ElseBranch::Block(b) => ElseBranch::Block(returns_in_block(b).0),
            })),
            None => None,
        },
        node_info: i.node_info,
    }
}

/// The arms of a `match` in returning position: each arm's expression
/// returns its value, wrapped in `return` where it did not already.
pub open spec fn returns_in_arms(arms: ChildrenContainer<MatchArm>) -> ChildrenContainer<MatchArm>
    decreases arms, 0nat,
{
    match arms {
        ChildrenContainer::Empty => ChildrenContainer::Empty,
        ChildrenContainer::More(arm, rest) => {
            let (x, emitted) = returns_in_expr(arm.expr);
            ChildrenContainer::More(
                Box::new(MatchArm {
                    pat: arm.pat,
                    guard: arm.guard,
                    expr: if emitted { x } else { return_expr(Some(Box::new(x))) },
                    node_info: arm.node_info,
                }),
                Box::new(returns_in_arms(*rest)),
            )
        },
    }
}

/// An expression in returning position, rewritten so that it returns its
/// value, with whether it now returns on every path (`true`) or is a plain
/// value that the caller must return (`false`, and unchanged).
pub open spec fn returns_in_expr(e: Expr) -> (Expr, bool)
    decreases e, 0nat,
{
    match e {
        Expr::RawCodeExpr(raw) => (e, raw.divergent),
        Expr::BlockExpr(b) => {
            let (b2, emitted) = returns_in_block(b);
            (Expr::BlockExpr(b2), emitted)
        },
        Expr::MacroStmts(m) => (Expr::MacroStmts(MacroStmts {
            statements: returning_block_like(m.statements, m.tail_expr),
            tail_expr: None,
            node_info: m.node_info,
        }), true),
        Expr::ForExpr(_) => (e, true),
        Expr::WhileExpr(_) => (e, true),
        Expr::LoopExpr(_) => (e, true),
        Expr::IfExpr(i) => (Expr::IfExpr(returns_in_if(i)), true),
        Expr::MatchExpr(m) => (Expr::MatchExpr(MatchExpr {
            expr: m.expr,
            match_arm_list: MatchArmList {
                arms: returns_in_arms(m.match_arm_list.arms),
                node_info: m.match_arm_list.node_info,
            },
            node_info: m.node_info,
        }), true),
        Expr::ReturnExpr(_) => (e, true),
        _ => (e, false),
    }
}

/// The pass that makes an expression in returning position return its value.
pub struct ImplicitReturnsImpl;

/// The flow a visit of `ImplicitReturnsImpl` reports: `Break(true)` when
/// the expression now returns on every path.
pub open spec fn emitted_flow(emitted: bool) -> ControlFlow<bool> {
    if emitted {
        ControlFlow::Break(true)
    } else {
        ControlFlow::Continue(())
    }
}

fn returning_stmt_exec(tail: Option<Box<Expr>>) -> (r: Stmt)
    ensures
        r == returning_stmt(tail),
    decreases tail, 0nat,
{
    match tail {
        Some(t) => {
            let (x, emitted) = returns_in_expr_exec(*t);
            let expr = if emitted {
                x
            } else {
                Expr::ReturnExpr(ReturnExpr { expr: Some(Box::new(x)), node_info: NodeInfo::NoAst })
            };
            Stmt::ExprStmt(ExprStmt { expr, node_info: NodeInfo::NoAst })
        },
        None => Stmt::ExprStmt(ExprStmt {
            expr: Expr::ReturnExpr(ReturnExpr { expr: None, node_info: NodeInfo::NoAst }),
            node_info: NodeInfo::NoAst,
        }),
    }
}

pub(crate) fn returning_block_like_exec(stmts: ChildrenContainer<Stmt>, tail: Option<Box<Expr>>) -> (r: ChildrenContainer<Stmt>)
    ensures
        r == returning_block_like(stmts, tail),
    decreases tail, 1nat,
{
    let ghost old_stmts = stmts@;
    let last = returning_stmt_exec(tail);
    let ghost l = last;
    let r = stmts.pushed(last);
    proof {
        lemma_children_view_inverse(r, old_stmts.push(l));
        lemma_children_view_injective(r, container_of(old_stmts.push(l)));
    }
    r
}

pub(crate) fn returns_in_block_exec(b: BlockExpr) -> (r: (BlockExpr, bool))
    ensures
        r == returns_in_block(b),
    decreases b, 0nat,
{
    let returns_itself = match b.modifier {
        None => true,
        Some(BlockModifier::Const) => true,
        Some(BlockModifier::Unsafe) => true,
        Some(BlockModifier::Label(_)) => true,
        Some(_) => false,
    };
    if returns_itself {
        let BlockExpr { modifier, statements, tail_expr, node_info } = b;
        let statements = returning_block_like_exec(statements, tail_expr);
        (BlockExpr { modifier, statements, tail_expr: None, node_info }, true)
    } else {
        (b, false)
    }
}

fn returns_in_if_exec(i: IfExpr) -> (r: IfExpr)
    ensures
        r == returns_in_if(i),
    decreases i, 0nat,
{
    let IfExpr { condition, then_branch, else_branch, node_info } = i;
    let then_branch = returns_in_block_exec(then_branch).0;
    let else_branch = match else_branch {
        Some(eb) => Some(Box::new(match *eb {
            ElseBranch::IfExpr(e) => ElseBranch::IfExpr(returns_in_if_exec(e)),
            ElseBranch::Block(b) => ElseBranch::Block(returns_in_block_exec(b).0),
        })),
        None => None,
    };
    IfExpr { condition, then_branch, else_branch, node_info }
}

fn returns_in_arms_exec(arms: ChildrenContainer<MatchArm>) -> (r: ChildrenContainer<MatchArm>)
    ensures
        r == returns_in_arms(arms),
    decreases arms, 0nat,
{
    match arms {
        ChildrenContainer::Empty => ChildrenContainer::Empty,
        ChildrenContainer::More(arm, rest) => {
            let MatchArm { pat, guard, expr, node_info } = *arm;
            let (x, emitted) = returns_in_expr_exec(expr);
            let expr = if emitted {
                x
            } else {
                Expr::ReturnExpr(ReturnExpr { expr: Some(Box::new(x)), node_info: NodeInfo::NoAst })
            };
            ChildrenContainer::More(
                Box::new(MatchArm { pat, guard, expr, node_info }),
                Box::new(returns_in_arms_exec(*rest)),
            )
        },
    }
}

pub(crate) fn returns_in_expr_exec(e: Expr) -> (r: (Expr, bool))
    ensures
        r == returns_in_expr(e),
    decreases e, 0nat,
{
    match e {
        Expr::RawCodeExpr(raw) => {
            let d = raw.divergent;
            (Expr::RawCodeExpr(raw), d)
        },
        Expr::BlockExpr(b) => {
            let (b2, emitted) = returns_in_block_exec(b);
            (Expr::BlockExpr(b2), emitted)
        },
        Expr::MacroStmts(m) => {
            let MacroStmts { statements, tail_expr, node_info } = m;
            let statements = returning_block_like_exec(statements, tail_expr);
            (Expr::MacroStmts(MacroStmts { statements, tail_expr: None, node_info }), true)
        },
        Expr::ForExpr(_) => (e, true),
        Expr::WhileExpr(_) => (e, true),
        Expr::LoopExpr(_) => (e, true),
        Expr::IfExpr(i) => (Expr::IfExpr(returns_in_if_exec(i)), true),
        Expr::MatchExpr(m) => {
            let MatchExpr { expr, match_arm_list, node_info } = m;
            let MatchArmList { arms, node_info: list_info } = match_arm_list;
            (Expr::MatchExpr(MatchExpr {
                expr,
                match_arm_list: MatchArmList { arms: returns_in_arms_exec(arms), node_info: list_info },
                node_info,
            }), true)
        },
        Expr::ReturnExpr(_) => (e, true),
        _ => (e, false),
    }
}

impl ImplicitReturnsImpl {
    /// Makes `expr`, in returning position, return its value; reports
    /// `Break(true)` when it now returns on every path.
    pub fn visit_expr(&mut self, expr: &mut Expr) -> (r: ControlFlow<bool>)
        ensures
            *final(expr) == returns_in_expr(*old(expr)).0,
            r == emitted_flow(returns_in_expr(*old(expr)).1),
    {
        let e = take_eir(expr);
        let (x, emitted) = returns_in_expr_exec(e);
        *expr = x;
        if emitted {
            ControlFlow::Break(true)
        } else {
            ControlFlow::Continue(())
        }
    }

    /// Makes a block in returning position return its value, if the block
    /// returns its value itself.
    pub fn visit_block_expr(&mut self, block: &mut BlockExpr) -> (r: ControlFlow<bool>)
        ensures
            *final(block) == returns_in_block(*old(block)).0,
            r == emitted_flow(returns_in_block(*old(block)).1),
    {
        let mut b = BlockExpr {
            modifier: None,
            statements: ChildrenContainer::Empty,
            tail_expr: None,
            node_info: NodeInfo::NoAst,
        };
        core::mem::swap(&mut b, block);
        let (b2, emitted) = returns_in_block_exec(b);
        *block = b2;
        if emitted {
            ControlFlow::Break(true)
        } else {
            ControlFlow::Continue(())
        }
    }

    /// Makes every branch of an `if` chain in returning position return its value.
    pub fn visit_if_expr(&mut self, if_expr: &mut IfExpr) -> (r: ControlFlow<bool>)
        ensures
            *final(if_expr) == returns_in_if(*old(if_expr)),
            r == ControlFlow::<bool>::Break(true),
    {
        let mut i = IfExpr {
            condition: Box::new(placeholder_expr()),
            then_branch: BlockExpr {
                modifier: None,
                statements: ChildrenContainer::Empty,
                tail_expr: None,
                node_info: NodeInfo::NoAst,
            },
            else_branch: None,
            node_info: NodeInfo::NoAst,
        };
        core::mem::swap(&mut i, if_expr);
        *if_expr = returns_in_if_exec(i);
        ControlFlow::Break(true)
    }
}

/// Ends a block-like body in returning position with the statement that
/// returns its tail, which is taken out: the statements gain exactly one
/// last statement.
pub fn visit_block_like(statements: &mut ChildrenContainer<Stmt>, tail_expr: &mut Option<Box<Expr>>)
    ensures
        *final(statements) == returning_block_like(*old(statements), *old(tail_expr)),
        final(tail_expr).is_none(),
{
    let mut stmts = ChildrenContainer::Empty;
    core::mem::swap(&mut stmts, statements);
    let mut tail = None;
    core::mem::swap(&mut tail, tail_expr);
    *statements = returning_block_like_exec(stmts, tail);
}

/// After `visit_block_like`, the statements are the old ones followed by
/// one statement: `return;` where there was no tail, `return tail;` where
/// the tail was a plain value, and the rewritten tail where it already
/// returned on every path.
pub proof fn lemma_returning_block_like(stmts: ChildrenContainer<Stmt>, tail: Option<Box<Expr>>)
    ensures
        returning_block_like(stmts, tail)@.len() == stmts@.len() + 1,
        returning_block_like(stmts, tail)@.take(stmts@.len() as int) == stmts@,
        returning_block_like(stmts, tail)@.last() is ExprStmt,
        tail.is_none() ==> returning_block_like(stmts, tail)@.last()->ExprStmt_0.expr == return_expr(None),
        tail.is_some() && !returns_in_expr(*tail.unwrap()).1 ==> returning_block_like(stmts, tail)@.last()->ExprStmt_0.expr
            == return_expr(Some(Box::new(*tail.unwrap()))),
{
    let s = stmts@.push(returning_stmt(tail));
    lemma_children_view_inverse(stmts, s);
    assert(s.take(stmts@.len() as int) =~= stmts@);
    if let Some(t) = tail {
        lemma_plain_value_unchanged(*t);
    }
}

/// Whether `nb` is block `b` made to return its value: it has no tail, and
/// its statements are those of `b` followed by one that returns: `return;`
/// where `b` had no tail, `return tail;` where the tail was a plain value,
/// and the tail made to return where it already returned on every path.
pub open spec fn returns_value_of(b: BlockExpr, nb: BlockExpr) -> bool {
    &&& nb.tail_expr is None
    &&& nb.statements@.len() == b.statements@.len() + 1
    &&& nb.statements@.take(b.statements@.len() as int) == b.statements@
    &&& nb.statements@.last() is ExprStmt
    &&& b.tail_expr is None ==> nb.statements@.last()->ExprStmt_0.expr == return_expr(None)
    &&& b.tail_expr matches Some(t) ==> nb.statements@.last()->ExprStmt_0.expr == (if returns_in_expr(*t).1 {
        returns_in_expr(*t).0
    } else {
        return_expr(Some(t))
    })
}

/// A block that returns its value itself ends, in returning position, by
/// returning its value; any other block is left as it is.
pub proof fn lemma_returning_block_returns(b: BlockExpr)
    ensures
        block_returns_itself(b) ==> returns_in_block(b).1 && returns_value_of(b, returns_in_block(b).0),
        !block_returns_itself(b) ==> returns_in_block(b) == (b, false),
{
    if block_returns_itself(b) {
        lemma_returning_block_like(b.statements, b.tail_expr);
        let s = b.statements@.push(returning_stmt(b.tail_expr));
        lemma_children_view_inverse(b.statements, s);
        assert(returns_in_block(b).0.statements@ == s);
    }
}

/// Whether the `if` chain `r` is `i` with every branch made to return its
/// value: the same condition; the then block and a final else block
/// returning their value where they return it themselves, left as they are
/// otherwise; an `else if` made so in turn.
pub open spec fn branches_return(i: IfExpr, r: IfExpr) -> bool
    decreases i,
{
    &&& r.condition == i.condition
    &&& block_returns_itself(i.then_branch) ==> returns_value_of(i.then_branch, r.then_branch)
    &&& !block_returns_itself(i.then_branch) ==> r.then_branch == i.then_branch
    &&& match i.else_branch {
        None => r.else_branch is None,
        Some(eb) => match r.else_branch {
            None => false,
            Some(rb) => match (*eb, *rb) {
                (ElseBranch::Block(b), ElseBranch::Block(b2)) => {
                    &&& block_returns_itself(b) ==> returns_value_of(b, b2)
                    &&& !block_returns_itself(b) ==> b2 == b
                },
                (ElseBranch::IfExpr(e), ElseBranch::IfExpr(e2)) => branches_return(e, e2),
                _ => false,
            },
        },
    }
}

/// In returning position an `if` returns on every path: each branch of the
/// chain returns its value.
pub proof fn lemma_if_branches_return(i: IfExpr)
    ensures
        returns_in_expr(Expr::IfExpr(i)).1,
        returns_in_expr(Expr::IfExpr(i)).0 == Expr::IfExpr(returns_in_if(i)),
        branches_return(i, returns_in_if(i)),
    decreases i,
{
    lemma_returning_block_returns(i.then_branch);
    match i.else_branch {
        None => {},
        Some(eb) => match *eb {
            ElseBranch::Block(b) => {
                lemma_returning_block_returns(b);
            },
            ElseBranch::IfExpr(e) => {
                lemma_if_branches_return(e);
            },
        },
    }
}

/// An expression that does not return on every path is left as it was.
pub proof fn lemma_plain_value_unchanged(e: Expr)
    ensures
        !returns_in_expr(e).1 ==> returns_in_expr(e).0 == e,
{
}

/// The pass that makes every function body and every returning position
/// return its value explicitly. It knows which expressions of the source
/// have the unit type, by the identity of their syntax nodes.
pub struct ImplicitReturns {
    pub unit_valued: Vec<u64>,
}

impl ImplicitReturns {
    /// Whether `e` is an expression of the source whose type is `()`.
    pub open spec fn is_unit_valued(&self, e: Expr) -> bool {
        match expr_info(e) {
            NodeInfo::Ast(a) => self.unit_valued@.contains(a.id),
            NodeInfo::NoAst => false,
        }
    }

    fn is_unit_valued_exec(&self, e: &Expr) -> (r: bool)
        ensures
            r == self.is_unit_valued(*e),
    {
        match e.node_info() {
            NodeInfo::Ast(a) => {
                let mut i: usize = 0;
                while i < self.unit_valued.len()
                    invariant
                        i <= self.unit_valued@.len(),
                        expr_info(*e) == NodeInfo::Ast(a),
                        forall|j: int| 0 <= j < i ==> self.unit_valued@[j] != a.id,
                    decreases self.unit_valued@.len() - i,
                {
                    if self.unit_valued[i] == a.id {
                        assert(self.unit_valued@[i as int] == a.id);
                        return true;
                    }
                    i = i + 1;
                }
                false
            },
            NodeInfo::NoAst => false,
        }
    }

    /// `return value;` with a unit-typed value becomes `value; return;`,
    /// since C# cannot return a value of type `void`.
    pub open spec fn split_unit_return(&self, s: Stmt) -> Seq<Stmt> {
        if s is ExprStmt && s->ExprStmt_0.expr is ReturnExpr
            && s->ExprStmt_0.expr->ReturnExpr_0.expr.is_some()
            && self.is_unit_valued(*s->ExprStmt_0.expr->ReturnExpr_0.expr.unwrap())
        {
            let es = s->ExprStmt_0;
            let ret = es.expr->ReturnExpr_0;
            seq![
                Stmt::ExprStmt(ExprStmt { expr: *ret.expr.unwrap(), node_info: NodeInfo::NoAst }),
                Stmt::ExprStmt(ExprStmt {
                    expr: Expr::ReturnExpr(ReturnExpr { expr: None, node_info: ret.node_info }),
                    node_info: es.node_info,
                }),
            ]
        } else {
            seq![s]
        }
    }

    /// The statements with every unit-typed `return value;` split in two.
    pub open spec fn split_unit_returns(&self, stmts: ChildrenContainer<Stmt>) -> Seq<Stmt>
        decreases stmts,
    {
        match stmts {
            ChildrenContainer::Empty => Seq::empty(),
            ChildrenContainer::More(s, rest) => self.split_unit_return(*s) + self.split_unit_returns(*rest),
        }
    }

    pub(crate) fn split_unit_returns_exec(&self, stmts: ChildrenContainer<Stmt>) -> (r: ChildrenContainer<Stmt>)
        ensures
            r@ == self.split_unit_returns(stmts),
        decreases stmts,
    {
        match stmts {
            ChildrenContainer::Empty => ChildrenContainer::Empty,
            ChildrenContainer::More(s, rest) => {
                let rest = self.split_unit_returns_exec(*rest);
                let ghost rs = rest@;
                match *s {
                    Stmt::ExprStmt(es) => {
                        let ExprStmt { expr, node_info } = es;
                        match expr {
                            Expr::ReturnExpr(ret) => {
                                let ReturnExpr { expr: value, node_info: ret_info } = ret;
                                match value {
                                    Some(v) => {
                                        if self.is_unit_valued_exec(&v) {
                                            let inner = ChildrenContainer::More(
                                                Box::new(Stmt::ExprStmt(ExprStmt {
                                                    expr: Expr::ReturnExpr(ReturnExpr { expr: None, node_info: ret_info }),
                                                    node_info,
                                                })),
                                                Box::new(rest),
                                            );
                                            let ghost inner_v = inner@;
                                            let r = ChildrenContainer::More(
                                                Box::new(Stmt::ExprStmt(ExprStmt { expr: *v, node_info: NodeInfo::NoAst })),
                                                Box::new(inner),
                                            );
                                            assert(r@ =~= self.split_unit_returns(stmts)) by {
                                                assert(r@ == seq![Stmt::ExprStmt(ExprStmt { expr: *v, node_info: NodeInfo::NoAst })] + inner_v);
                                            }
                                            r
                                        } else {
                                            let r = ChildrenContainer::More(
                                                Box::new(Stmt::ExprStmt(ExprStmt {
                                                    expr: Expr::ReturnExpr(ReturnExpr { expr: Some(v), node_info: ret_info }),
                                                    node_info,
                                                })),
                                                Box::new(rest),
                                            );
                                            assert(r@ =~= self.split_unit_returns(stmts));
                                            r
                                        }
                                    },
                                    None => {
                                        let r = ChildrenContainer::More(
                                            Box::new(Stmt::ExprStmt(ExprStmt {
                                                expr: Expr::ReturnExpr(ReturnExpr { expr: None, node_info: ret_info }),
                                                node_info,
                                            })),
                                            Box::new(rest),
                                        );
                                        assert(r@ =~= self.split_unit_returns(stmts));
                                        r
                                    },
                                }
                            },
                            _ => {
                                let r = ChildrenContainer::More(
                                    Box::new(Stmt::ExprStmt(ExprStmt { expr, node_info })),
                                    Box::new(rest),
                                );
                                assert(r@ =~= self.split_unit_returns(stmts));
                                r
                            },
                        }
                    },
                    other => {
                        let r = ChildrenContainer::More(Box::new(other), Box::new(rest));
                        assert(r@ =~= self.split_unit_returns(stmts));
                        r
                    },
                }
            },
        }
    }

    /// Splits every unit-typed `return value;` in `statements` into
    /// `value; return;`.
    pub fn visit_statements(&self, statements: &mut ChildrenContainer<Stmt>)
        ensures
            final(statements)@ == self.split_unit_returns(*old(statements)),
    {
        let mut stmts = ChildrenContainer::Empty;
        core::mem::swap(&mut stmts, statements);
        *statements = self.split_unit_returns_exec(stmts);
    }
}

/// `return value;` where `value` returns on every path once made to
/// return its own value becomes that rewritten value; any other statement
/// stays as it is.
pub open spec fn return_stmt_spec(s: Stmt) -> Stmt {
    if s is ExprStmt && s->ExprStmt_0.expr is ReturnExpr && s->ExprStmt_0.expr->ReturnExpr_0.expr.is_some() {
        let es = s->ExprStmt_0;
        let value = *es.expr->ReturnExpr_0.expr.unwrap();
        if returns_in_expr(value).1 {
            Stmt::ExprStmt(ExprStmt { expr: returns_in_expr(value).0, node_info: es.node_info })
        } else {
            s
        }
    } else {
        s
    }
}

/// The rewrite of `ImplicitReturns` at one statement.
pub fn rewrite_return_stmt(s: Stmt) -> (r: Stmt)
    ensures
        r == return_stmt_spec(s),
{
    match s {
        Stmt::ExprStmt(es) => {
            let ExprStmt { expr, node_info } = es;
            match expr {
                Expr::ReturnExpr(ret) => {
                    let ReturnExpr { expr: value, node_info: ret_info } = ret;
                    match value {
                        Some(v) => {
                            proof { lemma_plain_value_unchanged(*v); }
                            let (x, emitted) = returns_in_expr_exec(*v);
                            if emitted {
                                Stmt::ExprStmt(ExprStmt { expr: x, node_info })
                            } else {
                                Stmt::ExprStmt(ExprStmt {
                                    expr: Expr::ReturnExpr(ReturnExpr { expr: Some(Box::new(x)), node_info: ret_info }),
                                    node_info,
                                })
                            }
                        },
                        None => Stmt::ExprStmt(ExprStmt {
                            expr: Expr::ReturnExpr(ReturnExpr { expr: None, node_info: ret_info }),
                            node_info,
                        }),
                    }
                },
                _ => Stmt::ExprStmt(ExprStmt { expr, node_info }),
            }
        },
        _ => s,
    }
}

} // verus!
