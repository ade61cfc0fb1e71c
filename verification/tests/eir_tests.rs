use rust_to_cs_compiler::eir::{
    ArgList, AstRef, BinExpr, BinaryOp, BlockExpr, BlockModifier, ChildrenContainer, ElseBranch,
    Expr, ExprStmt, IdentPat, IfExpr, LetStmt, Literal, LiteralKind, LoopExpr, MatchArm,
    MatchArmList, MatchExpr, NodeInfo, OrPat, Pat, Path, PathExpr, RawCodeExpr, RestPat,
    ReturnExpr, SlicePat, SlicePatComponents, Stmt, TuplePat, TupleStructPat, WildcardPat,
};
use rust_to_cs_compiler::or_patterns::{expand_or_pattern, MatchOrPatternDefinitions};
use rust_to_cs_compiler::output::Code;
use rust_to_cs_compiler::passes::ExpandBlockExpr;
use rust_to_cs_compiler::eir::Function;
use rust_to_cs_compiler::transformer::{
    expand_let, has_stmt_in_expr, pat_to_assignee_expr, rewrite_return_stmt, tail_expr_to_assignment,
    tail_expr_to_assignment_for_block, take_eir, visit_block_like, ImplicitReturns,
    ImplicitReturnsImpl,
};
use std::ops::ControlFlow;

fn ast(id: u64) -> NodeInfo<AstRef> {
    NodeInfo::Ast(AstRef { id })
}

fn lit(id: u64) -> Expr {
    Expr::Literal(Literal { kind: LiteralKind::IntNumber(AstRef { id }), node_info: ast(id) })
}

fn lit_id(e: &Expr) -> Option<u64> {
    match e {
        Expr::Literal(Literal { kind: LiteralKind::IntNumber(a), .. }) => Some(a.id),
        _ => None,
    }
}

fn path(id: u64) -> Expr {
    Expr::PathExpr(PathExpr { path: Path::Ast(AstRef { id }), node_info: ast(id) })
}

fn expr_stmt(e: Expr) -> Stmt {
    Stmt::ExprStmt(ExprStmt { expr: e, node_info: NodeInfo::NoAst })
}

fn block(stmts: Vec<Stmt>, tail: Option<Expr>) -> BlockExpr {
    BlockExpr {
        modifier: None,
        statements: ChildrenContainer::from_vec(stmts),
        tail_expr: tail.map(Box::new),
        node_info: NodeInfo::NoAst,
    }
}

fn ident_pat(id: u64, binds_local: bool) -> Pat {
    Pat::IdentPat(IdentPat { name: AstRef { id }, pat: None, binds_local, node_info: ast(id) })
}

fn or_pat(pats: Vec<Pat>) -> Pat {
    Pat::OrPat(OrPat { pats: ChildrenContainer::from_vec(pats), node_info: NodeInfo::NoAst })
}

fn tuple_struct(id: u64, fields: Vec<Pat>) -> Pat {
    Pat::TupleStructPat(TupleStructPat {
        path: Path::Ast(AstRef { id }),
        fields: ChildrenContainer::from_vec(fields),
        node_info: ast(id),
    })
}

fn raw(text: &str, divergent: bool) -> Expr {
    Expr::RawCodeExpr(RawCodeExpr { code: Code::from(text), divergent, node_info: NodeInfo::NoAst })
}

fn is_assignment(e: &Expr) -> Option<(&Expr, &Expr)> {
    match e {
        Expr::BinExpr(BinExpr { lhs, rhs, op_kind: BinaryOp::Assignment { op: None }, .. }) => Some((lhs, rhs)),
        _ => None,
    }
}

#[test]
fn children_container_round_trip() {
    let c = ChildrenContainer::from_vec(vec![1u32, 2, 3]);
    assert_eq!(c.len(), 3);
    assert_eq!(c.get(1), Some(&2));
    assert_eq!(c.get(3), None);
    let mut cursor = c.iterator();
    assert_eq!(cursor.next(), Some(&1));
    assert_eq!(cursor.next(), Some(&2));
    assert_eq!(cursor.next(), Some(&3));
    assert_eq!(cursor.next(), None);
    let mut c = c;
    c.push(4);
    assert_eq!(c.into_iter(), vec![1, 2, 3, 4]);
}

#[test]
fn take_eir_leaves_placeholder() {
    let mut p = ident_pat(1, true);
    let taken = take_eir(&mut p);
    assert!(matches!(taken, Pat::IdentPat(_)));
    assert!(matches!(p, Pat::WildcardPat(WildcardPat { node_info: NodeInfo::NoAst })));
}

#[test]
fn block_with_statements_needs_expansion() {
    let plain = Expr::BlockExpr(block(vec![], Some(lit(1))));
    assert!(!has_stmt_in_expr(&plain));
    let with_stmt = Expr::BlockExpr(block(vec![expr_stmt(lit(2))], Some(lit(1))));
    assert!(has_stmt_in_expr(&with_stmt));
    assert!(!has_stmt_in_expr(&lit(3)));
}

#[test]
fn if_chain_with_statement_in_else_needs_expansion() {
    let else_block = block(vec![expr_stmt(lit(5))], Some(lit(6)));
    let if_expr = Expr::IfExpr(IfExpr {
        condition: Box::new(lit(1)),
        then_branch: block(vec![], Some(lit(2))),
        else_branch: Some(Box::new(ElseBranch::Block(else_block))),
        node_info: NodeInfo::NoAst,
    });
    assert!(has_stmt_in_expr(&if_expr));
}

#[test]
fn patterns_as_assignees() {
    let ident = ident_pat(7, true);
    match pat_to_assignee_expr(&ident) {
        Some(Expr::PathExpr(PathExpr { path: Path::IdentPat(a), node_info: NodeInfo::NoAst })) => assert_eq!(a.id, 7),
        _ => panic!("identifier pattern should assign to its variable"),
    }
    let tuple = Pat::TuplePat(TuplePat {
        fields: ChildrenContainer::from_vec(vec![ident_pat(1, true), Pat::WildcardPat(WildcardPat { node_info: NodeInfo::NoAst })]),
        node_info: NodeInfo::NoAst,
    });
    match pat_to_assignee_expr(&tuple) {
        Some(Expr::TupleExpr(t)) => {
            let fields = t.fields.into_iter();
            assert_eq!(fields.len(), 2);
            assert!(matches!(fields[1], Expr::UnderscoreExpr(_)));
        },
        _ => panic!("tuple pattern should become a tuple"),
    }
    let slice_with_rest = Pat::SlicePat(SlicePat {
        components: SlicePatComponents {
            prefix: ChildrenContainer::from_vec(vec![ident_pat(1, true)]),
            slice: Some(Box::new(Pat::RestPat(RestPat { node_info: NodeInfo::NoAst }))),
            suffix: ChildrenContainer::new(),
            node_info: NodeInfo::NoAst,
        },
        node_info: NodeInfo::NoAst,
    });
    assert!(pat_to_assignee_expr(&slice_with_rest).is_none());
    let synthetic_ident = Pat::IdentPat(IdentPat { name: AstRef { id: 3 }, pat: None, binds_local: true, node_info: NodeInfo::NoAst });
    assert!(pat_to_assignee_expr(&synthetic_ident).is_none());
    assert!(pat_to_assignee_expr(&tuple_struct(4, vec![])).is_none());
}

#[test]
fn block_tail_becomes_assignment() {
    let mut b = block(vec![expr_stmt(lit(1))], Some(lit(2)));
    let target = path(9);
    tail_expr_to_assignment_for_block(&mut b, &target);
    assert!(b.tail_expr.is_none());
    let stmts = b.statements.into_iter();
    assert_eq!(stmts.len(), 2);
    match &stmts[1] {
        Stmt::ExprStmt(ExprStmt { expr, .. }) => {
            let (lhs, rhs) = is_assignment(expr).expect("assignment");
            assert!(matches!(lhs, Expr::PathExpr(PathExpr { path: Path::Ast(AstRef { id: 9 }), .. })));
            assert_eq!(lit_id(rhs), Some(2));
        },
        _ => panic!("expected an expression statement"),
    }
}

#[test]
fn block_without_tail_is_unchanged() {
    let mut b = block(vec![expr_stmt(lit(1))], None);
    tail_expr_to_assignment_for_block(&mut b, &path(9));
    assert_eq!(b.statements.len(), 1);
    assert!(b.tail_expr.is_none());
}

#[test]
fn every_if_branch_assigns() {
    let inner_if = IfExpr {
        condition: Box::new(lit(3)),
        then_branch: block(vec![], Some(lit(4))),
        else_branch: Some(Box::new(ElseBranch::Block(block(vec![], Some(lit(5)))))),
        node_info: NodeInfo::NoAst,
    };
    let mut e = Expr::IfExpr(IfExpr {
        condition: Box::new(lit(1)),
        then_branch: block(vec![], Some(lit(2))),
        else_branch: Some(Box::new(ElseBranch::IfExpr(inner_if))),
        node_info: NodeInfo::NoAst,
    });
    tail_expr_to_assignment(&mut e, &path(9));
    let Expr::IfExpr(i) = e else { panic!("still an if") };
    assert!(i.then_branch.tail_expr.is_none());
    assert_eq!(i.then_branch.statements.len(), 1);
    let Some(eb) = i.else_branch else { panic!("else kept") };
    let ElseBranch::IfExpr(inner) = *eb else { panic!("else if kept") };
    assert_eq!(inner.then_branch.statements.len(), 1);
    let Some(last) = inner.else_branch else { panic!("last else kept") };
    let ElseBranch::Block(b) = *last else { panic!("block kept") };
    assert!(b.tail_expr.is_none());
    assert_eq!(b.statements.len(), 1);
}

#[test]
fn match_arms_assign() {
    let arm = |id: u64| MatchArm { pat: Pat::WildcardPat(WildcardPat { node_info: NodeInfo::NoAst }), guard: None, expr: lit(id), node_info: NodeInfo::NoAst };
    let mut e = Expr::MatchExpr(MatchExpr {
        expr: Box::new(lit(1)),
        match_arm_list: MatchArmList { arms: ChildrenContainer::from_vec(vec![arm(2), arm(3)]), node_info: NodeInfo::NoAst },
        node_info: NodeInfo::NoAst,
    });
    tail_expr_to_assignment(&mut e, &path(9));
    let Expr::MatchExpr(m) = e else { panic!("still a match") };
    let arms = m.match_arm_list.arms.into_iter();
    assert_eq!(arms.len(), 2);
    let (_, rhs) = is_assignment(&arms[1].expr).expect("assignment");
    assert_eq!(lit_id(rhs), Some(3));
}

#[test]
fn let_with_block_initializer_is_split() {
    let init = Expr::BlockExpr(block(vec![expr_stmt(lit(1))], Some(lit(2))));
    let stmt = Stmt::LetStmt(LetStmt { pat: ident_pat(5, true), initializer: Some(init), let_else: None, node_info: ast(4) });
    let Stmt::ExprStmt(es) = expand_let(stmt) else { panic!("expected a statement group") };
    let Expr::MacroStmts(group) = es.expr else { panic!("expected a statement group") };
    let stmts = group.statements.into_iter();
    assert_eq!(stmts.len(), 2);
    match &stmts[0] {
        Stmt::LetStmt(ls) => assert!(ls.initializer.is_none()),
        _ => panic!("the declaration comes first"),
    }
    match &stmts[1] {
        Stmt::ExprStmt(ExprStmt { expr: Expr::BlockExpr(b), .. }) => {
            assert!(b.tail_expr.is_none());
            assert_eq!(b.statements.len(), 2);
        },
        _ => panic!("the block comes second"),
    }
}

#[test]
fn let_with_plain_initializer_is_kept() {
    let stmt = Stmt::LetStmt(LetStmt { pat: ident_pat(5, true), initializer: Some(lit(1)), let_else: None, node_info: ast(4) });
    assert!(matches!(expand_let(stmt), Stmt::LetStmt(_)));
}

#[test]
fn block_tail_is_returned() {
    let mut stmts = ChildrenContainer::from_vec(vec![expr_stmt(lit(1))]);
    let mut tail = Some(Box::new(lit(2)));
    visit_block_like(&mut stmts, &mut tail);
    assert!(tail.is_none());
    let v = stmts.into_iter();
    assert_eq!(v.len(), 2);
    match &v[1] {
        Stmt::ExprStmt(ExprStmt { expr: Expr::ReturnExpr(ReturnExpr { expr: Some(value), .. }), .. }) => {
            assert_eq!(lit_id(value), Some(2))
        },
        _ => panic!("expected `return 2;`"),
    }
}

#[test]
fn missing_tail_returns_nothing() {
    let mut stmts = ChildrenContainer::new();
    let mut tail = None;
    visit_block_like(&mut stmts, &mut tail);
    let v = stmts.into_iter();
    assert_eq!(v.len(), 1);
    assert!(matches!(&v[0], Stmt::ExprStmt(ExprStmt { expr: Expr::ReturnExpr(ReturnExpr { expr: None, .. }), .. })));
}

#[test]
fn loop_tail_is_not_wrapped() {
    let mut stmts = ChildrenContainer::new();
    let l = Expr::LoopExpr(LoopExpr { label: None, loop_body: block(vec![], None), node_info: NodeInfo::NoAst });
    let mut tail = Some(Box::new(l));
    visit_block_like(&mut stmts, &mut tail);
    let v = stmts.into_iter();
    assert!(matches!(&v[0], Stmt::ExprStmt(ExprStmt { expr: Expr::LoopExpr(_), .. })));
}

#[test]
fn returning_visit_reports_flow() {
    let mut visitor = ImplicitReturnsImpl;
    let mut plain = lit(1);
    assert_eq!(visitor.visit_expr(&mut plain), ControlFlow::Continue(()));
    let mut divergent = raw("throw null", true);
    assert_eq!(visitor.visit_expr(&mut divergent), ControlFlow::Break(true));
    let mut async_block = Expr::BlockExpr(BlockExpr {
        modifier: Some(BlockModifier::Async),
        statements: ChildrenContainer::new(),
        tail_expr: Some(Box::new(lit(1))),
        node_info: NodeInfo::NoAst,
    });
    assert_eq!(visitor.visit_expr(&mut async_block), ControlFlow::Continue(()));
    let mut b = Expr::BlockExpr(block(vec![], Some(lit(1))));
    assert_eq!(visitor.visit_expr(&mut b), ControlFlow::Break(true));
    let Expr::BlockExpr(b) = b else { panic!() };
    assert_eq!(b.statements.len(), 1);
}

#[test]
fn unit_returns_are_split() {
    let pass = ImplicitReturns { unit_valued: vec![7] };
    let ret = |id: u64| expr_stmt(Expr::ReturnExpr(ReturnExpr { expr: Some(Box::new(lit(id))), node_info: ast(100 + id) }));
    let mut stmts = ChildrenContainer::from_vec(vec![ret(7), ret(8)]);
    pass.visit_statements(&mut stmts);
    let v = stmts.into_iter();
    assert_eq!(v.len(), 3);
    match &v[0] {
        Stmt::ExprStmt(ExprStmt { expr, .. }) => assert_eq!(lit_id(expr), Some(7)),
        _ => panic!(),
    }
    assert!(matches!(&v[1], Stmt::ExprStmt(ExprStmt { expr: Expr::ReturnExpr(ReturnExpr { expr: None, .. }), .. })));
    assert!(matches!(&v[2], Stmt::ExprStmt(ExprStmt { expr: Expr::ReturnExpr(ReturnExpr { expr: Some(_), .. }), .. })));
}

#[test]
fn return_of_returning_value_is_unwrapped() {
    let inner = Expr::BlockExpr(block(vec![], Some(lit(3))));
    let stmt = expr_stmt(Expr::ReturnExpr(ReturnExpr { expr: Some(Box::new(inner)), node_info: NodeInfo::NoAst }));
    match rewrite_return_stmt(stmt) {
        Stmt::ExprStmt(ExprStmt { expr: Expr::BlockExpr(b), .. }) => assert_eq!(b.statements.len(), 1),
        _ => panic!("the block now returns by itself"),
    }
    let plain = expr_stmt(Expr::ReturnExpr(ReturnExpr { expr: Some(Box::new(lit(3))), node_info: NodeInfo::NoAst }));
    assert!(matches!(rewrite_return_stmt(plain), Stmt::ExprStmt(ExprStmt { expr: Expr::ReturnExpr(_), .. })));
}

#[test]
fn or_pattern_with_bindings_splits() {
    // Some(x) | Ok(x)
    let p = or_pat(vec![tuple_struct(1, vec![ident_pat(10, true)]), tuple_struct(2, vec![ident_pat(11, true)])]);
    let (expanded, has_local) = expand_or_pattern(&p);
    assert!(has_local);
    let v = expanded.expect("split");
    assert_eq!(v.len(), 2);
    assert!(matches!(&v[0], Pat::TupleStructPat(t) if matches!(t.path, Path::Ast(AstRef { id: 1 }))));
    assert!(matches!(&v[1], Pat::TupleStructPat(t) if matches!(t.path, Path::Ast(AstRef { id: 2 }))));
}

#[test]
fn or_pattern_without_bindings_stays() {
    let p = or_pat(vec![ident_pat(1, false), ident_pat(2, false)]);
    let (expanded, has_local) = expand_or_pattern(&p);
    assert!(!has_local);
    assert!(expanded.is_none());
}

#[test]
fn nested_or_patterns_cross_join_in_order() {
    // (A(x) | B(x), C(y) | D(y))
    let left = or_pat(vec![tuple_struct(1, vec![ident_pat(10, true)]), tuple_struct(2, vec![ident_pat(11, true)])]);
    let right = or_pat(vec![tuple_struct(3, vec![ident_pat(12, true)]), tuple_struct(4, vec![ident_pat(13, true)])]);
    let p = Pat::TuplePat(TuplePat { fields: ChildrenContainer::from_vec(vec![left, right]), node_info: NodeInfo::NoAst });
    let (expanded, has_local) = expand_or_pattern(&p);
    assert!(has_local);
    let v = expanded.expect("split");
    let ids: Vec<(u64, u64)> = v
        .iter()
        .map(|p| match p {
            Pat::TuplePat(t) => {
                let id = |q: Option<&Pat>| match q {
                    Some(Pat::TupleStructPat(ts)) => match ts.path {
                        Path::Ast(a) => a.id,
                        _ => 0,
                    },
                    _ => 0,
                };
                (id(t.fields.get(0)), id(t.fields.get(1)))
            },
            _ => (0, 0),
        })
        .collect();
    assert_eq!(ids, vec![(1, 3), (2, 3), (1, 4), (2, 4)]);
}

#[test]
fn match_arms_split_per_alternative() {
    let p = or_pat(vec![tuple_struct(1, vec![ident_pat(10, true)]), tuple_struct(2, vec![ident_pat(11, true)])]);
    let arms = vec![
        MatchArm { pat: p, guard: None, expr: lit(5), node_info: NodeInfo::NoAst },
        MatchArm { pat: Pat::WildcardPat(WildcardPat { node_info: NodeInfo::NoAst }), guard: None, expr: lit(6), node_info: NodeInfo::NoAst },
    ];
    let mut container = ChildrenContainer::from_vec(arms);
    MatchOrPatternDefinitions.split_match_arms(&mut container);
    let v = container.into_iter();
    assert_eq!(v.len(), 3);
    assert_eq!(lit_id(&v[0].expr), Some(5));
    assert_eq!(lit_id(&v[1].expr), Some(5));
    assert_eq!(lit_id(&v[2].expr), Some(6));
}

#[test]
fn eir_clone_is_deep() {
    let e = Expr::BlockExpr(block(vec![expr_stmt(lit(1))], Some(lit(2))));
    let c = e.clone();
    assert!(has_stmt_in_expr(&c));
    let _ = ArgList { args: ChildrenContainer::new(), node_info: NodeInfo::NoAst };
}

#[test]
fn expand_block_pass_reaches_nested_lets() {
    // let a = { let b = { f; 1 }; b };
    let inner_init = Expr::BlockExpr(block(vec![expr_stmt(path(1))], Some(lit(1))));
    let inner_let = Stmt::LetStmt(LetStmt { pat: ident_pat(20, true), initializer: Some(inner_init), let_else: None, node_info: ast(21) });
    let outer_init = Expr::BlockExpr(block(vec![inner_let], Some(path(20))));
    let mut stmt = Stmt::LetStmt(LetStmt { pat: ident_pat(30, true), initializer: Some(outer_init), let_else: None, node_info: ast(31) });
    ExpandBlockExpr.visit_stmt(&mut stmt);
    let Stmt::ExprStmt(es) = stmt else { panic!("expanded") };
    let Expr::MacroStmts(group) = es.expr else { panic!("expanded") };
    let stmts = group.statements.into_iter();
    assert_eq!(stmts.len(), 2);
    let Stmt::ExprStmt(ExprStmt { expr: Expr::BlockExpr(outer), .. }) = &stmts[1] else { panic!("block") };
    // the inner let inside the outer block was expanded too
    assert!(matches!(outer.statements.get(0), Some(Stmt::ExprStmt(ExprStmt { expr: Expr::MacroStmts(_), .. }))));
    assert!(outer.tail_expr.is_none());
}

#[test]
fn match_or_pass_splits_nested_matches() {
    let p = or_pat(vec![tuple_struct(1, vec![ident_pat(10, true)]), tuple_struct(2, vec![ident_pat(11, true)])]);
    let inner = Expr::MatchExpr(MatchExpr {
        expr: Box::new(lit(1)),
        match_arm_list: MatchArmList {
            arms: ChildrenContainer::from_vec(vec![MatchArm { pat: p, guard: None, expr: lit(2), node_info: NodeInfo::NoAst }]),
            node_info: NodeInfo::NoAst,
        },
        node_info: NodeInfo::NoAst,
    });
    let mut e = Expr::BlockExpr(block(vec![expr_stmt(inner)], None));
    MatchOrPatternDefinitions.visit_expr(&mut e);
    let Expr::BlockExpr(b) = e else { panic!() };
    let Some(Stmt::ExprStmt(ExprStmt { expr: Expr::MatchExpr(m), .. })) = b.statements.get(0) else { panic!() };
    assert_eq!(m.match_arm_list.arms.len(), 2);
}

#[test]
fn function_body_returns_explicitly() {
    // fn f() -> T { if c { 1 } else { 2 } }
    let if_expr = Expr::IfExpr(IfExpr {
        condition: Box::new(path(1)),
        then_branch: block(vec![], Some(lit(1))),
        else_branch: Some(Box::new(ElseBranch::Block(block(vec![], Some(lit(2)))))),
        node_info: NodeInfo::NoAst,
    });
    let mut f = Function { body: Some(block(vec![], Some(if_expr))), node_info: NodeInfo::NoAst };
    let mut pass = ImplicitReturns { unit_valued: vec![] };
    pass.visit_fn(&mut f);
    let body = f.body.expect("body kept");
    assert!(body.tail_expr.is_none());
    let stmts = body.statements.into_iter();
    assert_eq!(stmts.len(), 1);
    let Stmt::ExprStmt(ExprStmt { expr: Expr::IfExpr(i), .. }) = &stmts[0] else { panic!("the if itself returns") };
    assert!(matches!(i.then_branch.statements.get(0), Some(Stmt::ExprStmt(ExprStmt { expr: Expr::ReturnExpr(ReturnExpr { expr: Some(_), .. }), .. }))));
}

#[test]
fn unit_return_in_function_is_split() {
    // fn f() { return g(); }  where g() has type ()
    let ret = expr_stmt(Expr::ReturnExpr(ReturnExpr { expr: Some(Box::new(lit(7))), node_info: ast(70) }));
    let mut f = Function { body: Some(block(vec![ret], None)), node_info: NodeInfo::NoAst };
    let mut pass = ImplicitReturns { unit_valued: vec![7] };
    pass.visit_fn(&mut f);
    let stmts = f.body.unwrap().statements.into_iter();
    // `7; return;` and the final `return;` added for the missing tail
    assert_eq!(stmts.len(), 3);
    match &stmts[0] {
        Stmt::ExprStmt(ExprStmt { expr, .. }) => assert_eq!(lit_id(expr), Some(7)),
        _ => panic!(),
    }
    assert!(matches!(&stmts[1], Stmt::ExprStmt(ExprStmt { expr: Expr::ReturnExpr(ReturnExpr { expr: None, .. }), .. })));
    assert!(matches!(&stmts[2], Stmt::ExprStmt(ExprStmt { expr: Expr::ReturnExpr(ReturnExpr { expr: None, .. }), .. })));
}

fn slice_pat(prefix: Vec<Pat>, slice: Option<Pat>, suffix: Vec<Pat>) -> Pat {
    Pat::SlicePat(SlicePat {
        components: SlicePatComponents {
            prefix: ChildrenContainer::from_vec(prefix),
            slice: slice.map(Box::new),
            suffix: ChildrenContainer::from_vec(suffix),
            node_info: NodeInfo::NoAst,
        },
        node_info: NodeInfo::NoAst,
    })
}

fn rest_pat() -> Pat {
    Pat::RestPat(RestPat { node_info: NodeInfo::NoAst })
}

#[test]
fn slice_suffix_binding_declares_variable() {
    // [.., x]
    let p = slice_pat(vec![], Some(rest_pat()), vec![ident_pat(7, true)]);
    let (expanded, has_local) = expand_or_pattern(&p);
    assert!(has_local);
    assert!(expanded.is_none());
}

#[test]
fn slice_rest_binding_declares_variable() {
    // [rest @ ..]
    let rest = Pat::IdentPat(IdentPat {
        name: AstRef { id: 8 },
        pat: Some(Box::new(rest_pat())),
        binds_local: true,
        node_info: ast(8),
    });
    let p = slice_pat(vec![], Some(rest), vec![]);
    let (expanded, has_local) = expand_or_pattern(&p);
    assert!(has_local);
    assert!(expanded.is_none());
}

#[test]
fn slice_suffix_or_pattern_splits() {
    // [.., A(x) | B(x)]
    let alt = or_pat(vec![tuple_struct(1, vec![ident_pat(10, true)]), tuple_struct(2, vec![ident_pat(11, true)])]);
    let p = slice_pat(vec![], Some(rest_pat()), vec![alt]);
    let (expanded, has_local) = expand_or_pattern(&p);
    assert!(has_local);
    let v = expanded.expect("split");
    let ids: Vec<u64> = v
        .iter()
        .map(|p| match p {
            Pat::SlicePat(s) => match (s.components.prefix.get(0), &s.components.slice, s.components.suffix.get(0)) {
                (None, Some(r), Some(Pat::TupleStructPat(ts))) if matches!(**r, Pat::RestPat(_)) => match ts.path {
                    Path::Ast(a) => a.id,
                    _ => 0,
                },
                _ => 0,
            },
            _ => 0,
        })
        .collect();
    assert_eq!(ids, vec![1, 2]);
}
