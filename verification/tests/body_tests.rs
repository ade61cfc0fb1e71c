use rust_to_cs_compiler::body::{
    BodyEmitter, CtorKind, EmitCtx, ExprFact, ExprFacts, FieldTarget, ItemFact, LocalInfo,
};
use rust_to_cs_compiler::eir::{
    ArgList, ArithOp, AstRef, BinExpr, BinaryOp, BlockExpr, BlockModifier, BreakExpr, CallExpr,
    ChildrenContainer, ClosureExpr, CmpOp, ContinueExpr, ElseBranch, Expr, ExprStmt, FieldExpr, ForExpr,
    FormatArgsExpr, FormatArgsSegment, IdentPat, IfExpr, LetElse, LetStmt, Literal, LiteralKind, LoopExpr,
    MatchArm, MatchArmList, MatchExpr, MethodCallExpr, NameRef, NodeInfo, Param, ParamList, Pat, Path,
    PathExpr, RangeExpr, RangeOp, RecordExpr, RecordExprField, RecordExprFieldList, ReturnExpr, Stmt,
    TupleExpr, TupleStructPat, VecListExpr, WildcardPat,
};
use rust_to_cs_compiler::emitter::LiteralValue;
use rust_to_cs_compiler::eir::{Function, SelfParam};
use rust_to_cs_compiler::options::CsFunctionType;
use rust_to_cs_compiler::function_resolution::{ResolvedFunction, TypeRef};
use rust_to_cs_compiler::output::Code;
use rust_to_cs_compiler::patterns::{PatFact, PatFacts};

fn ast(id: u64) -> NodeInfo<AstRef> {
    NodeInfo::Ast(AstRef { id })
}

fn lit(id: u64) -> Expr {
    Expr::Literal(Literal { kind: LiteralKind::IntNumber(AstRef { id }), node_info: ast(id) })
}

fn path(id: u64) -> Expr {
    Expr::PathExpr(PathExpr { path: Path::Ast(AstRef { id }), node_info: ast(id) })
}

fn bin(lhs: Expr, op: BinaryOp, rhs: Expr) -> Expr {
    Expr::BinExpr(BinExpr { lhs: Box::new(lhs), rhs: Box::new(rhs), op_kind: op, node_info: NodeInfo::NoAst })
}

fn add(lhs: Expr, rhs: Expr) -> Expr {
    bin(lhs, BinaryOp::ArithOp(ArithOp::Add), rhs)
}

fn block(stmts: Vec<Stmt>, tail: Option<Expr>) -> BlockExpr {
    BlockExpr {
        modifier: None,
        statements: ChildrenContainer::from_vec(stmts),
        tail_expr: tail.map(Box::new),
        node_info: NodeInfo::NoAst,
    }
}

fn ident(id: u64) -> Pat {
    Pat::IdentPat(IdentPat { name: AstRef { id }, pat: None, binds_local: true, node_info: ast(id) })
}

fn let_stmt(pat: Pat, init: Option<Expr>) -> Stmt {
    Stmt::LetStmt(LetStmt { pat, initializer: init, let_else: None, node_info: NodeInfo::NoAst })
}

fn expr_stmt(e: Expr) -> Stmt {
    Stmt::ExprStmt(ExprStmt { expr: e, node_info: NodeInfo::NoAst })
}

fn args(v: Vec<Expr>) -> ArgList {
    ArgList { args: ChildrenContainer::from_vec(v), node_info: NodeInfo::NoAst }
}

/// Literals 1..=9 are the numbers themselves (ids 1..=9); locals `x`, `y`
/// bind at ids 20, 21 and are read by paths 30, 31.
fn facts() -> ExprFacts {
    let mut exprs: Vec<(u64, ExprFact)> = (1..=9u64).map(|i| (i, ExprFact::Literal(LiteralValue::Int(i as u128)))).collect();
    exprs.push((30, ExprFact::LocalPath { local: AstRef { id: 20 }, unbound: "/* unbound x */".to_string() }));
    exprs.push((31, ExprFact::LocalPath { local: AstRef { id: 21 }, unbound: "/* unbound y */".to_string() }));
    exprs.push((32, ExprFact::CtorPath { cs_name: "global::E.None".to_string(), kind: CtorKind::Unit }));
    exprs.push((33, ExprFact::ItemPath("global::mod_c.k_MAX".to_string())));
    exprs.push((40, ExprFact::Field { deref_adjusted: false, target: FieldTarget::Named("f_len".to_string()) }));
    exprs.push((41, ExprFact::Field { deref_adjusted: true, target: FieldTarget::Index(0) }));
    exprs.push((50, ExprFact::MethodCall {
        resolved: ResolvedFunction::Method {
            self_ty: TypeRef { id: 1, cs: "V".to_string() },
            trait_: None,
            function_name: "m_push".to_string(),
            generic_sources: Vec::new(),
            generic_args: Vec::new(),
            args_map: None,
        },
        self_cs: "V".to_string(),
        generic_cs: Vec::new(),
    }));
    exprs.push((51, ExprFact::FunctionCall {
        resolved: ResolvedFunction::ModuleFunction {
            function_path: "global::mod_c.m_f".to_string(),
            generic_sources: Vec::new(),
            generic_args: Vec::new(),
            args_map: None,
        },
        self_cs: String::new(),
        generic_cs: vec!["int".to_string()],
    }));
    exprs.push((52, ExprFact::CtorCall("global::E.Some".to_string())));
    exprs.push((60, ExprFact::RecordCtor("global::P".to_string())));
    exprs.push((61, ExprFact::Type("int".to_string())));
    exprs.push((62, ExprFact::Closure { returns_unit: false }));
    exprs.push((63, ExprFact::AsyncBlock { return_cs: "int".to_string(), returns_unit: false }));
    exprs.push((64, ExprFact::AsyncBlock { return_cs: "global::System.ValueTuple".to_string(), returns_unit: true }));
    ExprFacts {
        exprs,
        pats: PatFacts {
            facts: vec![
                (20, PatFact::Local("x".to_string())),
                (21, PatFact::Local("y".to_string())),
                (70, PatFact::Constructable { cs_name: "global::E.Some".to_string(), field_count: 1 }),
            ],
            names: vec![(80, "'outer_loop".to_string()), (81, "push".to_string()), (82, "a".to_string())],
        },
        cfg_off: vec![99],
        locals: vec![(21, LocalInfo { rust_name: "y".to_string(), ty_cs: "int".to_string() })],
        items: vec![(90, ItemFact::Fn("helper".to_string())), (91, ItemFact::Other("use foo".to_string()))],
    }
}

const VALUE: EmitCtx = EmitCtx { is_async: false, returns_unit: false };
const UNIT: EmitCtx = EmitCtx { is_async: false, returns_unit: true };

fn expr_text(e: &Expr) -> String {
    let mut em = BodyEmitter::new();
    let c = em.emit_expr(e, false, VALUE, &facts());
    c.finish().trim_end_matches('\n').to_string()
}

fn stmt_text(e: &Expr, returning: bool, ctx: EmitCtx) -> (String, bool) {
    let mut em = BodyEmitter::new();
    let (c, d) = em.emit_stmt(e, returning, ctx, &facts());
    (c.finish(), d)
}

#[test]
fn expressions_compose() {
    assert_eq!(expr_text(&add(lit(1), lit(2))), "(1 + 2)");
    let cmp = bin(lit(1), BinaryOp::CmpOp(CmpOp::Ord { greater: true, strict: false }), lit(2));
    assert_eq!(expr_text(&cmp), "(1 >= 2)");
    assert_eq!(expr_text(&path(32)), "global::E.None.instance");
    assert_eq!(expr_text(&path(33)), "global::mod_c.k_MAX");
    assert_eq!(expr_text(&path(30)), "/* unbound x */");
    let empty = Expr::TupleExpr(TupleExpr { fields: ChildrenContainer::from_vec(Vec::new()), node_info: NodeInfo::NoAst });
    assert_eq!(expr_text(&empty), "default(global::System.ValueTuple)");
    let pair = Expr::TupleExpr(TupleExpr { fields: ChildrenContainer::from_vec(vec![lit(1), lit(2)]), node_info: NodeInfo::NoAst });
    assert_eq!(expr_text(&pair), "(1, 2)");
}

#[test]
fn fields_and_calls() {
    let field = Expr::FieldExpr(FieldExpr { expr: Box::new(path(33)), name_ref: NameRef::Ast(AstRef { id: 82 }), node_info: ast(40) });
    assert_eq!(expr_text(&field), "global::mod_c.k_MAX.f_len");
    let tuple_field = Expr::FieldExpr(FieldExpr { expr: Box::new(path(33)), name_ref: NameRef::Ast(AstRef { id: 82 }), node_info: ast(41) });
    assert_eq!(expr_text(&tuple_field), "global::mod_c.k_MAX.m_Deref().Item1");
    let method = Expr::MethodCallExpr(MethodCallExpr {
        receiver: Box::new(path(33)),
        name_ref: NameRef::Ast(AstRef { id: 81 }),
        arg_list: args(vec![lit(1)]),
        node_info: ast(50),
    });
    assert_eq!(expr_text(&method), "global::mod_c.k_MAX.m_push(1)");
    let unresolved = Expr::MethodCallExpr(MethodCallExpr {
        receiver: Box::new(lit(1)),
        name_ref: NameRef::Ast(AstRef { id: 81 }),
        arg_list: args(vec![lit(2), lit(3)]),
        node_info: ast(59),
    });
    assert_eq!(expr_text(&unresolved), "1.push(2, 3)");
    let call = Expr::CallExpr(CallExpr { expr: Box::new(path(33)), arg_list: args(vec![lit(4)]), node_info: ast(51) });
    assert_eq!(expr_text(&call), "global::mod_c.m_f<int>(4)");
    let ctor = Expr::CallExpr(CallExpr { expr: Box::new(path(33)), arg_list: args(vec![lit(5)]), node_info: ast(52) });
    assert_eq!(expr_text(&ctor), "global::E.Some.ctor(5)");
    let plain = Expr::CallExpr(CallExpr { expr: Box::new(path(33)), arg_list: args(vec![lit(6), lit(7)]), node_info: ast(58) });
    assert_eq!(expr_text(&plain), "global::mod_c.k_MAX(6, 7)");
}

#[test]
fn struct_literal_and_ranges() {
    let fields = vec![
        RecordExprField { field_name: Some(NameRef::CSharp("a".to_string())), expr: lit(1), node_info: NodeInfo::NoAst },
        RecordExprField { field_name: Some(NameRef::CSharp("b".to_string())), expr: lit(2), node_info: ast(99) },
        RecordExprField { field_name: Some(NameRef::CSharp("c".to_string())), expr: lit(3), node_info: NodeInfo::NoAst },
    ];
    let rec = Expr::RecordExpr(RecordExpr {
        record_expr_field_list: RecordExprFieldList { fields: ChildrenContainer::from_vec(fields), spread: None, node_info: NodeInfo::NoAst },
        node_info: ast(60),
    });
    assert_eq!(expr_text(&rec), "new global::P() {\n    f_a = (1), \n    f_c = (3)\n}");
    let range = Expr::RangeExpr(RangeExpr { start: Some(Box::new(lit(1))), end: Some(Box::new(lit(5))), op_kind: RangeOp::Inclusive, node_info: ast(61) });
    assert_eq!(expr_text(&range), "Range<int>.NewRangeInclusive(1, 5)");
    let from = Expr::RangeExpr(RangeExpr { start: Some(Box::new(lit(1))), end: None, op_kind: RangeOp::Exclusive, node_info: ast(61) });
    assert_eq!(expr_text(&from), "Range<int>.NewRangeFrom(1)");
    let full = Expr::RangeExpr(RangeExpr { start: None, end: None, op_kind: RangeOp::Exclusive, node_info: NodeInfo::NoAst });
    assert_eq!(expr_text(&full), "RangeFull.NewRangeFull()");
    let list = Expr::VecListExpr(VecListExpr { elements: ChildrenContainer::from_vec(vec![lit(1), lit(2)]), node_info: ast(61) });
    assert_eq!(expr_text(&list), "new List<int> { 1, 2 }");
    let none = Expr::VecListExpr(VecListExpr { elements: ChildrenContainer::from_vec(Vec::new()), node_info: ast(61) });
    assert_eq!(expr_text(&none), "new List<int>()");
}

#[test]
fn interpolated_strings() {
    let segs = vec![
        FormatArgsSegment::Literal("x = \"".to_string()),
        FormatArgsSegment::Expr(lit(7)),
        FormatArgsSegment::Braces('{'),
    ];
    let f = Expr::FormatArgsExpr(FormatArgsExpr { segments: ChildrenContainer::from_vec(segs), node_info: NodeInfo::NoAst });
    assert_eq!(expr_text(&f), "$\"x = \\\"{7}{{\"");
}

#[test]
fn closures_bind_parameters() {
    let params = ParamList {
        self_param: None,
        params: ChildrenContainer::from_vec(vec![Param { pat: ident(20), node_info: NodeInfo::NoAst }]),
        node_info: NodeInfo::NoAst,
    };
    let closure = Expr::ClosureExpr(ClosureExpr {
        async_token: false,
        param_list: params,
        body: Box::new(add(path(30), lit(1))),
        node_info: ast(62),
    });
    assert_eq!(expr_text(&closure), "(l_x_0) => (l_x_0 + 1)");
    let tuple_param = ParamList {
        self_param: None,
        params: ChildrenContainer::from_vec(vec![
            Param { pat: ident(20), node_info: NodeInfo::NoAst },
            Param { pat: Pat::WildcardPat(WildcardPat { node_info: NodeInfo::NoAst }), node_info: NodeInfo::NoAst },
        ]),
        node_info: NodeInfo::NoAst,
    };
    let with_block = Expr::ClosureExpr(ClosureExpr {
        async_token: false,
        param_list: tuple_param,
        body: Box::new(Expr::BlockExpr(block(Vec::new(), Some(path(30))))),
        node_info: ast(62),
    });
    assert_eq!(
        expr_text(&with_block),
        "(l_x_0, __cp1) => {\n    if (!(__cp1 is {} _)) throw new Exception(\"unreachable\");\n    return l_x_0;\n}"
    );
}

#[test]
fn statements_return_and_branch() {
    let (t, d) = stmt_text(&add(lit(1), lit(2)), true, VALUE);
    assert_eq!((t.as_str(), d), ("return 1 + 2;\n", true));
    let (t, d) = stmt_text(&add(lit(1), lit(2)), true, UNIT);
    assert_eq!((t.as_str(), d), ("1 + 2;\n", false));
    let ret = Expr::ReturnExpr(ReturnExpr { expr: None, node_info: NodeInfo::NoAst });
    assert_eq!(stmt_text(&ret, false, UNIT), ("return;\n".to_string(), true));
    let async_ctx = EmitCtx { is_async: true, returns_unit: true };
    assert_eq!(stmt_text(&ret, false, async_ctx).0, "return default(global::System.ValueTuple); // void\n");
    let iff = Expr::IfExpr(IfExpr {
        condition: Box::new(path(33)),
        then_branch: block(vec![let_stmt(ident(20), Some(lit(1)))], Some(path(30))),
        else_branch: Some(Box::new(ElseBranch::Block(block(Vec::new(), Some(lit(2)))))),
        node_info: NodeInfo::NoAst,
    });
    let (t, d) = stmt_text(&iff, true, VALUE);
    assert_eq!(t, "if (global::mod_c.k_MAX) {\n    var l_x_0 = 1;\n    return l_x_0;\n} else {\n    return 2;\n}\n");
    assert!(d);
    let as_expr = expr_text(&iff);
    assert_eq!(as_expr, "(global::mod_c.k_MAX ? /* block expr */ default! : 2)");
}

#[test]
fn loops_and_labels() {
    let body = block(vec![expr_stmt(Expr::BreakExpr(BreakExpr { expr: None, lifetime: Some(AstRef { id: 80 }), node_info: NodeInfo::NoAst }))], None);
    let lp = Expr::LoopExpr(LoopExpr { label: Some(AstRef { id: 80 }), loop_body: body, node_info: NodeInfo::NoAst });
    let (t, d) = stmt_text(&lp, false, UNIT);
    assert_eq!(t, "outerLoop: while (true) {\n    break /*outerLoop*/;\n}\n");
    assert!(d);
    let cont = Expr::ContinueExpr(ContinueExpr { lifetime: None, node_info: NodeInfo::NoAst });
    let fr = Expr::ForExpr(ForExpr {
        pat: ident(20),
        iterable: Box::new(path(33)),
        label: None,
        loop_body: block(vec![expr_stmt(cont)], None),
        node_info: NodeInfo::NoAst,
    });
    let (t, d) = stmt_text(&fr, false, UNIT);
    assert_eq!(t, "foreach (var __temp_0 in global::mod_c.k_MAX) {\n    var l_x_0 = __temp_0;\n    continue;\n}\n");
    assert!(!d);
}

#[test]
fn match_statements() {
    let some = Pat::TupleStructPat(TupleStructPat {
        path: Path::Ast(AstRef { id: 70 }),
        fields: ChildrenContainer::from_vec(vec![ident(20)]),
        node_info: ast(70),
    });
    let arms = vec![
        MatchArm { pat: some, guard: None, expr: path(30), node_info: NodeInfo::NoAst },
        MatchArm {
            pat: Pat::WildcardPat(WildcardPat { node_info: NodeInfo::NoAst }),
            guard: None,
            expr: Expr::ReturnExpr(ReturnExpr { expr: Some(Box::new(lit(0 + 3))), node_info: NodeInfo::NoAst }),
            node_info: NodeInfo::NoAst,
        },
    ];
    let m = Expr::MatchExpr(MatchExpr {
        expr: Box::new(path(33)),
        match_arm_list: MatchArmList { arms: ChildrenContainer::from_vec(arms), node_info: NodeInfo::NoAst },
        node_info: NodeInfo::NoAst,
    });
    let (t, d) = stmt_text(&m, false, UNIT);
    assert_eq!(
        t,
        "switch (global::mod_c.k_MAX) {\n    case global::E.Some{f_0: var l_x_0} :{\n        l_x_0;\n        break;\n    }\n    case {} _ :{\n        3;\n        return;\n    }\n    default: throw new System.NullReferenceException();\n}\n"
    );
    assert!(!d);
    assert_eq!(
        expr_text(&m),
        "(global::mod_c.k_MAX) switch {\n    global::E.Some{f_0: var l_x_0} => l_x_0,\n    {} _ => /* return-expr */ throw r2CsRuntime.Helpers.Returns<object>(3),\n}"
    );
}

#[test]
fn blocks_with_items_and_uninitialized_lets() {
    let b = block(
        vec![
            Stmt::Item(AstRef { id: 90 }),
            Stmt::Item(AstRef { id: 91 }),
            let_stmt(ident(21), None),
            expr_stmt(Expr::TupleExpr(TupleExpr { fields: ChildrenContainer::from_vec(Vec::new()), node_info: NodeInfo::NoAst })),
            expr_stmt(lit(9)),
        ],
        Some(path(31)),
    );
    let mut em = BodyEmitter::new();
    let mut out = Code::new();
    em.emit_returning_block(&mut out, &b, VALUE, &facts());
    assert_eq!(
        out.finish(),
        "// inner fn: helper\n/* unsupported inner item: use foo */\nint l_y_0 = (default!);\n/* () unit expr */;\n9;\nreturn l_y_0;\n"
    );
    assert_eq!(em.deferred.len(), 1);
    assert_eq!(em.deferred[0].id, 90);
}

#[test]
fn disabled_statements_are_skipped() {
    let skipped = Expr::Literal(Literal { kind: LiteralKind::IntNumber(AstRef { id: 99 }), node_info: ast(99) });
    assert_eq!(stmt_text(&skipped, false, UNIT), (String::new(), false));
}

#[test]
fn let_else_tests_the_pattern() {
    let some = Pat::TupleStructPat(TupleStructPat {
        path: Path::Ast(AstRef { id: 70 }),
        fields: ChildrenContainer::from_vec(vec![ident(20)]),
        node_info: ast(70),
    });
    let stmt = Stmt::LetStmt(LetStmt {
        pat: some,
        initializer: Some(path(33)),
        let_else: Some(LetElse {
            block_expr: block(vec![], Some(Expr::ReturnExpr(ReturnExpr { expr: None, node_info: NodeInfo::NoAst }))),
            node_info: NodeInfo::NoAst,
        }),
        node_info: NodeInfo::NoAst,
    });
    let b = block(vec![stmt], Some(path(30)));
    let mut em = BodyEmitter::new();
    let (c, d) = em.emit_block(&b, true, VALUE, &facts());
    assert_eq!(
        c.finish(),
        "if (!(global::mod_c.k_MAX is global::E.Some{f_0: var l_x_0})) {\n    return;\n}\nreturn l_x_0;\n"
    );
    assert!(d);
}

#[test]
fn async_blocks_return_tasks() {
    let b = BlockExpr {
        modifier: Some(BlockModifier::Async),
        statements: ChildrenContainer::from_vec(Vec::new()),
        tail_expr: Some(Box::new(lit(4))),
        node_info: ast(63),
    };
    assert_eq!(expr_text(&Expr::BlockExpr(b)), "RustTask.New<int>(async () => {\n    return 4;\n})");
    let unit = BlockExpr {
        modifier: Some(BlockModifier::Async),
        statements: ChildrenContainer::from_vec(vec![expr_stmt(lit(1))]),
        tail_expr: None,
        node_info: ast(64),
    };
    assert_eq!(
        expr_text(&Expr::BlockExpr(unit)),
        "RustTask.New<global::System.ValueTuple>(async () => {\n    1;\n    return default;\n})"
    );
}

#[test]
fn function_bodies_name_receiver_and_parameters() {
    let params = ParamList {
        self_param: Some(SelfParam { node_info: ast(25) }),
        params: ChildrenContainer::from_vec(vec![Param { pat: ident(20), node_info: NodeInfo::NoAst }]),
        node_info: NodeInfo::NoAst,
    };
    let mut fs = facts();
    fs.exprs.push((34, ExprFact::LocalPath { local: AstRef { id: 25 }, unbound: "?".to_string() }));
    let body = block(Vec::new(), Some(add(path(34), path(30))));
    let f = Function { body: Some(body), node_info: NodeInfo::NoAst };
    let mut em = BodyEmitter::new();
    let mut out = Code::new();
    em.emit_function_body(&mut out, &params, &f, CsFunctionType::Normal, VALUE, &fs);
    assert_eq!(out.finish(), "return this + l_x_0;\n");
    let mut em = BodyEmitter::new();
    let mut out = Code::new();
    let body = block(Vec::new(), Some(add(path(34), path(30))));
    let f = Function { body: Some(body), node_info: NodeInfo::NoAst };
    em.emit_function_body(&mut out, &params, &f, CsFunctionType::TraitDefaultImpl, VALUE, &fs);
    assert_eq!(out.finish(), "return self + l_x_0;\n");
    let derived = Function { body: None, node_info: NodeInfo::NoAst };
    let mut em = BodyEmitter::new();
    let mut out = Code::new();
    em.emit_function_body(&mut out, &params, &derived, CsFunctionType::Normal, VALUE, &fs);
    assert_eq!(out.finish(), "throw new System.NotImplementedException(\"builtin-derive\");\n");
}
