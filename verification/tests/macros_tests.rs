use rust_to_cs_compiler::eir::{
    AstRef, ChildrenContainer, Expr, FormatArgsSegment, NameRef, NodeInfo, Path, PathExpr,
};
use rust_to_cs_compiler::macros::{
    emit_expr_macro, ArgFacts, Expansion, LogLevel, MacroCallFacts, MacroKind, MacroParser, TokenKind,
    TokenTreeElement,
};

fn s(x: &str) -> String {
    x.to_string()
}

fn tok(id: u64, kind: TokenKind, text: &str) -> TokenTreeElement {
    TokenTreeElement::Token { id, kind, text: s(text) }
}

fn ws(id: u64) -> TokenTreeElement {
    tok(id, TokenKind::Whitespace, " ")
}

fn path(id: u64) -> Expr {
    Expr::PathExpr(PathExpr { path: Path::Ast(AstRef { id }), node_info: NodeInfo::Ast(AstRef { id }) })
}

fn path_id(e: &Expr) -> u64 {
    match e {
        Expr::PathExpr(PathExpr { path: Path::Ast(a), .. }) => a.id,
        _ => panic!("not a path"),
    }
}

fn items<T>(c: &ChildrenContainer<T>) -> Vec<&T> {
    let mut v = Vec::new();
    let mut cur = c;
    while let ChildrenContainer::More(x, rest) = cur {
        v.push(&**x);
        cur = &**rest;
    }
    v
}

fn raw_text(e: &Expr) -> String {
    match e {
        Expr::RawCodeExpr(rc) => {
            assert!(!rc.divergent);
            rc.code.clone().finish()
        },
        _ => panic!("not raw code"),
    }
}

fn facts(kind: MacroKind, tokens: Vec<TokenTreeElement>, exprs: Vec<(u64, u64, Expr)>, strings: Vec<(u64, u64, String)>) -> MacroCallFacts {
    MacroCallFacts {
        macro_expr: AstRef { id: 100 },
        macro_call: AstRef { id: 101 },
        kind,
        tokens,
        tt_text: s("()"),
        args: ArgFacts { exprs, strings },
    }
}

/// A placeholder segment: the formatter called on a path.
fn placeholder(seg: &FormatArgsSegment) -> (u64, String) {
    match seg {
        FormatArgsSegment::Expr(Expr::MethodCallExpr(m)) => match &m.name_ref {
            NameRef::CSharp(n) => (path_id(&m.receiver), n.clone()),
            _ => panic!("not a C# name"),
        },
        _ => panic!("not a placeholder"),
    }
}

#[test]
fn parser_reads_arguments_up_to_separators() {
    let tokens = vec![
        tok(1, TokenKind::Other, "("),
        ws(2),
        tok(3, TokenKind::Ident, "a"),
        tok(4, TokenKind::Other, "+"),
        TokenTreeElement::Node { id: 5 },
        tok(6, TokenKind::Comma, ","),
        ws(7),
        tok(8, TokenKind::Ident, "b"),
        tok(9, TokenKind::CloseParen, ")"),
    ];
    let mut p = MacroParser::new(&tokens);
    assert_eq!(p.elements.len(), 7);
    assert!(!p.is_end());
    assert_eq!(p.next_expr(), Some((3, 5)));
    assert!(!p.take_token(TokenKind::Semicolon));
    assert!(p.take_token(TokenKind::Comma));
    assert_eq!(p.next_expr(), Some((8, 8)));
    assert!(p.is_end());
    assert_eq!(p.next_expr(), None);
    assert!(p.next().is_none());
}

#[test]
fn format_macro_reads_positional_and_named_arguments() {
    let tokens = vec![
        tok(1, TokenKind::Other, "("),
        tok(2, TokenKind::StringLit, "\"{} and {x:?}\""),
        tok(3, TokenKind::Comma, ","),
        ws(4),
        tok(5, TokenKind::Ident, "a"),
        tok(6, TokenKind::Comma, ","),
        tok(7, TokenKind::Ident, "x"),
        tok(8, TokenKind::Eq, "="),
        tok(9, TokenKind::Ident, "b"),
        tok(10, TokenKind::CloseParen, ")"),
    ];
    let f = facts(
        MacroKind::FormatArgs,
        tokens,
        vec![(5, 5, path(50)), (9, 9, path(90))],
        vec![(2, 2, s("{} and {x:?}"))],
    );
    match emit_expr_macro(&f) {
        Expr::FormatArgsExpr(fa) => {
            let segs = items(&fa.segments);
            assert_eq!(segs.len(), 3);
            assert_eq!(placeholder(segs[0]), (50, s("DisplayStr")));
            match segs[1] {
                FormatArgsSegment::Literal(l) => assert_eq!(l, " and "),
                _ => panic!("not a literal"),
            }
            assert_eq!(placeholder(segs[2]), (90, s("DebugStr")));
        },
        _ => panic!("not a format expression"),
    }
}

#[test]
fn vec_macro_takes_the_list_after_its_first_element() {
    let tokens = vec![
        tok(1, TokenKind::Other, "["),
        tok(2, TokenKind::Ident, "a"),
        tok(3, TokenKind::Comma, ","),
        tok(4, TokenKind::Ident, "b"),
        tok(5, TokenKind::Comma, ","),
        tok(6, TokenKind::Ident, "c"),
        tok(7, TokenKind::CloseBracket, "]"),
    ];
    let f = facts(MacroKind::Vec, tokens, vec![(2, 2, path(20)), (4, 4, path(40)), (6, 6, path(60))], Vec::new());
    match emit_expr_macro(&f) {
        Expr::VecListExpr(v) => {
            let xs: Vec<u64> = items(&v.elements).into_iter().map(path_id).collect();
            assert_eq!(xs, vec![20]);
            assert!(matches!(v.node_info, NodeInfo::Ast(AstRef { id: 100 })));
        },
        _ => panic!("not a list"),
    }
    let empty = facts(MacroKind::Vec, vec![tok(1, TokenKind::Other, "["), tok(2, TokenKind::CloseBracket, "]")], Vec::new(), Vec::new());
    match emit_expr_macro(&empty) {
        Expr::VecListExpr(v) => assert_eq!(items(&v.elements).len(), 0),
        _ => panic!("not a list"),
    }
}

#[test]
fn try_join_awaits_the_joint_task() {
    let tokens = vec![
        tok(1, TokenKind::Other, "("),
        tok(2, TokenKind::Ident, "f"),
        tok(3, TokenKind::Comma, ","),
        tok(4, TokenKind::Ident, "g"),
        tok(5, TokenKind::Comma, ","),
        tok(6, TokenKind::CloseParen, ")"),
    ];
    let f = facts(MacroKind::TryJoin, tokens, vec![(2, 2, path(20)), (4, 4, path(40))], Vec::new());
    match emit_expr_macro(&f) {
        Expr::AwaitExpr(aw) => {
            assert!(matches!(aw.node_info, NodeInfo::Ast(AstRef { id: 100 })));
            match &*aw.expr {
                Expr::CallExpr(c) => {
                    assert_eq!(raw_text(&c.expr), "RustTask.TryJoin\n");
                    let xs: Vec<u64> = items(&c.arg_list.args).into_iter().map(path_id).collect();
                    assert_eq!(xs, vec![20, 40]);
                },
                _ => panic!("not a call"),
            }
        },
        _ => panic!("not an await"),
    }
}

#[test]
fn assert_macro_passes_its_message_in_a_closure() {
    let tokens = vec![
        tok(1, TokenKind::Other, "("),
        tok(2, TokenKind::Ident, "ok"),
        tok(3, TokenKind::Comma, ","),
        tok(4, TokenKind::StringLit, "\"bad {}\""),
        tok(5, TokenKind::Comma, ","),
        tok(6, TokenKind::Ident, "v"),
        tok(7, TokenKind::CloseParen, ")"),
    ];
    let f = facts(MacroKind::Assert, tokens, vec![(2, 2, path(20)), (6, 6, path(60))], vec![(4, 4, s("bad {}"))]);
    match emit_expr_macro(&f) {
        Expr::CallExpr(c) => {
            assert_eq!(raw_text(&c.expr), "Asserts.assert\n");
            let args = items(&c.arg_list.args);
            assert_eq!(args.len(), 2);
            assert_eq!(path_id(args[0]), 20);
            match args[1] {
                Expr::ClosureExpr(cl) => {
                    assert!(!cl.async_token);
                    match &*cl.body {
                        Expr::FormatArgsExpr(fa) => {
                            let segs = items(&fa.segments);
                            assert_eq!(segs.len(), 2);
                            assert_eq!(placeholder(segs[1]), (60, s("DisplayStr")));
                        },
                        _ => panic!("not a format expression"),
                    }
                },
                _ => panic!("not a closure"),
            }
        },
        _ => panic!("not a call"),
    }
}

#[test]
fn logging_macros_skip_key_value_pairs() {
    let tokens = vec![
        tok(1, TokenKind::Other, "("),
        tok(2, TokenKind::Ident, "target"),
        tok(3, TokenKind::Eq, "="),
        tok(4, TokenKind::Ident, "t"),
        tok(5, TokenKind::Semicolon, ";"),
        tok(6, TokenKind::StringLit, "\"ready\""),
        tok(7, TokenKind::CloseParen, ")"),
    ];
    let f = facts(MacroKind::Log(LogLevel::Warn), tokens, vec![(4, 4, path(40))], vec![(6, 6, s("ready"))]);
    match emit_expr_macro(&f) {
        Expr::CallExpr(c) => {
            assert_eq!(raw_text(&c.expr), "Logging.warn\n");
            let args = items(&c.arg_list.args);
            assert_eq!(args.len(), 1);
            match args[0] {
                Expr::FormatArgsExpr(fa) => match items(&fa.segments)[..] {
                    [FormatArgsSegment::Literal(l)] => assert_eq!(l, "ready"),
                    _ => panic!("unexpected segments"),
                },
                _ => panic!("not a format expression"),
            }
        },
        _ => panic!("not a call"),
    }
}

#[test]
fn fixed_translations_of_other_macros() {
    let open = vec![tok(1, TokenKind::Other, "("), tok(2, TokenKind::CloseParen, ")")];
    let un = facts(MacroKind::Unreachable, open.clone_tokens(), Vec::new(), Vec::new());
    assert_eq!(raw_text(&emit_expr_macro(&un)), "throw new PanicException(\"unreachable\")\n");
    let pa = facts(MacroKind::Panic, open.clone_tokens(), Vec::new(), Vec::new());
    assert_eq!(raw_text(&emit_expr_macro(&pa)), "throw new PanicException(\"panic\")\n");
    let ls = facts(MacroKind::LazyStatic, open.clone_tokens(), Vec::new(), Vec::new());
    assert_eq!(raw_text(&emit_expr_macro(&ls)), "/* lazy_static placeholder */\n");
    let mut cfg = facts(MacroKind::Cfg, open.clone_tokens(), Vec::new(), Vec::new());
    cfg.tt_text = s("(windows)");
    match emit_expr_macro(&cfg) {
        Expr::CallExpr(c) => {
            assert_eq!(raw_text(&c.expr), "Cfg.IsWindows\n");
            assert_eq!(items(&c.arg_list.args).len(), 0);
        },
        _ => panic!("not a call"),
    }
    let pin = facts(
        MacroKind::Pin,
        vec![tok(1, TokenKind::Other, "("), tok(2, TokenKind::Ident, "fut"), tok(3, TokenKind::CloseParen, ")")],
        vec![(2, 2, path(20))],
        Vec::new(),
    );
    assert_eq!(path_id(&emit_expr_macro(&pin)), 20);
    let inline = facts(MacroKind::Inline(Expansion::Expr(path(77))), open.clone_tokens(), Vec::new(), Vec::new());
    assert_eq!(path_id(&emit_expr_macro(&inline)), 77);
    let stmts = facts(
        MacroKind::Inline(Expansion::Stmts { statements: ChildrenContainer::Empty, tail_expr: Some(Box::new(path(78))) }),
        open.clone_tokens(),
        Vec::new(),
        Vec::new(),
    );
    match emit_expr_macro(&stmts) {
        Expr::MacroStmts(m) => {
            assert_eq!(path_id(m.tail_expr.as_ref().unwrap()), 78);
            assert!(matches!(m.node_info, NodeInfo::Ast(AstRef { id: 100 })));
        },
        _ => panic!("not macro statements"),
    }
}

trait CloneTokens {
    fn clone_tokens(&self) -> Vec<TokenTreeElement>;
}

impl CloneTokens for Vec<TokenTreeElement> {
    fn clone_tokens(&self) -> Vec<TokenTreeElement> {
        self.iter()
            .map(|t| match t {
                TokenTreeElement::Token { id, kind, text } => TokenTreeElement::Token { id: *id, kind: *kind, text: text.clone() },
                TokenTreeElement::Node { id } => TokenTreeElement::Node { id: *id },
            })
            .collect()
    }
}
