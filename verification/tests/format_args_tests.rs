use rust_to_cs_compiler::eir::{
    AstRef, Expr, FormatArgsSegment, Literal, LiteralKind, MethodCallExpr, NameRef, NodeInfo, Path,
    PathExpr,
};
use rust_to_cs_compiler::format_args::{
    emit_format_args_to_string, parse_format_string, FormatSegment, PlaceholderArg,
};

fn describe(segments: &[FormatSegment]) -> Vec<String> {
    segments
        .iter()
        .map(|s| match s {
            FormatSegment::Literal(t) => format!("lit:{t}"),
            FormatSegment::Braces(c) => format!("brace:{c}"),
            FormatSegment::Placeholder(PlaceholderArg::Index(i), f) => format!("arg{i}:{f}"),
            FormatSegment::Placeholder(PlaceholderArg::Name(n), f) => format!("name {n}:{f}"),
        })
        .collect()
}

fn lit(id: u64) -> Expr {
    Expr::Literal(Literal { kind: LiteralKind::IntNumber(AstRef { id }), node_info: NodeInfo::Ast(AstRef { id }) })
}

#[test]
fn plain_text_is_one_literal() {
    let segs = parse_format_string("hello").unwrap();
    assert_eq!(describe(&segs), vec!["lit:hello"]);
    assert_eq!(describe(&parse_format_string("").unwrap()), Vec::<String>::new());
}

#[test]
fn placeholders_are_numbered_in_order() {
    let segs = parse_format_string("a{}b{}{0}{name:?}").unwrap();
    assert_eq!(
        describe(&segs),
        vec!["lit:a", "arg0:", "lit:b", "arg1:", "arg0:", "name name:?"]
    );
}

#[test]
fn escaped_braces() {
    let segs = parse_format_string("{{x}}").unwrap();
    assert_eq!(describe(&segs), vec!["brace:{", "lit:x", "brace:}"]);
}

#[test]
fn explicit_index_with_sign() {
    let segs = parse_format_string("{+2}{-1}").unwrap();
    assert_eq!(describe(&segs), vec!["arg2:", "name -1:"]);
}

#[test]
fn invalid_format_strings() {
    assert!(parse_format_string("a}b").is_none());
    assert!(parse_format_string("{").is_none());
    assert!(parse_format_string("{x:?").is_none());
}

#[test]
fn too_large_index_is_a_name() {
    let segs = parse_format_string("{18446744073709551616}").unwrap();
    assert_eq!(describe(&segs), vec!["name 18446744073709551616:"]);
    let segs = parse_format_string("{18446744073709551615}").unwrap();
    assert_eq!(describe(&segs), vec!["arg18446744073709551615:"]);
}

#[test]
fn segments_become_formatting_calls() {
    let segs = parse_format_string("v={} {:?} {who}{{").unwrap();
    let exprs = vec![lit(1), lit(2)];
    let named = vec![];
    let out = emit_format_args_to_string(&segs, &exprs, &named, AstRef { id: 99 });
    let v = out.segments.into_iter();
    assert_eq!(v.len(), 7);
    assert!(matches!(&v[0], FormatArgsSegment::Literal(t) if t == "v="));
    match &v[1] {
        FormatArgsSegment::Expr(Expr::MethodCallExpr(MethodCallExpr { receiver, name_ref: NameRef::CSharp(m), .. })) => {
            assert_eq!(m, "DisplayStr");
            assert!(matches!(**receiver, Expr::Literal(Literal { kind: LiteralKind::IntNumber(AstRef { id: 1 }), .. })));
        },
        _ => panic!("expected a call"),
    }
    match &v[3] {
        FormatArgsSegment::Expr(Expr::MethodCallExpr(MethodCallExpr { receiver, name_ref: NameRef::CSharp(m), .. })) => {
            assert_eq!(m, "DebugStr");
            assert!(matches!(**receiver, Expr::Literal(Literal { kind: LiteralKind::IntNumber(AstRef { id: 2 }), .. })));
        },
        _ => panic!("expected a call"),
    }
    match &v[5] {
        FormatArgsSegment::Expr(Expr::MethodCallExpr(MethodCallExpr { receiver, .. })) => match &**receiver {
            Expr::PathExpr(PathExpr { path: Path::ScopedName { scope, name }, .. }) => {
                assert_eq!(scope.id, 99);
                assert_eq!(name, "who");
            },
            _ => panic!("expected a scoped name"),
        },
        _ => panic!("expected a call"),
    }
    assert!(matches!(&v[6], FormatArgsSegment::Braces('{')));
}

#[test]
fn named_arguments_last_binding_wins() {
    let segs = parse_format_string("{a}").unwrap();
    let named = vec![("a".to_string(), lit(1)), ("a".to_string(), lit(2))];
    let out = emit_format_args_to_string(&segs, &vec![], &named, AstRef { id: 0 });
    let v = out.segments.into_iter();
    match &v[0] {
        FormatArgsSegment::Expr(Expr::MethodCallExpr(MethodCallExpr { receiver, .. })) => {
            assert!(matches!(**receiver, Expr::Literal(Literal { kind: LiteralKind::IntNumber(AstRef { id: 2 }), .. })));
        },
        _ => panic!("expected a call"),
    }
}
