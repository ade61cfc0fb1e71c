use rust_to_cs_compiler::eir::{
    ArithOp, AstRef, BinaryOp, ChildrenContainer, CmpOp, IdentPat, Literal, LiteralKind, LiteralPat, LogicOp,
    NameRef, NodeInfo, OrPat, Pat, Path, PathPat, RangeOp, RangePat, RecordPat, RecordPatField,
    RecordPatFieldList, RefPat, RestPat, SlicePat, SlicePatComponents, TuplePat, TupleStructPat, UnaryOp,
    WildcardPat,
};
use rust_to_cs_compiler::emitter::{
    bin_op_str, collect_bindings_in_pat, emit_bin_expr, emit_call_expr, emit_literal, emit_prefix_expr,
    visitor_method, BindingNames, LiteralValue,
};
use rust_to_cs_compiler::function_resolution::{ResolvedFunction, TypeRef};
use rust_to_cs_compiler::options::ArgSource;
use rust_to_cs_compiler::output::Code;
use rust_to_cs_compiler::patterns::{emit_pattern, PatFact, PatFacts};

fn code(s: &str) -> Code {
    Code::from(s)
}

fn text(c: Code) -> String {
    c.finish().trim_end_matches('\n').to_string()
}

fn ast(id: u64) -> NodeInfo<AstRef> {
    NodeInfo::Ast(AstRef { id })
}

fn ident(id: u64, binds_local: bool, sub: Option<Pat>) -> Pat {
    Pat::IdentPat(IdentPat { name: AstRef { id }, pat: sub.map(Box::new), binds_local, node_info: ast(id) })
}

fn lit_pat(id: u64) -> Pat {
    Pat::LiteralPat(LiteralPat {
        literal: Literal { kind: LiteralKind::IntNumber(AstRef { id }), node_info: ast(id) },
        node_info: ast(id),
    })
}

fn rest() -> Pat {
    Pat::RestPat(RestPat { node_info: NodeInfo::NoAst })
}

fn tuple_struct(id: u64, fields: Vec<Pat>) -> Pat {
    Pat::TupleStructPat(TupleStructPat {
        path: Path::Ast(AstRef { id }),
        fields: ChildrenContainer::from_vec(fields),
        node_info: ast(id),
    })
}

fn static_fn(args_map: Option<Vec<ArgSource>>) -> ResolvedFunction {
    ResolvedFunction::Static {
        self_ty: TypeRef { id: 1, cs: "Foo".to_string() },
        trait_: None,
        function_name: "m_new".to_string(),
        generic_sources: Vec::new(),
        generic_args: Vec::new(),
        args_map,
    }
}

fn method(name: &str, args_map: Option<(ArgSource, Vec<ArgSource>)>) -> ResolvedFunction {
    ResolvedFunction::Method {
        self_ty: TypeRef { id: 1, cs: "Foo".to_string() },
        trait_: None,
        function_name: name.to_string(),
        generic_sources: Vec::new(),
        generic_args: Vec::new(),
        args_map,
    }
}

#[test]
fn static_call_with_type_arguments() {
    let r = emit_call_expr(&static_fn(None), &vec![code("1"), code("2")], "global::Foo", &vec!["int".to_string()]);
    assert_eq!(text(r), "global::Foo.m_new<int>(1, 2)");
    let map = vec![ArgSource::Source(1), ArgSource::CustomExpr(code("x")), ArgSource::Source(0)];
    let r = emit_call_expr(&static_fn(Some(map)), &vec![code("1"), code("2")], "global::Foo", &Vec::new());
    assert_eq!(text(r), "global::Foo.m_new(2, x, 1)");
}

#[test]
fn method_call_on_receiver() {
    let args = || vec![code("v"), code("3")];
    let r = emit_call_expr(&method("m_len", None), &args(), "", &vec!["T".to_string()]);
    assert_eq!(text(r), "v.m_len(3)");
    let r = emit_call_expr(&method("m_VisitStr", None), &args(), "", &vec!["T".to_string()]);
    assert_eq!(text(r), "v.m_VisitStr<T>(3)");
    let r = emit_call_expr(
        &method("m_len", Some((ArgSource::Source(1), vec![ArgSource::Source(0)]))),
        &args(),
        "",
        &Vec::new(),
    );
    assert_eq!(text(r), "3.m_len(v)");
    let r = emit_call_expr(&method("m_len", None), &vec![code("v")], "", &Vec::new());
    assert_eq!(text(r), "v.m_len()");
}

#[test]
fn module_function_and_omitted_call() {
    let f = ResolvedFunction::ModuleFunction {
        function_path: "global::mod_m.m_f".to_string(),
        generic_sources: Vec::new(),
        generic_args: Vec::new(),
        args_map: None,
    };
    let r = emit_call_expr(&f, &vec![code("a")], "", &vec!["A".to_string(), "B".to_string()]);
    assert_eq!(text(r), "global::mod_m.m_f<A, B>(a)");
    let omit = ResolvedFunction::OmitCall { comment: "/* into */".to_string() };
    let r = emit_call_expr(&omit, &vec![code("x"), code("y")], "", &Vec::new());
    assert_eq!(text(r), "/* into */(x)");
}

#[test]
fn visitor_methods_recognized() {
    assert!(visitor_method("m_VisitSeq"));
    assert!(visitor_method("m_NewDedupForwarderVisitor"));
    assert!(!visitor_method("m_Visit"));
    assert!(!visitor_method("m_len"));
}

#[test]
fn literals_rendered() {
    assert_eq!(text(emit_literal(&LiteralValue::Bool(true))), "true");
    assert_eq!(text(emit_literal(&LiteralValue::Bool(false))), "false");
    assert_eq!(text(emit_literal(&LiteralValue::Int(42))), "42");
    assert_eq!(text(emit_literal(&LiteralValue::Byte(7))), "7");
    assert_eq!(text(emit_literal(&LiteralValue::Float("1.5e3".to_string()))), "1.5e3");
    assert_eq!(text(emit_literal(&LiteralValue::Char('a'))), "'a'");
    assert_eq!(text(emit_literal(&LiteralValue::Char('\''))), "'\\''");
    assert_eq!(text(emit_literal(&LiteralValue::Str("a\"b\\c\td".to_string()))), "\"a\\\"b\\\\c\\td\"");
    assert_eq!(text(emit_literal(&LiteralValue::ByteString)), "/* byte string */ new byte[] {}");
    assert_eq!(text(emit_literal(&LiteralValue::CString)), "/* cstring */ \"\"");
}

#[test]
fn escapes_agree_with_std() {
    for c in ['\t', '\r', '\n', '\'', '"', '\\', ' ', '~', '\0', '\u{7f}', 'é', '\u{2764}', '\u{1f600}'] {
        let expected = format!("'{}'", c.escape_default());
        assert_eq!(text(emit_literal(&LiteralValue::Char(c))), expected);
    }
    let s = "tab\there \u{7f} é \u{1f600} \"q\"";
    assert_eq!(text(emit_literal(&LiteralValue::Str(s.to_string()))), format!("\"{}\"", s.escape_default()));
}

#[test]
fn operators_rendered() {
    let le = BinaryOp::CmpOp(CmpOp::Ord { greater: false, strict: false });
    assert_eq!(text(emit_bin_expr(code("a"), le, code("b"), false)), "(a <= b)");
    let add_assign = BinaryOp::Assignment { op: Some(ArithOp::Add) };
    assert_eq!(text(emit_bin_expr(code("a"), add_assign, code("b"), true)), "a += b");
    assert_eq!(bin_op_str(BinaryOp::LogicOp(LogicOp::Or)), "&&");
    assert_eq!(bin_op_str(BinaryOp::LogicOp(LogicOp::And)), "&&");
    let or = BinaryOp::LogicOp(LogicOp::Or);
    assert_eq!(text(emit_bin_expr(code("a"), or, code("b"), false)), "(a && b)");
    assert_eq!(text(emit_bin_expr(code("a"), or, code("b"), true)), "a && b");
    assert_eq!(bin_op_str(BinaryOp::CmpOp(CmpOp::Eq { negated: true })), "!=");
    assert_eq!(bin_op_str(BinaryOp::Assignment { op: None }), "=");
    assert_eq!(bin_op_str(BinaryOp::ArithOp(ArithOp::Shr)), ">>");
    assert_eq!(text(emit_prefix_expr(UnaryOp::Not, code("x"))), "!(x)");
    assert_eq!(text(emit_prefix_expr(UnaryOp::Neg, code("x"))), "-(x)");
    assert_eq!(text(emit_prefix_expr(UnaryOp::Deref, code("x"))), "(/* deref_op */x)");
}

#[test]
fn binding_names_count_per_rust_name() {
    let mut n = BindingNames::new();
    assert_eq!(n.alloc_binding(AstRef { id: 1 }, "x"), "l_x_0");
    assert_eq!(n.alloc_binding(AstRef { id: 2 }, "x"), "l_x_1");
    assert_eq!(n.alloc_binding(AstRef { id: 3 }, "y"), "l_y_0");
    assert_eq!(n.count("x"), 2);
    assert_eq!(n.count("z"), 0);
    assert_eq!(n.binding_name(AstRef { id: 1 }), Some("l_x_0".to_string()));
    assert_eq!(n.binding_name(AstRef { id: 3 }), Some("l_y_0".to_string()));
    assert_eq!(n.binding_name(AstRef { id: 9 }), None);
}

#[test]
fn bindings_collected_in_order() {
    let slice = Pat::SlicePat(SlicePat {
        components: SlicePatComponents {
            prefix: ChildrenContainer::from_vec(vec![ident(4, true, None)]),
            slice: Some(Box::new(ident(5, true, None))),
            suffix: ChildrenContainer::from_vec(vec![ident(6, true, None)]),
            node_info: NodeInfo::NoAst,
        },
        node_info: NodeInfo::NoAst,
    });
    let p = Pat::TuplePat(TuplePat {
        fields: ChildrenContainer::from_vec(vec![
            ident(1, true, Some(ident(2, true, None))),
            ident(3, false, None),
            slice,
        ]),
        node_info: NodeInfo::NoAst,
    });
    let ids: Vec<u64> = collect_bindings_in_pat(&p).iter().map(|a| a.id).collect();
    assert_eq!(ids, vec![1, 2, 4, 5, 6]);
}

fn facts() -> PatFacts {
    PatFacts {
        facts: vec![
            (10, PatFact::Constructable { cs_name: "global::E.Some".to_string(), field_count: 2 }),
            (11, PatFact::Local("x".to_string())),
            (12, PatFact::Literal(LiteralValue::Int(3))),
            (13, PatFact::Constructable { cs_name: "global::E.Three".to_string(), field_count: 3 }),
            (14, PatFact::Local("y".to_string())),
            (15, PatFact::ConstructableIdent("global::E.None".to_string())),
            (16, PatFact::Unresolved("foo::bar".to_string())),
            (17, PatFact::TupleArity(3)),
            (18, PatFact::Constructable { cs_name: "global::P".to_string(), field_count: 2 }),
            (19, PatFact::Local("z".to_string())),
        ],
        names: vec![(40, "b".to_string())],
    }
}

fn emit(p: &Pat, names: &mut BindingNames) -> String {
    text(emit_pattern(p, &facts(), names))
}

#[test]
fn tuple_struct_patterns_fill_fields() {
    let mut names = BindingNames::new();
    let p = tuple_struct(10, vec![ident(11, true, None), rest()]);
    assert_eq!(emit(&p, &mut names), "global::E.Some{f_0: var l_x_0,f_1: _}");
    let p = tuple_struct(10, vec![rest()]);
    assert_eq!(emit(&p, &mut names), "global::E.Some{f_0: _,f_1: _}");
    let p = tuple_struct(13, vec![rest(), lit_pat(12)]);
    assert_eq!(emit(&p, &mut names), "global::E.Three{f_0: _,f_1: _,f_2: 3}");
    let p = tuple_struct(13, vec![ident(11, true, None), rest(), ident(14, true, None)]);
    assert_eq!(emit(&p, &mut names), "global::E.Three{f_0: var l_x_1,f_1: _,f_2: var l_y_0}");
    let p = tuple_struct(10, vec![lit_pat(12), ident(11, true, None)]);
    assert_eq!(emit(&p, &mut names), "global::E.Some{f_0: 3,f_1: var l_x_2}");
    let p = tuple_struct(16, vec![lit_pat(12)]);
    assert_eq!(emit(&p, &mut names), "Unknown");
}

#[test]
fn suffix_patterns_bind_from_the_last() {
    let mut names = BindingNames::new();
    let p = tuple_struct(13, vec![rest(), ident(11, true, None), ident(11, true, None)]);
    assert_eq!(emit(&p, &mut names), "global::E.Three{f_0: _,f_1: var l_x_1,f_2: var l_x_0}");
}

#[test]
fn other_patterns_rendered() {
    let mut names = BindingNames::new();
    let wildcard = Pat::WildcardPat(WildcardPat { node_info: NodeInfo::NoAst });
    let or = Pat::OrPat(OrPat {
        pats: ChildrenContainer::from_vec(vec![lit_pat(12), wildcard]),
        node_info: NodeInfo::NoAst,
    });
    assert_eq!(emit(&or, &mut names), "(3 or {} _)");
    let range = Pat::RangePat(RangePat {
        start: Some(Box::new(lit_pat(12))),
        end: Some(Box::new(lit_pat(12))),
        op_kind: RangeOp::Inclusive,
        node_info: NodeInfo::NoAst,
    });
    assert_eq!(emit(&range, &mut names), "(>=3 and <=3)");
    let below = Pat::RangePat(RangePat { start: None, end: Some(Box::new(lit_pat(12))), op_kind: RangeOp::Exclusive, node_info: NodeInfo::NoAst });
    assert_eq!(emit(&below, &mut names), "(<3)");
    let from = Pat::RangePat(RangePat { start: Some(Box::new(lit_pat(12))), end: None, op_kind: RangeOp::Exclusive, node_info: NodeInfo::NoAst });
    assert_eq!(emit(&from, &mut names), "(>=3)");
    let tuple = Pat::TuplePat(TuplePat {
        fields: ChildrenContainer::from_vec(vec![ident(14, true, None), rest()]),
        node_info: ast(17),
    });
    assert_eq!(emit(&tuple, &mut names), "(var l_y_0,_,_)");
    assert_eq!(emit(&ident(15, false, None), &mut names), "global::E.None");
    let bound = ident(19, true, Some(lit_pat(12)));
    assert_eq!(emit(&bound, &mut names), "3 l_z_0");
    let path = Pat::PathPat(PathPat { path: Path::Ast(AstRef { id: 16 }), node_info: ast(16) });
    assert_eq!(emit(&path, &mut names), "Unknown /* bad path resolution: foo::bar */");
    let reference = Pat::RefPat(RefPat { pat: Box::new(ident(14, true, None)), mut_token: false, node_info: NodeInfo::NoAst });
    assert_eq!(emit(&reference, &mut names), "var l_y_1");
    let slice = Pat::SlicePat(SlicePat {
        components: SlicePatComponents {
            prefix: ChildrenContainer::from_vec(vec![lit_pat(12), ident(14, true, None)]),
            slice: None,
            suffix: ChildrenContainer::from_vec(Vec::new()),
            node_info: NodeInfo::NoAst,
        },
        node_info: NodeInfo::NoAst,
    });
    assert_eq!(emit(&slice, &mut names), "[3,var l_y_2]");
}

#[test]
fn record_patterns_name_fields() {
    let mut names = BindingNames::new();
    let fields = vec![
        RecordPatField { name_ref: NameRef::CSharp("a".to_string()), pat: ident(14, true, None), node_info: NodeInfo::NoAst },
        RecordPatField { name_ref: NameRef::Ast(AstRef { id: 40 }), pat: lit_pat(12), node_info: NodeInfo::NoAst },
    ];
    let p = Pat::RecordPat(RecordPat {
        path: Path::Ast(AstRef { id: 18 }),
        record_pat_field_list: RecordPatFieldList {
            fields: ChildrenContainer::from_vec(fields),
            rest: false,
            node_info: NodeInfo::NoAst,
        },
        node_info: ast(18),
    });
    assert_eq!(emit(&p, &mut names), "global::P{f_a: var l_y_0,f_b: 3}");
    let empty = Pat::RecordPat(RecordPat {
        path: Path::Ast(AstRef { id: 18 }),
        record_pat_field_list: RecordPatFieldList {
            fields: ChildrenContainer::from_vec(Vec::new()),
            rest: true,
            node_info: NodeInfo::NoAst,
        },
        node_info: ast(18),
    });
    assert_eq!(emit(&empty, &mut names), "global::P{}");
    let unresolved = Pat::RecordPat(RecordPat {
        path: Path::Ast(AstRef { id: 16 }),
        record_pat_field_list: RecordPatFieldList {
            fields: ChildrenContainer::from_vec(Vec::new()),
            rest: false,
            node_info: NodeInfo::NoAst,
        },
        node_info: ast(16),
    });
    assert_eq!(emit(&unresolved, &mut names), "Unknown /* Bad record path resolution: foo::bar */");
}
