use rust_to_cs_compiler::consts::{as_i128_pad_le, as_u128_pad_le};
use rust_to_cs_compiler::delay_format::DelayedFormatString;
use rust_to_cs_compiler::id_map::IdMap;
use rust_to_cs_compiler::item::{
    compile_crate, compile_enum, compile_fn, compile_impl, compile_struct, FieldDef, FnDef, ImplItem, ImplSelfTy,
    Item, VarDebugInfo, VariantDef,
};
use rust_to_cs_compiler::mir::{
    bb_label, compile_mir_body, compile_terminator, local_cs_name, place_cs, rvalue_cs, AggregateKind,
    BasicBlockData, BinOp, Body, MirConst, Operand, Place, PlaceElem, Rvalue, Statement, TerminatorKind, UnOp,
};
use rust_to_cs_compiler::options::{CsTypeOption, EmittedExprInfo, ExprGenOption};
use rust_to_cs_compiler::output::Code;
use rust_to_cs_compiler::types::{
    def_id_to_cs_path, join_strings, ty_to_cs, DefPath, DefPathSeg, FloatTy, GenericArg, IntTy, RustTy, UintTy,
};
use rust_to_cs_compiler::writer::CsWriter;

fn place(local: usize) -> Place {
    Place { local, projection: Vec::new() }
}

fn path(crate_name: &str, segs: Vec<DefPathSeg>) -> DefPath {
    DefPath { crate_name: crate_name.to_string(), data: segs }
}

#[test]
fn cs_path_of_nested_struct() {
    let p = path("my_crate", vec![DefPathSeg::TypeNs("geo".to_string()), DefPathSeg::TypeNs("Point".to_string())]);
    assert_eq!(def_id_to_cs_path(&p), "global::mod_my_crate.mod_geo.s_Point");
    let q = path(
        "c",
        vec![DefPathSeg::Impl, DefPathSeg::ValueNs("run".to_string()), DefPathSeg::MacroNs("m".to_string())],
    );
    assert_eq!(def_id_to_cs_path(&q), "global::mod_c.m_run.m");
}

#[test]
fn join_strings_separates() {
    let xs = vec!["a".to_string(), "b".to_string(), "c".to_string()];
    assert_eq!(join_strings(&xs, ", "), "a, b, c");
    assert_eq!(join_strings(&Vec::new(), ", "), "");
}

#[test]
fn rust_types_mapped() {
    assert_eq!(ty_to_cs(&RustTy::Tuple(Vec::new())).unwrap(), "global::r2CsRuntime.Void");
    assert_eq!(ty_to_cs(&RustTy::Tuple(vec![RustTy::Int(IntTy::I32), RustTy::Bool])).unwrap(), "(int, bool)");
    assert_eq!(
        ty_to_cs(&RustTy::Ref(Box::new(RustTy::Slice(Box::new(RustTy::Uint(UintTy::U8)))))).unwrap(),
        "global::r2CsRuntime.LenRef<global::r2CsRuntime.Slice<byte>>"
    );
    assert_eq!(ty_to_cs(&RustTy::Ref(Box::new(RustTy::Str))).unwrap(), "string");
    assert_eq!(ty_to_cs(&RustTy::Ref(Box::new(RustTy::Int(IntTy::I64)))).unwrap(), "global::r2CsRuntime.Ref<long>");
    assert_eq!(
        ty_to_cs(&RustTy::RawPtr(Box::new(RustTy::Float(FloatTy::F64)))).unwrap(),
        "global::r2CsRuntime.Pointer<double>"
    );
    let vec_path = path("alloc", vec![DefPathSeg::TypeNs("vec".to_string()), DefPathSeg::TypeNs("Vec".to_string())]);
    assert_eq!(
        ty_to_cs(&RustTy::Adt(vec_path, vec![GenericArg::Type(RustTy::Char), GenericArg::Lifetime])).unwrap(),
        "global::mod_alloc.mod_vec.s_Vec<char>"
    );
    assert_eq!(ty_to_cs(&RustTy::Param("T".to_string())).unwrap(), "P_T");
    assert_eq!(ty_to_cs(&RustTy::Never).unwrap(), "global::r2CsRuntime.Void");
    assert!(ty_to_cs(&RustTy::Dynamic).is_none());
    assert!(ty_to_cs(&RustTy::Tuple(vec![RustTy::Bool, RustTy::Other])).is_none());
}

#[test]
fn places_and_rvalues() {
    assert_eq!(local_cs_name(7), "_7");
    assert_eq!(bb_label(12), "_bb12");
    let p = Place { local: 3, projection: vec![PlaceElem::Deref, PlaceElem::Field(0, "f_x".to_string())] };
    assert_eq!(place_cs(&p), "(*_3).f_x");
    let q = Place {
        local: 1,
        projection: vec![PlaceElem::Index(2), PlaceElem::ConstantIndex(4), PlaceElem::Downcast(1)],
    };
    assert_eq!(place_cs(&q), "_1[_2][4] /* downcast variant 1 */");
    let add = Rvalue::BinaryOp(BinOp::Add, Operand::Copy(place(1)), Operand::Constant(MirConst::Int(5)));
    assert_eq!(rvalue_cs(&add), "(_1 + 5)");
    let lt = Rvalue::BinaryOp(BinOp::Lt, Operand::Move(place(1)), Operand::Move(place(2)));
    assert_eq!(rvalue_cs(&lt), "(_1 < _2)");
    assert_eq!(rvalue_cs(&Rvalue::UnaryOp(UnOp::Not, Operand::Copy(place(4)))), "(!_4)");
    assert_eq!(rvalue_cs(&Rvalue::UnaryOp(UnOp::Neg, Operand::Copy(place(4)))), "(-_4)");
    let tuple = Rvalue::Aggregate(AggregateKind::Tuple, vec![Operand::Copy(place(1)), Operand::Move(place(2))]);
    assert_eq!(rvalue_cs(&tuple), "(_1, _2)");
    let point = path("my_crate", vec![DefPathSeg::TypeNs("Point".to_string())]);
    let adt = Rvalue::Aggregate(
        AggregateKind::Adt(point, vec!["x".to_string(), "y".to_string()]),
        vec![Operand::Constant(MirConst::Int(1)), Operand::Constant(MirConst::Int(2))],
    );
    assert_eq!(rvalue_cs(&adt), "new global::mod_my_crate.s_Point { f_x = 1, f_y = 2 }");
    assert_eq!(rvalue_cs(&Rvalue::Use(Operand::Constant(MirConst::ZeroSized))), "default");
}

fn terminator_text(k: &TerminatorKind) -> String {
    let mut w = CsWriter::new();
    compile_terminator(k, &mut w);
    w.finish()
}

#[test]
fn terminators_emitted() {
    assert_eq!(terminator_text(&TerminatorKind::Return), "return _0;\n");
    assert_eq!(terminator_text(&TerminatorKind::Goto(3)), "goto _bb3;\n");
    assert_eq!(terminator_text(&TerminatorKind::Goto(0)), "goto _entry;\n");
    let two_way = TerminatorKind::SwitchInt { discr: Operand::Copy(place(1)), targets: vec![(0, 2)], otherwise: 3 };
    assert_eq!(terminator_text(&two_way), "if ((_1) == 0)\n{\n    goto _bb2;\n}\nelse\n{\n    goto _bb3;\n}\n");
    let many = TerminatorKind::SwitchInt {
        discr: Operand::Copy(place(1)),
        targets: vec![(0, 1), (1, 2)],
        otherwise: 3,
    };
    assert_eq!(
        terminator_text(&many),
        "switch (_1)\n{\n    case 0:\n        goto _bb1;\n    case 1:\n        goto _bb2;\n    default:\n        goto _bb3;\n}\n"
    );
    let call = TerminatorKind::Call {
        func: Operand::Constant(MirConst::ZeroSized),
        args: vec![Operand::Copy(place(1)), Operand::Constant(MirConst::Int(9))],
        destination: place(0),
        target: Some(1),
    };
    assert_eq!(terminator_text(&call), "_0 = default(_1, 9);\ngoto _bb1;\n");
    let s = path("c", vec![DefPathSeg::TypeNs("S".to_string())]);
    let drop = TerminatorKind::Drop { place: place(1), place_ty: RustTy::Adt(s, Vec::new()), target: 2 };
    assert_eq!(terminator_text(&drop), "/* drop */ ((global::mod_c.s_S)_1).Dispose();\ngoto _bb2;\n");
    let drop_unknown = TerminatorKind::Drop { place: place(1), place_ty: RustTy::Other, target: 2 };
    assert_eq!(terminator_text(&drop_unknown), "goto _bb2;\n");
    assert_eq!(
        terminator_text(&TerminatorKind::Unreachable),
        "throw new global::System.InvalidOperationException(\"unreachable\");\n"
    );
    assert_eq!(
        terminator_text(&TerminatorKind::UnwindResume),
        "throw new global::r2CsRuntime.PanicException(\"unwind\");\n"
    );
}

#[test]
fn mir_body_declares_locals_and_labels_blocks() {
    let body = Body {
        arg_count: 1,
        local_decls: vec![RustTy::Int(IntTy::I32), RustTy::Int(IntTy::I32), RustTy::Bool, RustTy::Other],
        basic_blocks: vec![
            BasicBlockData {
                statements: vec![
                    Statement::StorageLive(2),
                    Statement::Assign(place(2), Rvalue::Use(Operand::Constant(MirConst::Int(1)))),
                ],
                terminator: Some(TerminatorKind::Goto(1)),
            },
            BasicBlockData { statements: Vec::new(), terminator: Some(TerminatorKind::Return) },
        ],
    };
    let mut w = CsWriter::new();
    compile_mir_body(&body, &mut w);
    assert_eq!(
        w.finish(),
        "bool _2 = default;\nobject /* unknown */ _3 = default;\n_2 = 1;\ngoto _bb1;\n_bb1: ;\nreturn _0;\n"
    );
}

fn add_fn() -> FnDef {
    FnDef {
        name: "add".to_string(),
        param_tys: vec![RustTy::Int(IntTy::I32), RustTy::Int(IntTy::I32)],
        ret_ty: RustTy::Int(IntTy::I32),
        body: Body {
            arg_count: 2,
            local_decls: vec![RustTy::Int(IntTy::I32), RustTy::Int(IntTy::I32), RustTy::Int(IntTy::I32)],
            basic_blocks: vec![BasicBlockData {
                statements: vec![Statement::Assign(
                    place(0),
                    Rvalue::BinaryOp(BinOp::Add, Operand::Copy(place(1)), Operand::Copy(place(2))),
                )],
                terminator: Some(TerminatorKind::Return),
            }],
        },
        var_debug_info: vec![
            VarDebugInfo { name: "a".to_string(), place: Some(place(1)) },
            VarDebugInfo { name: "b".to_string(), place: Some(place(2)) },
        ],
    }
}

#[test]
fn function_signature_names_parameters() {
    let mut w = CsWriter::new();
    compile_fn(&add_fn(), &mut w);
    assert_eq!(
        w.finish(),
        "public static int m_add(int _1 /* a */, int _2 /* b */)\n{\n    _0 = (_1 + _2);\n    return _0;\n}\n"
    );
}

#[test]
fn struct_fields_emitted() {
    let fields = vec![
        FieldDef { name: "x".to_string(), ty: RustTy::Int(IntTy::I32) },
        FieldDef { name: "y".to_string(), ty: RustTy::Int(IntTy::I64) },
    ];
    let mut w = CsWriter::new();
    compile_struct("Point", &fields, &mut w);
    assert_eq!(w.finish(), "public struct s_Point\n{\n    public int f_x;\n    public long f_y;\n}\n");
}

#[test]
fn enum_as_tagged_union() {
    let variants = vec![
        VariantDef {
            name: "Circle".to_string(),
            fields: vec![FieldDef { name: "r".to_string(), ty: RustTy::Float(FloatTy::F64) }],
        },
        VariantDef { name: "Empty".to_string(), fields: Vec::new() },
    ];
    let mut w = CsWriter::new();
    compile_enum("Shape", &variants, &mut w);
    assert_eq!(
        w.finish(),
        "public struct s_Shape\n{\n    public byte f_discriminant;\n    public s_Shape_Circle f_Circle;\n\n    public struct s_Shape_Circle\n    {\n        public double f_r;\n    }\n\n    public const byte k_Circle = 0;\n    public const byte k_Empty = 1;\n}\n"
    );
}

#[test]
fn inherent_impl_extends_partial_struct() {
    let s = path("c", vec![DefPathSeg::TypeNs("m".to_string()), DefPathSeg::TypeNs("S".to_string())]);
    let mut w = CsWriter::new();
    compile_impl(&ImplSelfTy::Path(Some(s)), &vec![ImplItem::Other], &mut w);
    assert_eq!(w.finish(), "public partial struct s_S\n{\n}\n");
    let mut w = CsWriter::new();
    compile_impl(&ImplSelfTy::Other, &Vec::new(), &mut w);
    assert_eq!(w.finish(), "public partial struct Impl\n{\n}\n");
}

#[test]
fn crate_wraps_items_in_module_class() {
    let items = vec![
        Item::Struct { name: "P".to_string(), fields: Vec::new() },
        Item::Impl { of_trait: true, self_ty: ImplSelfTy::Other, items: Vec::new() },
        Item::Mod { name: "inner".to_string(), items: Vec::new() },
        Item::Other,
    ];
    let mut w = CsWriter::new();
    compile_crate("demo", &items, &mut w);
    assert_eq!(
        w.finish(),
        "// <auto-generated/>\n#nullable enable\n\npublic static partial class mod_demo\n{\n\n    public struct s_P\n    {\n    }\n\n    public static partial class mod_inner\n    {\n    }\n}\n"
    );
}

#[test]
fn code_buffer_renders_indentation() {
    let mut c = Code::new();
    assert!(c.is_empty());
    c.wln("class A");
    c.open_brace();
    c.w("int x = ").w(42u32).wln(";");
    c.close_brace();
    assert!(!c.is_empty());
    assert_eq!(c.finish(), "class A\n{\n    int x = 42;\n}\n");
}

#[test]
fn code_blank_line_never_doubles() {
    let mut c = Code::new();
    c.wln("a");
    c.blank_line();
    c.blank_line();
    c.wln("b");
    assert_eq!(c.finish(), "a\n\nb\n");
}

#[test]
fn id_map_hands_out_stable_ids() {
    let mut m: IdMap<u64> = IdMap::new("id");
    assert_eq!(m.id_name(&5), "id_0");
    assert_eq!(m.id_name(&7), "id_1");
    assert_eq!(m.id_name(&5), "id_0");
    assert_eq!(m.get_id(&9), 2);
    assert_eq!(m.get_id(&7), 1);
}

#[test]
fn delayed_format_renders_in_order() {
    let mut d: DelayedFormatString<u32> = DelayedFormatString::new();
    d.push_str("x = ");
    d.push(5);
    d.push_str(", v = [");
    d.push_join(vec![1, 2, 3], ", ");
    d.push_str("]");
    assert_eq!(d.format(|v: &u32| v.to_string()), "x = 5, v = [1, 2, 3]");
    assert_eq!(d.format(|v: &u32| format!("<{}>", v)), "x = <5>, v = [<1>, <2>, <3>]");
}

#[test]
fn delayed_format_calls_in_push_order() {
    let empty: DelayedFormatString<u32> = DelayedFormatString::new();
    let calls = std::cell::RefCell::new(Vec::new());
    assert_eq!(empty.format(|v: &u32| { calls.borrow_mut().push(*v); v.to_string() }), "");
    assert!(calls.borrow().is_empty());
    let mut d: DelayedFormatString<u32> = DelayedFormatString::new();
    d.push(4);
    d.push_join(vec![], "-");
    d.push_join(vec![7], "-");
    d.push_join(vec![8, 9], "+");
    let r = d.format(|v: &u32| {
        calls.borrow_mut().push(*v);
        format!("{}{}", v, calls.borrow().len())
    });
    assert_eq!(r, "417283+94");
    assert_eq!(*calls.borrow(), vec![4, 7, 8, 9]);
}

#[test]
fn little_endian_padding() {
    assert_eq!(as_u128_pad_le(&[]), 0);
    assert_eq!(as_u128_pad_le(&[0x01, 0x02]), 0x0201);
    assert_eq!(as_u128_pad_le(&[0xff; 16]), u128::MAX);
    assert_eq!(as_i128_pad_le(&[0xff]), -1);
    assert_eq!(as_i128_pad_le(&[0x7f]), 127);
    assert_eq!(as_i128_pad_le(&[0x00, 0x80]), -32768);
    assert_eq!(as_i128_pad_le(&[]), 0);
}

#[test]
fn option_records() {
    let o = CsTypeOption::default();
    assert!(o.apply_special && !o.is_static_container && !o.is_static_access);
    let o = o.no_special().static_container(true).static_access(true);
    assert!(!o.apply_special && o.is_static_container && o.is_static_access);
    let r = ExprGenOption::returning();
    assert!(r.returning);
    assert!(!r.non_last().returning);
    let d = EmittedExprInfo::diverging();
    let n = EmittedExprInfo::non_diverging();
    assert!((d | n).diverging);
    assert!(!(d & n).diverging);
    assert!((d & d).diverging);
}
