use rust_to_cs_compiler::decl::{
    build_param_list, cs_ret_type, emit_trait, format_generics, ParamFacts, TraitFacts, TraitItemFacts,
    TraitSelfFacts,
};
use rust_to_cs_compiler::item_exclusion::ItemFacts;
use rust_to_cs_compiler::options::CsFunctionType;
use rust_to_cs_compiler::output::Code;

fn s(x: &str) -> String {
    x.to_string()
}

#[test]
fn return_types_for_async_unit_and_values() {
    assert_eq!(cs_ret_type(true, "int", false), "r2CsRuntime.RustTask<int>");
    assert_eq!(cs_ret_type(true, "global::System.ValueTuple", true), "r2CsRuntime.RustTask<global::System.ValueTuple>");
    assert_eq!(cs_ret_type(false, "global::System.ValueTuple", true), "void");
    assert_eq!(cs_ret_type(false, "long", false), "long");
}

#[test]
fn generic_parameter_lists() {
    assert_eq!(format_generics(&[]), "");
    assert_eq!(format_generics(&[s("P_T")]), "<P_T>");
    assert_eq!(format_generics(&[s("P_T"), s("P_U")]), "<P_T, P_U>");
}

fn two_params() -> Vec<ParamFacts> {
    vec![ParamFacts { cs_ty: s("int"), name: Some(s("x")) }, ParamFacts { cs_ty: s("bool"), name: None }]
}

#[test]
fn parameter_lists_name_bindings_and_positions() {
    let none: Option<TraitSelfFacts> = None;
    assert_eq!(build_param_list(&two_params(), CsFunctionType::Normal, true, &none), "int l_x_0, bool p_1");
    assert_eq!(build_param_list(&Vec::new(), CsFunctionType::Normal, false, &none), "");
    assert_eq!(
        build_param_list(&two_params(), CsFunctionType::TraitStaticStruct, true, &none),
        "int l_x_0, bool p_1"
    );
}

#[test]
fn default_methods_take_self_explicitly() {
    let tr = Some(TraitSelfFacts { itf: s("mod_a.t_Shape"), params: vec![s("Self")] });
    assert_eq!(
        build_param_list(&two_params(), CsFunctionType::TraitDefaultImpl, true, &tr),
        "mod_a.t_Shape<Self> self, int l_x_0, bool p_1"
    );
    assert_eq!(build_param_list(&Vec::new(), CsFunctionType::TraitDefaultImpl, true, &tr), "mod_a.t_Shape<Self> self");
    assert_eq!(build_param_list(&two_params(), CsFunctionType::TraitDefaultImpl, false, &tr), "int l_x_0, bool p_1");
}

#[test]
fn trait_interface_with_constants_and_types() {
    let t = TraitFacts {
        name: s("my_trait"),
        dyn_violations: None,
        params: vec![s("Self"), s("P_T")],
        constraints: vec![s("Self : t_MyTrait<Self, P_T>")],
        super_traits: vec![s("mod_x.t_Clone<Self>")],
        items: vec![
            TraitItemFacts::Const { name: Some(s("MAX")), cs_ty: s("int") },
            TraitItemFacts::Const { name: None, cs_ty: s("int") },
            TraitItemFacts::TypeAlias { alias: s("Item") },
            TraitItemFacts::Function {
                has_self: false,
                explicit_sized_self: true,
                has_body: false,
                item: ItemFacts::Crate(None),
                cfg_check: None,
            },
        ],
    };
    let mut out = Code::new();
    emit_trait(&mut out, &t);
    assert_eq!(
        out.finish(),
        "// dyn compatible\n\
         public interface t_MyTrait<Self, P_T> : mod_x.t_Clone<Self>\n\
         \x20   where Self : t_MyTrait<Self, P_T>\n\
         {\n\
         \x20   int c_MAX(); // const\n\
         \x20   // type A_Item;\n\
         \x20   public static class Defaults\n\
         \x20   {\n\
         \x20   }\n\
         }\n\
         \n"
    );
}

#[test]
fn trait_interface_lists_dyn_violations() {
    let t = TraitFacts {
        name: s("shape"),
        dyn_violations: Some(vec![s("SizedSelf"), s("HasNonLifetimeTypeParam")]),
        params: Vec::new(),
        constraints: Vec::new(),
        super_traits: vec![s("a.t_A"), s("b.t_B")],
        items: Vec::new(),
    };
    let mut out = Code::new();
    out.wln("class C;");
    emit_trait(&mut out, &t);
    assert_eq!(
        out.finish(),
        "class C;\n\
         // dyn incompatible with SizedSelf\n\
         // dyn incompatible with HasNonLifetimeTypeParam\n\
         public interface t_Shape : a.t_A, b.t_B\n\
         {\n\
         \x20   public static class Defaults\n\
         \x20   {\n\
         \x20   }\n\
         }\n\
         \n"
    );
}
