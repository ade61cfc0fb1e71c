use rust_to_cs_compiler::adt::{
    emit_adt_with_impls, emit_constructable_def, emit_impl_methods, AdtFacts, AdtShape, CfgItemFacts,
    ConstructableFacts, FieldFacts, ImplFacts, ImplTraitFacts, StructKind, TraitLang, VariantFacts,
};
use rust_to_cs_compiler::item_exclusion::{AttrFacts, ItemFacts, MetaFacts};
use rust_to_cs_compiler::output::Code;

fn s(x: &str) -> String {
    x.to_string()
}

fn field(cs_ty: &str, name: &str) -> FieldFacts {
    FieldFacts { cs_ty: s(cs_ty), name: s(name) }
}

fn translated() -> CfgItemFacts {
    CfgItemFacts { item: ItemFacts::Crate(None), cfg_check: None }
}

fn cfg_off() -> CfgItemFacts {
    CfgItemFacts { item: ItemFacts::Crate(None), cfg_check: Some(Some(false)) }
}

fn members(cs_type: &str, cs_name: &str, def: &ConstructableFacts) -> String {
    let mut out = Code::new();
    emit_constructable_def(&mut out, cs_type, cs_name, def);
    out.finish()
}

#[test]
fn record_fields_are_declared_with_defaults() {
    let def = ConstructableFacts { fields: vec![field("int", "x"), field("bool", "is_ok")], kind: StructKind::Record };
    assert_eq!(
        members("s_Point", "s_Point", &def),
        "public int f_x = default!;\npublic bool f_isOk = default!;\n"
    );
}

#[test]
fn tuple_fields_get_a_static_constructor() {
    let def = ConstructableFacts { fields: vec![field("int", "0"), field("long", "1")], kind: StructKind::Tuple };
    assert_eq!(
        members("s_Pair<P_T>", "s_Pair", &def),
        "public int f_0 = default!;\n\
         public long f_1 = default!;\n\
         \n\
         public static s_Pair<P_T> ctor(int f_0, long f_1) => new s_Pair() {\n\
         \x20   f_0 = f_0,\n\
         \x20   f_1 = f_1,\n\
         };\n"
    );
    let empty = ConstructableFacts { fields: Vec::new(), kind: StructKind::Tuple };
    assert_eq!(members("s_E", "s_E", &empty), "public static s_E ctor() => new s_E() {\n};\n");
}

#[test]
fn unit_types_get_one_instance() {
    let def = ConstructableFacts { fields: Vec::new(), kind: StructKind::Unit };
    assert_eq!(
        members("s_Unit", "s_Unit", &def),
        "private s_Unit(){}\npublic static s_Unit instance = new s_Unit();\n"
    );
}

fn trait_impl(name: &str, iface: &str, lang: TraitLang, self_ty: &str) -> ImplFacts {
    ImplFacts {
        impl_item: translated(),
        functions: Vec::new(),
        trait_ref: Some(ImplTraitFacts {
            name: s(name),
            cs_iface: s(iface),
            lang,
            unimplemented_fns: 0,
            static_fns: 0,
        }),
        self_ty_cs: s(self_ty),
    }
}

fn impl_text(i: &ImplFacts) -> String {
    let mut out = Code::new();
    emit_impl_methods(&mut out, i);
    out.finish()
}

#[test]
fn comparison_impls_add_operators() {
    let ord = trait_impl("PartialOrd", "t_PartialOrd<s_A, s_A>", TraitLang::PartialOrd, "s_A");
    assert_eq!(
        impl_text(&ord),
        "public static bool operator<(s_A self, s_A right) => self.m_PartialCmp(right).m_IsSomeAnd(x => x.m_IsLt());\n\
         public static bool operator>(s_A self, s_A right) => self.m_PartialCmp(right).m_IsSomeAnd(x => x.m_IsGt());\n\
         public static bool operator<=(s_A self, s_A right) => self.m_PartialCmp(right).m_IsSomeAnd(x => x.m_IsLe());\n\
         public static bool operator>=(s_A self, s_A right) => self.m_PartialCmp(right).m_IsSomeAnd(x => x.m_IsGe());\n"
    );
    let eq = trait_impl(
        "PartialEq",
        "t_PartialEq<s_A, s_B>",
        TraitLang::PartialEq { arg_ty_cs: s("s_B"), same_ty: false },
        "s_A",
    );
    assert_eq!(
        impl_text(&eq),
        "public static bool operator==(s_A self, s_B right) => self.m_Eq(right);\n\
         public static bool operator!=(s_A self, s_B right) => !self.m_Eq(right);\n"
    );
}

#[test]
fn serde_trait_impls_mark_default_wrappers() {
    let v = trait_impl("Visitor", "t_Visitor<s_V>", TraitLang::Other, "s_V");
    assert_eq!(impl_text(&v), "// default impls\n");
    let other = trait_impl("Display", "t_Display<s_V>", TraitLang::Other, "s_V");
    assert_eq!(impl_text(&other), "");
    let mut hidden = trait_impl("Ord", "t_Ord<s_V>", TraitLang::Ord, "s_V");
    hidden.impl_item = cfg_off();
    assert_eq!(impl_text(&hidden), "");
}

fn adt(name: &str, params: Vec<String>, shape: AdtShape) -> AdtFacts {
    AdtFacts { name: s(name), adt_item: translated(), attrs: None, params, constraints: Vec::new(), shape }
}

fn adt_text(a: &AdtFacts, impls: &Vec<ImplFacts>) -> String {
    let refs: Vec<&ImplFacts> = impls.iter().collect();
    let mut out = Code::new();
    emit_adt_with_impls(&mut out, a, &refs);
    out.finish()
}

#[test]
fn struct_class_with_comparison_impls() {
    let a = adt(
        "point",
        vec![s("P_T")],
        AdtShape::Struct(ConstructableFacts { fields: vec![field("P_T", "x")], kind: StructKind::Record }),
    );
    let impls = vec![
        trait_impl(
            "PartialEq",
            "t_PartialEq<s_Point<P_T>, s_Point<P_T>>",
            TraitLang::PartialEq { arg_ty_cs: s("s_Point<P_T>"), same_ty: true },
            "s_Point<P_T>",
        ),
        trait_impl("Ord", "t_Ord<s_Point<P_T>>", TraitLang::Ord, "s_Point<P_T>"),
    ];
    assert_eq!(
        adt_text(&a, &impls),
        "public partial class s_Point<P_T> : t_PartialEq<s_Point<P_T>, s_Point<P_T>>, t_Ord<s_Point<P_T>>, System.IComparable<s_Point>\n\
         {\n\
         \x20   public P_T f_x = default!;\n\
         \n\
         \x20   public static bool operator==(s_Point<P_T> self, s_Point<P_T> right) => self.m_Eq(right);\n\
         \x20   public static bool operator!=(s_Point<P_T> self, s_Point<P_T> right) => !self.m_Eq(right);\n\
         \x20   public override bool Equals(object? obj) => obj is s_Point<P_T> cast && this == cast;\n\
         \x20   public int CompareTo(s_Point<P_T> other) => this.m_Cmp(other).CsOrder();\n\
         }\n\
         \n"
    );
}

#[test]
fn enum_class_nests_a_class_per_variant() {
    let mut a = adt(
        "shape",
        Vec::new(),
        AdtShape::Enum(vec![
            VariantFacts {
                name: s("circle"),
                def: ConstructableFacts { fields: vec![field("double", "0")], kind: StructKind::Tuple },
            },
            VariantFacts { name: s("empty"), def: ConstructableFacts { fields: Vec::new(), kind: StructKind::Unit } },
        ]),
    );
    a.constraints = vec![s("P_T : class")];
    assert_eq!(
        adt_text(&a, &Vec::new()),
        "[global::System.Runtime.CompilerServices.UnionAttribute]\n\
         public sealed partial class s_Shape\n\
         \x20   where P_T : class\n\
         {\n\
         \x20   private object inner;\n\
         \x20   public object Value => inner;\n\
         \x20   public void set(s_Shape o) => inner = o.inner;\n\
         \n\
         \x20   public s_Shape(v_Circle value) => inner = value;\n\
         \x20   public sealed partial class v_Circle\n\
         \x20   {\n\
         \x20       public double f_0 = default!;\n\
         \n\
         \x20       public static s_Shape ctor(double f_0) => new v_Circle() {\n\
         \x20           f_0 = f_0,\n\
         \x20       };\n\
         \x20   }\n\
         \n\
         \x20   public s_Shape(v_Empty value) => inner = value;\n\
         \x20   public sealed partial class v_Empty\n\
         \x20   {\n\
         \x20       private v_Empty(){}\n\
         \x20       public static s_Shape instance = new v_Empty();\n\
         \x20   }\n\
         \n\
         }\n\
         \n"
    );
}

#[test]
fn omitted_native_and_union_types() {
    let mut hidden = adt("secret", Vec::new(), AdtShape::Union);
    hidden.adt_item = cfg_off();
    assert_eq!(adt_text(&hidden, &Vec::new()), "// Omit secret\n");

    let mut native = adt("buffer", Vec::new(), AdtShape::Union);
    native.attrs = Some(vec![AttrFacts::Meta(MetaFacts { path: Some(vec![Some(s("r2cs_native"))]) })]);
    assert_eq!(
        adt_text(&native, &Vec::new()),
        "// [r2cs_native] s_Buffer — add implementation in r2CsNative/\npublic partial class s_Buffer {}\n\n"
    );

    let union = adt("bits", Vec::new(), AdtShape::Union);
    assert_eq!(adt_text(&union, &Vec::new()), "");
}
