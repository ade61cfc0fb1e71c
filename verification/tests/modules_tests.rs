use rust_to_cs_compiler::adt::{
    AdtFacts, AdtShape, CfgItemFacts, ConstructableFacts, ImplFacts, ImplTraitFacts, StructKind, TraitLang,
};
use rust_to_cs_compiler::decl::TraitFacts;
use rust_to_cs_compiler::item_exclusion::{AttrFacts, ItemFacts, MetaFacts};
use rust_to_cs_compiler::modules::{emit_crate, emit_module, ImplEntry, ModuleDecl, ModuleImpls, ModuleTree};
use rust_to_cs_compiler::names::ModuleFacts;
use rust_to_cs_compiler::output::Code;

fn s(x: &str) -> String {
    x.to_string()
}

fn translated() -> CfgItemFacts {
    CfgItemFacts { item: ItemFacts::Crate(None), cfg_check: None }
}

fn cfg_off() -> CfgItemFacts {
    CfgItemFacts { item: ItemFacts::Crate(None), cfg_check: Some(Some(false)) }
}

fn root_facts() -> ModuleFacts {
    ModuleFacts {
        is_crate_root: true,
        crate_display_name: Some(s("my_crate")),
        name: None,
        parent: None,
        block_ancestor_indices: None,
    }
}

fn sub_facts(name: &str) -> ModuleFacts {
    ModuleFacts {
        is_crate_root: false,
        crate_display_name: None,
        name: Some(s(name)),
        parent: Some(Box::new(root_facts())),
        block_ancestor_indices: None,
    }
}

fn impl_of(name: &str, lang: TraitLang, self_ty: &str, item: CfgItemFacts) -> ImplFacts {
    ImplFacts {
        impl_item: item,
        functions: Vec::new(),
        trait_ref: Some(ImplTraitFacts {
            name: s(name),
            cs_iface: format!("t_{}<{}>", name, self_ty),
            lang,
            unimplemented_fns: 0,
            static_fns: 0,
        }),
        self_ty_cs: s(self_ty),
    }
}

fn adt(name: &str, shape: AdtShape) -> AdtFacts {
    AdtFacts { name: s(name), adt_item: translated(), attrs: None, params: Vec::new(), constraints: Vec::new(), shape }
}

fn crate_tree() -> ModuleTree {
    let geo = ModuleTree {
        facts: sub_facts("geo"),
        item: translated(),
        attrs: None,
        decls: vec![ModuleDecl::Adt { facts: adt("u", AdtShape::Union), key: s("s_U") }],
    };
    ModuleTree {
        facts: root_facts(),
        item: translated(),
        attrs: None,
        decls: vec![
            ModuleDecl::Adt {
                facts: adt("point", AdtShape::Struct(ConstructableFacts { fields: Vec::new(), kind: StructKind::Unit })),
                key: s("s_Point"),
            },
            ModuleDecl::Function { name: s("helper"), item: cfg_off() },
            ModuleDecl::Trait(TraitFacts {
                name: s("shape"),
                dyn_violations: None,
                params: Vec::new(),
                constraints: Vec::new(),
                super_traits: Vec::new(),
                items: Vec::new(),
            }),
            ModuleDecl::Module(geo),
        ],
    }
}

#[test]
fn crate_classes_list_traits_functions_types_then_submodules() {
    let ms = vec![
        ModuleImpls {
            module_item: translated(),
            impls: vec![
                ImplEntry { adt_key: Some(s("s_Point")), facts: impl_of("Ord", TraitLang::Ord, "s_Point", translated()) },
                ImplEntry { adt_key: None, facts: impl_of("Display", TraitLang::Other, "int", translated()) },
                ImplEntry {
                    adt_key: Some(s("s_Point")),
                    facts: impl_of("Visitor", TraitLang::Other, "s_Point", cfg_off()),
                },
            ],
        },
        ModuleImpls {
            module_item: cfg_off(),
            impls: vec![ImplEntry {
                adt_key: Some(s("s_Point")),
                facts: impl_of("PartialOrd", TraitLang::PartialOrd, "s_Point", translated()),
            }],
        },
    ];
    let mut out = Code::new();
    emit_crate(&mut out, &ms, &crate_tree());
    assert_eq!(
        out.finish(),
        "public static partial class crt_MyCrate {\n\
         \x20   // dyn compatible\n\
         \x20   public interface t_Shape\n\
         \x20   {\n\
         \x20       public static class Defaults\n\
         \x20       {\n\
         \x20       }\n\
         \x20   }\n\
         \n\
         \x20   // function helper in module crt_MyCrate\n\
         \x20   public partial class s_Point : t_Ord<s_Point>, System.IComparable<s_Point>\n\
         \x20   {\n\
         \x20       private s_Point(){}\n\
         \x20       public static s_Point instance = new s_Point();\n\
         \n\
         \x20       public int CompareTo(s_Point other) => this.m_Cmp(other).CsOrder();\n\
         \x20   }\n\
         \n\
         \x20   public static partial class mod_Geo {\n\
         \x20   }\n\
         }\n"
    );
}

#[test]
fn native_and_omitted_modules() {
    let map = Vec::new();
    let native = ModuleTree {
        facts: sub_facts("io"),
        item: translated(),
        attrs: Some(vec![AttrFacts::Meta(MetaFacts { path: Some(vec![Some(s("r2cs_native"))]) })]),
        decls: Vec::new(),
    };
    let mut out = Code::new();
    emit_module(&mut out, &native, &map);
    assert_eq!(
        out.finish(),
        "// r2cs native, manual implementation expected\npublic static partial class mod_Io {}\n"
    );
    let hidden = ModuleTree { facts: sub_facts("test"), item: cfg_off(), attrs: None, decls: vec![ModuleDecl::Const] };
    let mut out = Code::new();
    emit_module(&mut out, &hidden, &map);
    assert_eq!(out.finish(), "");
}
