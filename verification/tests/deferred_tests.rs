use rust_to_cs_compiler::adt::{
    AdtFacts, AdtShape, CfgItemFacts, ConstructableFacts, FieldFacts, ImplFacts, ImplTraitFacts, StructKind, TraitLang,
};
use rust_to_cs_compiler::deferred::{emit_deferred, DeferredEntry, DeferredFacts, DeferredItem, ImplRef};
use rust_to_cs_compiler::item_exclusion::ItemFacts;
use rust_to_cs_compiler::names::ModuleFacts;
use rust_to_cs_compiler::output::Code;

fn s(x: &str) -> String {
    x.to_string()
}

fn crate_root() -> ModuleFacts {
    ModuleFacts {
        is_crate_root: true,
        crate_display_name: Some(s("c")),
        name: None,
        parent: None,
        block_ancestor_indices: None,
    }
}

fn named(name: &str, parent: ModuleFacts) -> ModuleFacts {
    ModuleFacts {
        is_crate_root: false,
        crate_display_name: None,
        name: Some(s(name)),
        parent: Some(Box::new(parent)),
        block_ancestor_indices: None,
    }
}

fn block(indices: Vec<usize>) -> ModuleFacts {
    ModuleFacts {
        is_crate_root: false,
        crate_display_name: None,
        name: None,
        parent: Some(Box::new(crate_root())),
        block_ancestor_indices: Some(indices),
    }
}

fn translated() -> CfgItemFacts {
    CfgItemFacts { item: ItemFacts::Crate(None), cfg_check: None }
}

fn hidden_fn() -> DeferredItem {
    DeferredItem::Function(CfgItemFacts { item: ItemFacts::Crate(None), cfg_check: Some(Some(false)) })
}

fn adt(name: &str, shape: AdtShape) -> AdtFacts {
    AdtFacts {
        name: s(name),
        adt_item: translated(),
        attrs: None,
        params: Vec::new(),
        constraints: Vec::new(),
        shape,
    }
}

fn ord_impl(id: u64, key: u64, self_ty: &str) -> ImplRef {
    ImplRef {
        id,
        self_adt: Some(key),
        facts: ImplFacts {
            impl_item: translated(),
            functions: Vec::new(),
            trait_ref: Some(ImplTraitFacts {
                name: s("Ord"),
                cs_iface: format!("t_Ord<{}>", self_ty),
                lang: TraitLang::Ord,
                unimplemented_fns: 0,
                static_fns: 0,
            }),
            self_ty_cs: s(self_ty),
        },
    }
}

fn text(d: &DeferredFacts) -> String {
    let mut out = Code::new();
    emit_deferred(&mut out, d);
    out.finish()
}

#[test]
fn no_local_items_write_nothing() {
    let d = DeferredFacts { entries: Vec::new(), modules: Vec::new() };
    assert_eq!(text(&d), "");
}

#[test]
fn local_items_nest_by_module_with_their_impls_once() {
    let outer = block(vec![3, 1]);
    let inner = named("inner", block(vec![3, 1]));
    let local = adt("local", AdtShape::Struct(ConstructableFacts { fields: Vec::new(), kind: StructKind::Unit }));
    let deep = adt(
        "deep",
        AdtShape::Struct(ConstructableFacts {
            fields: vec![FieldFacts { cs_ty: s("int"), name: s("x") }],
            kind: StructKind::Record,
        }),
    );
    let d = DeferredFacts {
        entries: vec![
            DeferredEntry {
                path: vec![1],
                item: DeferredItem::Adt { key: 10, facts: local, module_impls: vec![ord_impl(7, 10, "s_Local")] },
            },
            DeferredEntry { path: vec![1, 2], item: hidden_fn() },
            DeferredEntry { path: vec![1], item: DeferredItem::Impl(ord_impl(7, 10, "s_Local")) },
            DeferredEntry {
                path: vec![1, 2],
                item: DeferredItem::Adt { key: 11, facts: deep, module_impls: vec![ord_impl(8, 10, "s_Local")] },
            },
        ],
        modules: vec![(1, outer), (2, inner)],
    };
    assert_eq!(
        text(&d),
        "// function local items\n\
         private static partial class block_3_1 {\n\
         \x20   public partial class s_Local : t_Ord<s_Local>, System.IComparable<s_Local>, t_Ord<s_Local>, System.IComparable<s_Local>\n\
         \x20   {\n\
         \x20       private s_Local(){}\n\
         \x20       public static s_Local instance = new s_Local();\n\
         \n\
         \x20       public int CompareTo(s_Local other) => this.m_Cmp(other).CsOrder();\n\
         \x20       public int CompareTo(s_Local other) => this.m_Cmp(other).CsOrder();\n\
         \x20   }\n\
         \n\
         \x20   public static partial class mod_Inner {\n\
         \x20       public partial class s_Deep\n\
         \x20       {\n\
         \x20           public int f_x = default!;\n\
         \n\
         \x20       }\n\
         \n\
         \x20   }\n\
         }\n"
    );
}

#[test]
fn top_modules_come_in_order_of_first_use() {
    let d = DeferredFacts {
        entries: vec![
            DeferredEntry {
                path: vec![5],
                item: DeferredItem::Adt { key: 1, facts: adt("u", AdtShape::Union), module_impls: Vec::new() },
            },
            DeferredEntry {
                path: vec![4],
                item: DeferredItem::Adt { key: 2, facts: adt("v", AdtShape::Union), module_impls: Vec::new() },
            },
            DeferredEntry { path: vec![5], item: hidden_fn() },
        ],
        modules: vec![(4, named("a", crate_root())), (5, named("b", crate_root()))],
    };
    assert_eq!(
        text(&d),
        "// function local items\n\
         private static partial class mod_B {\n\
         }\n\
         private static partial class mod_A {\n\
         }\n"
    );
}
