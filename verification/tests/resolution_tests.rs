use rust_to_cs_compiler::consts::{detect_variant_from_bytes, EnumLayoutFacts, TagEncodingFacts, VariantLayoutRef};
use rust_to_cs_compiler::function_resolution::{
    resolve_function, CallContainer, CallFacts, ResolvedFunction, SelfTypeKind, TypeRef,
};
use rust_to_cs_compiler::item_exclusion::{
    is_r2cs_native, rust_path, should_emit, AttrFacts, ItemFacts, MetaFacts, NamedItemFacts,
};
use rust_to_cs_compiler::names::{function_name, mod_simple_name, FnContainer, ModuleFacts};
use rust_to_cs_compiler::options::ArgSource;

fn root(name: &str) -> ModuleFacts {
    ModuleFacts {
        is_crate_root: true,
        crate_display_name: Some(name.to_string()),
        name: None,
        parent: None,
        block_ancestor_indices: None,
    }
}

fn child(parent: ModuleFacts, name: &str) -> ModuleFacts {
    ModuleFacts {
        is_crate_root: false,
        crate_display_name: None,
        name: Some(name.to_string()),
        parent: Some(Box::new(parent)),
        block_ancestor_indices: None,
    }
}

fn ty(id: u64, cs: &str) -> TypeRef {
    TypeRef { id, cs: cs.to_string() }
}

fn facts(name: &str, container: CallContainer) -> CallFacts {
    CallFacts {
        name: name.to_string(),
        fn_container: FnContainer::Module,
        container,
        has_self_param: false,
        parent_args: Some(vec![]),
        fn_args: vec![],
        into_params: None,
        iterator_resolved: false,
        generic_sources: vec![],
        default_static_cs: None,
    }
}

#[test]
fn fmt_of_debug_and_display() {
    let debug_impl = FnContainer::Impl { trait_is_debug: true, trait_name: Some("Debug".to_string()) };
    assert_eq!(function_name(&debug_impl, "fmt"), "DebugFmt");
    let display_impl = FnContainer::Impl { trait_is_debug: false, trait_name: Some("Display".to_string()) };
    assert_eq!(function_name(&display_impl, "fmt"), "DisplayFmt");
    let display_trait = FnContainer::Trait { is_debug: false, name: "Display".to_string() };
    assert_eq!(function_name(&display_trait, "fmt"), "DisplayFmt");
    assert_eq!(function_name(&display_impl, "to_string"), "m_ToString");
    assert_eq!(function_name(&FnContainer::Module, "do_thing"), "m_DoThing");
}

#[test]
fn module_class_names() {
    assert_eq!(mod_simple_name(&root("my_crate")), "crt_MyCrate");
    let m = child(root("my_crate"), "utils");
    assert_eq!(mod_simple_name(&m), "mod_Utils");
    // a module named like its parent gets a trailing underscore
    let nested = child(child(root("c"), "foo"), "foo");
    assert_eq!(mod_simple_name(&nested), "mod_Foo_");
    let block = ModuleFacts {
        is_crate_root: false,
        crate_display_name: None,
        name: None,
        parent: Some(Box::new(root("c"))),
        block_ancestor_indices: Some(vec![3, 0, 12]),
    };
    assert_eq!(mod_simple_name(&block), "block_3_0_12");
    let unnamed_root = ModuleFacts { crate_display_name: None, ..root("x") };
    assert_eq!(mod_simple_name(&unnamed_root), "crt_UnnamedCrate");
}

#[test]
fn rust_paths_of_items() {
    let m = child(root("serde_core"), "ser");
    assert_eq!(rust_path(&ItemFacts::Module(child(root("a"), "b"))), Some("a::b".to_string()));
    let adt = ItemFacts::Adt(NamedItemFacts { module: child(root("a"), "b"), name: "S".to_string() });
    assert_eq!(rust_path(&adt), Some("a::b::S".to_string()));
    let trait_impl = ItemFacts::Impl {
        module: child(root("a"), "b"),
        self_adt: Some(NamedItemFacts { module: root("a"), name: "S".to_string() }),
        trait_: Some(NamedItemFacts { module: root("core"), name: "Clone".to_string() }),
    };
    assert_eq!(rust_path(&trait_impl), Some("<a::S as core::Clone>".to_string()));
    let other_impl = ItemFacts::Impl { module: root("a"), self_adt: None, trait_: None };
    assert_eq!(rust_path(&other_impl), Some("a::<impl>".to_string()));
    let f = ItemFacts::Function { container: Box::new(ItemFacts::Module(m)), name: "impossible".to_string() };
    assert_eq!(rust_path(&f), Some("serde_core::ser::impossible".to_string()));
    let nameless = ItemFacts::Crate(None);
    assert_eq!(rust_path(&nameless), None);
}

#[test]
fn excluded_items_are_not_emitted() {
    let m = child(root("serde_core"), "ser");
    let impossible = ItemFacts::Module(child(m, "impossible"));
    assert!(!should_emit(&impossible, None));
    let kept = ItemFacts::Module(child(root("serde_core"), "de"));
    assert!(should_emit(&kept, None));
    assert!(!should_emit(&kept, Some(Some(false))));
    assert!(should_emit(&kept, Some(None)));
}

#[test]
fn native_marker_attributes() {
    let path = |segs: &[&str]| MetaFacts { path: Some(segs.iter().map(|s| Some(s.to_string())).collect()) };
    assert!(is_r2cs_native(&Some(vec![AttrFacts::Meta(path(&["r2cs_native"]))])));
    assert!(is_r2cs_native(&Some(vec![AttrFacts::NoMeta, AttrFacts::Meta(path(&["r2cs", "native"]))])));
    assert!(!is_r2cs_native(&Some(vec![AttrFacts::Meta(path(&["inline"]))])));
    let enabled = AttrFacts::CfgAttr { enabled: true, metas: vec![path(&["r2cs_native"])], own: path(&["cfg_attr"]) };
    assert!(is_r2cs_native(&Some(vec![enabled])));
    let disabled = AttrFacts::CfgAttr { enabled: false, metas: vec![path(&["r2cs_native"])], own: path(&["cfg_attr"]) };
    assert!(!is_r2cs_native(&Some(vec![disabled])));
    assert!(!is_r2cs_native(&None));
}

#[test]
fn into_to_the_same_type_is_omitted() {
    let mut f = facts("into", CallContainer::Trait { trait_id: 1 });
    f.into_params = Some(vec![ty(1, "int"), ty(2, "int")]);
    assert!(matches!(resolve_function(&f), ResolvedFunction::OmitCall { comment } if comment == "/*omit Into::into method*/"));
    f.into_params = Some(vec![ty(1, "int"), ty(2, "long")]);
    match resolve_function(&f) {
        ResolvedFunction::Static { self_ty, function_name, .. } => {
            assert_eq!(self_ty.id, 2);
            assert_eq!(function_name, "m_From/*convert from Into::into method*/");
        },
        _ => panic!("expected a static call"),
    }
}

#[test]
fn str_parse_and_collect() {
    let mut f = facts("parse", CallContainer::Impl { self_ty: ty(1, "string"), kind: SelfTypeKind::Str });
    f.fn_args = vec![ty(5, "int")];
    match resolve_function(&f) {
        ResolvedFunction::Static { self_ty, function_name, .. } => {
            assert_eq!(self_ty.id, 5);
            assert_eq!(function_name, "m_FromStr/*convert from str::parse method*/");
        },
        _ => panic!("expected a static call"),
    }
    let mut c = facts("collect", CallContainer::Trait { trait_id: 9 });
    c.iterator_resolved = true;
    c.fn_args = vec![ty(7, "List")];
    assert!(matches!(resolve_function(&c), ResolvedFunction::Static { function_name, .. } if function_name == "m_FromIter/*collect*/"));
}

#[test]
fn box_and_os_str_calls_are_omitted() {
    let b = facts("new", CallContainer::Impl { self_ty: ty(1, "Box"), kind: SelfTypeKind::OwnedBox });
    assert!(matches!(resolve_function(&b), ResolvedFunction::OmitCall { comment } if comment == "/*omit Box::new method*/"));
    let r = facts("as_ref", CallContainer::Impl { self_ty: ty(1, "Box"), kind: SelfTypeKind::OwnedBox });
    assert!(matches!(resolve_function(&r), ResolvedFunction::OmitCall { comment } if comment == "/*omit Box::as_ref method*/"));
    let o = facts("new", CallContainer::Impl { self_ty: ty(1, "OsStr"), kind: SelfTypeKind::OsStr });
    assert!(matches!(resolve_function(&o), ResolvedFunction::OmitCall { comment } if comment == "/*omit OsStr::new method*/"));
}

#[test]
fn encode_utf8_and_unwrap_or_default() {
    let e = facts("encode_utf8", CallContainer::Impl { self_ty: ty(1, "char"), kind: SelfTypeKind::Char });
    match resolve_function(&e) {
        ResolvedFunction::Method { function_name, args_map: Some((ArgSource::Source(0), rest)), .. } => {
            assert_eq!(function_name, "ToString/*converted from encode_utf8*/");
            assert!(rest.is_empty());
        },
        _ => panic!("expected a method call"),
    }
    let mut u = facts("unwrap_or_default", CallContainer::Impl { self_ty: ty(1, "Option"), kind: SelfTypeKind::OptionOrResult });
    u.parent_args = Some(vec![ty(3, "int")]);
    u.default_static_cs = Some("Int".to_string());
    match resolve_function(&u) {
        ResolvedFunction::Method { function_name, args_map: Some((ArgSource::Source(0), rest)), .. } => {
            assert_eq!(function_name, "m_UnwrapOrElse");
            assert_eq!(rest.len(), 1);
            match &rest[0] {
                ArgSource::CustomExpr(code) => assert_eq!(code.clone().finish(), "Int.m_Default\n"),
                _ => panic!("expected custom code"),
            }
        },
        _ => panic!("expected a method call"),
    }
}

#[test]
fn functions_are_called_where_defined() {
    let mut m = facts("helper_fn", CallContainer::Module { class_cs: "mod_Utils".to_string() });
    m.fn_args = vec![ty(1, "int")];
    match resolve_function(&m) {
        ResolvedFunction::ModuleFunction { function_path, generic_args, .. } => {
            assert_eq!(function_path, "mod_Utils.m_HelperFn");
            assert_eq!(generic_args.len(), 1);
        },
        _ => panic!("expected a module function"),
    }
    let mut t = facts("len", CallContainer::Trait { trait_id: 4 });
    t.has_self_param = true;
    t.parent_args = Some(vec![ty(8, "s_Vec"), ty(9, "int")]);
    match resolve_function(&t) {
        ResolvedFunction::Method { self_ty, trait_: Some((id, args)), function_name, .. } => {
            assert_eq!(self_ty.id, 8);
            assert_eq!(id, 4);
            assert_eq!(args.len(), 2);
            assert_eq!(function_name, "m_Len");
        },
        _ => panic!("expected a trait method"),
    }
    let i = facts("new", CallContainer::Impl { self_ty: ty(2, "s_Point"), kind: SelfTypeKind::Other });
    assert!(matches!(resolve_function(&i), ResolvedFunction::Static { function_name, .. } if function_name == "m_New"));
}

#[test]
fn enum_variant_from_tag_bytes() {
    let single = EnumLayoutFacts::Single { index: 2 };
    assert_eq!(detect_variant_from_bytes(&single, &[], &[]), Some((2, VariantLayoutRef::Whole)));
    // direct tag: one byte at offset 0, discriminants 0, 5, 9
    let direct = EnumLayoutFacts::Multiple { tag_size: 1, tag_offset: 0, encoding: TagEncodingFacts::Direct, variant_count: 3 };
    let ds = [Some(0i128), Some(5), Some(9)];
    assert_eq!(detect_variant_from_bytes(&direct, &ds, &[5, 0xff]), Some((1, VariantLayoutRef::Variant(1))));
    assert_eq!(detect_variant_from_bytes(&direct, &ds, &[7]), None);
    // niche: variant 1 untagged, others numbered from 2
    let niche = EnumLayoutFacts::Multiple {
        tag_size: 1,
        tag_offset: 1,
        encoding: TagEncodingFacts::Niche { untagged_variant: 1, niche_start: 2 },
        variant_count: 3,
    };
    let none3 = [None, None, None];
    assert_eq!(detect_variant_from_bytes(&niche, &none3, &[0, 2]), Some((0, VariantLayoutRef::Variant(0))));
    assert_eq!(detect_variant_from_bytes(&niche, &none3, &[0, 3]), Some((2, VariantLayoutRef::Variant(2))));
    assert_eq!(detect_variant_from_bytes(&niche, &none3, &[0, 40]), Some((1, VariantLayoutRef::Variant(1))));
}
