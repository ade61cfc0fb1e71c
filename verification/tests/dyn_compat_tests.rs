use rust_to_cs_compiler::dyn_compat::{
    allowed_violation, dyn_compatibility_all_violations_alt, virtual_call_violations_for_method, with_self_in_cs,
    AssocEntry, AssocItemFacts, DynCompatibilityViolation, MethodFacts, MethodViolationCode, TraitDynFacts,
};

fn method(id: u64, has_self: bool, is_async: bool, params: Vec<bool>, ret: bool, where_: bool) -> MethodFacts {
    MethodFacts { id, has_self, is_async, param_refs_self: params, ret_refs_self: ret, where_refs_self: where_ }
}

#[test]
fn method_violations_in_order() {
    let m = method(1, false, true, vec![false, true], false, true);
    assert!(
        virtual_call_violations_for_method(&m)
            == vec![
                MethodViolationCode::StaticMethod,
                MethodViolationCode::AsyncFn,
                MethodViolationCode::ReferencesSelfInput,
                MethodViolationCode::WhereClauseReferencesSelf,
            ]
    );
    let clean = method(2, true, false, vec![false], false, false);
    assert!(virtual_call_violations_for_method(&clean).is_empty());
    let out = method(3, true, false, Vec::new(), true, false);
    assert!(virtual_call_violations_for_method(&out) == vec![MethodViolationCode::ReferencesSelfOutput]);
}

#[test]
fn trait_violations_skip_items_that_require_sized_self() {
    let t = TraitDynFacts {
        sized_supertrait: true,
        predicates_ref_self: false,
        items: vec![
            AssocEntry { item: AssocItemFacts::Const(5), self_sized: true },
            AssocEntry { item: AssocItemFacts::Const(6), self_sized: false },
            AssocEntry { item: AssocItemFacts::Function(method(2, true, true, Vec::new(), false, false)), self_sized: false },
            AssocEntry { item: AssocItemFacts::Function(method(7, false, false, Vec::new(), false, false)), self_sized: true },
            AssocEntry { item: AssocItemFacts::TypeAlias, self_sized: false },
        ],
    };
    let expected = vec![
        DynCompatibilityViolation::SizedSelf,
        DynCompatibilityViolation::AssocConst(6),
        DynCompatibilityViolation::Method(2, MethodViolationCode::AsyncFn),
    ];
    assert!(dyn_compatibility_all_violations_alt(&t) == Some(expected));
    assert!(with_self_in_cs(&t));
}

#[test]
fn interfaces_live_with_sized_async_and_generic_methods() {
    let t = TraitDynFacts {
        sized_supertrait: true,
        predicates_ref_self: false,
        items: vec![AssocEntry { item: AssocItemFacts::Function(method(2, true, true, Vec::new(), false, false)), self_sized: false }],
    };
    assert!(!with_self_in_cs(&t));
    let empty = TraitDynFacts { sized_supertrait: false, predicates_ref_self: false, items: Vec::new() };
    assert!(dyn_compatibility_all_violations_alt(&empty).is_none());
    assert!(!with_self_in_cs(&empty));
    let selfish = TraitDynFacts { sized_supertrait: false, predicates_ref_self: true, items: Vec::new() };
    assert!(dyn_compatibility_all_violations_alt(&selfish) == Some(vec![DynCompatibilityViolation::SelfReferential]));
    assert!(with_self_in_cs(&selfish));
}

#[test]
fn allowed_violations_table() {
    let allowed = |c: MethodViolationCode| allowed_violation(&DynCompatibilityViolation::Method(1, c));
    assert!(allowed(MethodViolationCode::Generic));
    assert!(allowed(MethodViolationCode::ReferencesImplTraitInTrait));
    assert!(allowed(MethodViolationCode::AsyncFn));
    assert!(!allowed(MethodViolationCode::StaticMethod));
    assert!(!allowed(MethodViolationCode::ReferencesSelfInput));
    assert!(!allowed(MethodViolationCode::ReferencesSelfOutput));
    assert!(!allowed(MethodViolationCode::WhereClauseReferencesSelf));
    assert!(!allowed(MethodViolationCode::UndispatchableReceiver));
    assert!(allowed_violation(&DynCompatibilityViolation::SizedSelf));
    assert!(!allowed_violation(&DynCompatibilityViolation::SelfReferential));
    assert!(!allowed_violation(&DynCompatibilityViolation::AssocConst(3)));
}
