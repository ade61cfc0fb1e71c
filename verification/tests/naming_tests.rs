use rust_to_cs_compiler::naming::{
    assoc_type_param_name, field_name, generic_param_name, local_name, method_name, module_name,
    struct_name, trait_iface_name, trait_static_iface_name, vtable_struct_name, SELF_PARAM,
};

#[test]
fn module_name_adds_prefix() {
    assert_eq!(module_name("my_module"), "mod_my_module");
}

#[test]
fn struct_name_adds_prefix() {
    assert_eq!(struct_name("Point"), "s_Point");
}

#[test]
fn vtable_struct_name_correct() {
    assert_eq!(
        vtable_struct_name("Display", "s_Point"),
        "S_Display_for_s_Point"
    );
}

#[test]
fn trait_iface_name_correct() {
    assert_eq!(trait_iface_name("Iterator"), "t_Iterator");
}

#[test]
fn trait_static_iface_name_correct() {
    assert_eq!(trait_static_iface_name("Display"), "T_Display");
}

#[test]
fn generic_param_name_correct() {
    assert_eq!(generic_param_name("T"), "P_T");
}

#[test]
fn assoc_type_param_name_correct() {
    assert_eq!(assoc_type_param_name("Item"), "A_Item");
}

#[test]
fn field_name_correct() {
    assert_eq!(field_name("value"), "f_value");
}

#[test]
fn method_name_correct() {
    assert_eq!(method_name("new"), "m_new");
}

#[test]
fn local_name_includes_index() {
    assert_eq!(local_name("x", 0), "l_x_0");
    assert_eq!(local_name("x", 1), "l_x_1");
}

#[test]
fn self_param_is_constant() {
    assert_eq!(SELF_PARAM, "Self");
}

#[test]
fn local_name_multi_digit_index() {
    assert_eq!(local_name("count", 1234), "l_count_1234");
    assert_eq!(local_name("", 10), "l__10");
}
