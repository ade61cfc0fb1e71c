use rust_to_cs_compiler::names::{
    assoc_type_param, camel, const_name, crate_name, dyn_trait_name, field_name, generic_param,
    local_name, method_name, mod_name, pascal, static_name, struct_name, trait_name, variant_name,
};
use rust_to_cs_compiler::text::{chars_of, ends_with};

#[test]
fn test_pascal() {
    assert_eq!(pascal("foo_bar"), "FooBar");
    assert_eq!(pascal("my_struct"), "MyStruct");
    assert_eq!(pascal("hello"), "Hello");
}

#[test]
fn test_names() {
    assert_eq!(struct_name("my_struct"), "s_MyStruct");
    assert_eq!(trait_name("my_trait"), "t_MyTrait");
    assert_eq!(method_name("do_thing"), "m_DoThing");
    assert_eq!(field_name("my_field"), "f_myField");
}

#[test]
fn pascal_skips_repeated_and_edge_underscores() {
    assert_eq!(pascal("__a__b_"), "AB");
    assert_eq!(pascal(""), "");
    assert_eq!(pascal("___"), "");
    assert_eq!(pascal("already_Pascal"), "AlreadyPascal");
}

#[test]
fn pascal_uses_unicode_uppercase() {
    assert_eq!(pascal("ß_x"), "SSX");
    assert_eq!(pascal("é_b"), "ÉB");
}

#[test]
fn camel_keeps_first_word() {
    assert_eq!(camel("my_field_name"), "myFieldName");
    assert_eq!(camel("_leading"), "leading");
    assert_eq!(camel("__a_b"), "aB");
    assert_eq!(camel(""), "");
    assert_eq!(camel("x"), "x");
}

#[test]
fn prefixed_names() {
    assert_eq!(dyn_trait_name("into_iter"), "T_IntoIter");
    assert_eq!(variant_name("some_value"), "v_SomeValue");
    assert_eq!(mod_name("my_mod"), "mod_MyMod");
    assert_eq!(crate_name("my_crate"), "crt_MyCrate");
    assert_eq!(const_name("MAX_LEN"), "c_MAX_LEN");
    assert_eq!(static_name("COUNTER"), "s_COUNTER");
    assert_eq!(local_name("x", 7), "l_x_7");
    assert_eq!(generic_param("T"), "P_T");
    assert_eq!(assoc_type_param("Item"), "A_Item");
}

#[test]
fn text_chars_and_suffixes() {
    assert_eq!(chars_of("aé\u{1f600}"), vec!['a', 'é', '\u{1f600}']);
    assert!(chars_of("").is_empty());
    assert!(ends_with("block\n\n", "\n\n"));
    assert!(!ends_with("block\n", "\n\n"));
    assert!(ends_with("é", "é"));
    assert!(ends_with("abc", ""));
    assert!(!ends_with("", "a"));
}

#[test]
fn pascal_is_capitalized_camel() {
    for s in ["my_field", "_my_field", "Foo_bar", "", "__", "a", "x__y_z", "ünï_code"] {
        let c = camel(s);
        let mut chars = c.chars();
        let capitalized = match chars.next() {
            Some(f) => f.to_uppercase().collect::<String>() + chars.as_str(),
            None => String::new(),
        };
        assert_eq!(pascal(s), capitalized);
    }
    assert_eq!(camel("_my_field"), "myField");
    assert_eq!(pascal("_my_field"), "MyField");
}
