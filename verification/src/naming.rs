//! Naming conventions for the Rust → C# translation.
//!
//! Every identifier generated from a Rust name carries a prefix, so that it
//! cannot clash with a C# keyword nor with a name of another Rust namespace:
//!
//! | Rust concept                                   | C# prefix |
//! |------------------------------------------------|-----------|
//! | module                                         | `mod_`    |
//! | struct / enum                                  | `s_`      |
//! | empty struct for trait static members (vtable) | `S_`      |
//! | non-dyn trait interface                        | `t_`      |
//! | trait interface incl. dyn/static members       | `T_`      |
//! | generic param: associated type                 | `A_`      |
//! | generic param: Self                            | `Self`    |
//! | generic param: generic parameter               | `P_`      |
//! | field                                          | `f_`      |
//! | associated function / method                   | `m_`      |
//! | local variable                                 | `l_${name}_${index}` |

use vstd::prelude::*;
use crate::text::{decimal, push_decimal, push_str, to_string};

verus! {

/// `prefix` followed by `name`.
pub fn prefixed(prefix: &str, name: &str) -> (r: String)
    ensures
        r@ == prefix@ + name@,
{
    let mut r = to_string(prefix);
    push_str(&mut r, name);
    r
}

/// Convert a Rust module name to a C# partial-class name: `mod_<name>`.
pub fn module_name(rust_name: &str) -> (r: String)
    ensures
        r@ == "mod_"@ + rust_name@,
{
    prefixed("mod_", rust_name)
}

/// Convert a Rust struct or enum name to a C# struct name: `s_<name>`.
pub fn struct_name(rust_name: &str) -> (r: String)
    ensures
        r@ == "s_"@ + rust_name@,
{
    prefixed("s_", rust_name)
}

/// Name of the empty vtable struct for a specific trait impl:
/// `S_<trait>_for_<type>`, e.g. `S_Display_for_s_Point` for `impl Display for Point`.
pub fn vtable_struct_name(trait_name: &str, impl_type_name: &str) -> (r: String)
    ensures
        r@ == "S_"@ + trait_name@ + "_for_"@ + impl_type_name@,
{
    let mut r = prefixed("S_", trait_name);
    push_str(&mut r, "_for_");
    push_str(&mut r, impl_type_name);
    r
}

/// Convert a Rust trait name to the C# non-dyn trait interface name `t_<name>`,
/// used for `t_Foo<TSelf>` interfaces.
pub fn trait_iface_name(rust_name: &str) -> (r: String)
    ensures
        r@ == "t_"@ + rust_name@,
{
    prefixed("t_", rust_name)
}

/// Convert a Rust trait name to the C# trait-static-member interface name `T_<name>`,
/// used for vtable dispatch (`T_Foo` implemented by `S_Foo_for_*`).
pub fn trait_static_iface_name(rust_name: &str) -> (r: String)
    ensures
        r@ == "T_"@ + rust_name@,
{
    prefixed("T_", rust_name)
}

/// Convert a Rust generic type parameter to a C# generic parameter name `P_<name>`.
pub fn generic_param_name(rust_name: &str) -> (r: String)
    ensures
        r@ == "P_"@ + rust_name@,
{
    prefixed("P_", rust_name)
}

/// Convert a Rust associated type name to a C# generic parameter name `A_<name>`.
pub fn assoc_type_param_name(rust_name: &str) -> (r: String)
    ensures
        r@ == "A_"@ + rust_name@,
{
    prefixed("A_", rust_name)
}

/// Convert a Rust field name to a C# field name `f_<name>`.
pub fn field_name(rust_name: &str) -> (r: String)
    ensures
        r@ == "f_"@ + rust_name@,
{
    prefixed("f_", rust_name)
}

/// Convert a Rust method / associated function name to a C# method name `m_<name>`.
pub fn method_name(rust_name: &str) -> (r: String)
    ensures
        r@ == "m_"@ + rust_name@,
{
    prefixed("m_", rust_name)
}

/// The C# local variable name `l_<name>_<index>`; `index` disambiguates
/// shadowed locals with the same Rust name.
pub fn local_name(rust_name: &str, index: usize) -> (r: String)
    ensures
        r@ == "l_"@ + rust_name@ + "_"@ + decimal(index as nat),
{
    let mut r = prefixed("l_", rust_name);
    push_str(&mut r, "_");
    push_decimal(&mut r, index as u128);
    r
}

/// The `TSelf` generic parameter used in all trait interfaces.
pub const SELF_PARAM: &'static str = "Self";

} // verus!
