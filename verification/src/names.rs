//! C# names derived from Rust names: snake_case is converted to PascalCase
//! (or camelCase for fields) and a namespace prefix is added.

use vstd::prelude::*;
use crate::text::{chars_of, char_upper, decimal, push_decimal, push_str, str_equals, to_string, upper_spec};

verus! {

/// Whether position `i` of `s` begins a word: the first character, or one
/// that follows an underscore.
pub open spec fn starts_word(s: Seq<char>, i: int) -> bool {
    i == 0 || s[i - 1] == '_'
}

/// Whether some character before position `i` of `s` is not an underscore.
pub open spec fn has_word_before(s: Seq<char>, i: int) -> bool {
    exists|j: int| 0 <= j < i && s[j] != '_'
}

/// What character `i` of `s` becomes in PascalCase: nothing for an
/// underscore, its uppercase where it begins a word, itself otherwise.
pub open spec fn pascal_piece(s: Seq<char>, i: int) -> Seq<char> {
    if s[i] == '_' {
        Seq::empty()
    } else if starts_word(s, i) {
        upper_spec(s[i])
    } else {
        seq![s[i]]
    }
}

/// The PascalCase rendering of the first `n` characters of `s`.
pub open spec fn pascal_prefix(s: Seq<char>, n: nat) -> Seq<char>
    decreases n,
{
    if n == 0 {
        Seq::empty()
    } else {
        pascal_prefix(s, (n - 1) as nat) + pascal_piece(s, n - 1)
    }
}

/// snake_case → PascalCase: the words between underscores, each with its
/// first character in uppercase, joined without separator.
pub open spec fn pascal_spec(s: Seq<char>) -> Seq<char> {
    pascal_prefix(s, s.len())
}

/// What character `i` of `s` becomes in camelCase: as in PascalCase, except
/// that the first word keeps its first character.
pub open spec fn camel_piece(s: Seq<char>, i: int) -> Seq<char> {
    if s[i] == '_' {
        Seq::empty()
    } else if starts_word(s, i) && has_word_before(s, i) {
        upper_spec(s[i])
    } else {
        seq![s[i]]
    }
}

/// The camelCase rendering of the first `n` characters of `s`.
pub open spec fn camel_prefix(s: Seq<char>, n: nat) -> Seq<char>
    decreases n,
{
    if n == 0 {
        Seq::empty()
    } else {
        camel_prefix(s, (n - 1) as nat) + camel_piece(s, n - 1)
    }
}

/// snake_case → camelCase: the first word as it is, each later word with its
/// first character in uppercase, joined without separator.
pub open spec fn camel_spec(s: Seq<char>) -> Seq<char> {
    camel_prefix(s, s.len())
}

/// `t` with its first character in uppercase.
pub open spec fn capitalize(t: Seq<char>) -> Seq<char> {
    if t.len() == 0 {
        t
    } else {
        upper_spec(t[0]) + t.drop_first()
    }
}

/// The first `n` characters of `s` render in PascalCase as they do in
/// camelCase, with the first character in uppercase.
proof fn lemma_pascal_camel_prefix(s: Seq<char>, n: nat)
    requires
        n <= s.len(),
    ensures
        !has_word_before(s, n as int) ==> pascal_prefix(s, n) == Seq::<char>::empty()
            && camel_prefix(s, n) == Seq::<char>::empty(),
        has_word_before(s, n as int) ==> camel_prefix(s, n).len() >= 1
            && pascal_prefix(s, n) == capitalize(camel_prefix(s, n)),
    decreases n,
{
    if n > 0 {
        let i = n - 1;
        lemma_pascal_camel_prefix(s, i as nat);
        let p = pascal_prefix(s, i as nat);
        let c = camel_prefix(s, i as nat);
        if has_word_before(s, i) {
            let j = choose|j: int| 0 <= j < i && s[j] != '_';
            assert(has_word_before(s, n as int)) by {
                assert(0 <= j < n && s[j] != '_');
            }
            assert(pascal_piece(s, i) == camel_piece(s, i));
            let piece = camel_piece(s, i);
            assert((c + piece).drop_first() =~= c.drop_first() + piece);
            assert(pascal_prefix(s, n) =~= capitalize(camel_prefix(s, n)));
        } else {
            if s[i] == '_' {
                assert(!has_word_before(s, n as int)) by {
                    if has_word_before(s, n as int) {
                        let j = choose|j: int| 0 <= j < n && s[j] != '_';
                        assert(j < i);
                    }
                }
                assert(pascal_prefix(s, n) =~= Seq::<char>::empty());
                assert(camel_prefix(s, n) =~= Seq::<char>::empty());
            } else {
                assert(has_word_before(s, n as int)) by {
                    assert(0 <= i < n && s[i] != '_');
                }
                assert(starts_word(s, i)) by {
                    if i > 0 {
                        assert(s[i - 1] == '_') by {
                            if s[i - 1] != '_' {
                                assert(has_word_before(s, i)) by {
                                    assert(0 <= i - 1 < i && s[i - 1] != '_');
                                }
                            }
                        }
                    }
                }
                assert(camel_prefix(s, n) =~= seq![s[i]]);
                assert(pascal_prefix(s, n) =~= capitalize(camel_prefix(s, n)));
            }
        }
    }
}

/// PascalCase is camelCase with the first character in uppercase.
pub proof fn lemma_pascal_is_capitalized_camel(s: Seq<char>)
    ensures
        pascal_spec(s) == capitalize(camel_spec(s)),
{
    lemma_pascal_camel_prefix(s, s.len());
}

/// Convert snake_case → PascalCase.
pub fn pascal(s: &str) -> (r: String)
    ensures
        r@ == pascal_spec(s@),
{
    let cs = chars_of(s);
    let mut r = String::new();
    let mut i: usize = 0;
    while i < cs.len()
        invariant
            cs@ == s@,
            i <= cs@.len(),
            r@ == pascal_prefix(s@, i as nat),
        decreases cs@.len() - i,
    {
        let c = cs[i];
        if c == '_' {
        } else if i == 0 || cs[i - 1] == '_' {
            let u = char_upper(c);
            push_str(&mut r, u.as_str());
        } else {
            crate::text::push_char(&mut r, c);
        }
        i = i + 1;
    }
    r
}

/// Convert snake_case → camelCase.
pub fn camel(s: &str) -> (r: String)
    ensures
        r@ == camel_spec(s@),
{
    let cs = chars_of(s);
    let mut r = String::new();
    let mut seen_word = false;
    let mut i: usize = 0;
    while i < cs.len()
        invariant
            cs@ == s@,
            i <= cs@.len(),
            r@ == camel_prefix(s@, i as nat),
            seen_word == has_word_before(s@, i as int),
        decreases cs@.len() - i,
    {
        let c = cs[i];
        if c == '_' {
        } else if (i == 0 || cs[i - 1] == '_') && seen_word {
            let u = char_upper(c);
            push_str(&mut r, u.as_str());
        } else {
            crate::text::push_char(&mut r, c);
        }
        proof {
            if c != '_' {
                assert(has_word_before(s@, i + 1)) by {
                    assert(s@[i as int] != '_');
                }
            } else {
                if has_word_before(s@, i + 1) {
                    let j = choose|j: int| 0 <= j < i + 1 && s@[j] != '_';
                    assert(j < i);
                }
            }
        }
        if c != '_' {
            seen_word = true;
        }
        i = i + 1;
    }
    r
}

/// `prefix` followed by the PascalCase rendering of `name`.
fn pascal_prefixed(prefix: &str, name: &str) -> (r: String)
    ensures
        r@ == prefix@ + pascal_spec(name@),
{
    let mut r = to_string(prefix);
    let p = pascal(name);
    push_str(&mut r, p.as_str());
    r
}

/// The C# name of a struct or enum: `s_` and the name in PascalCase.
pub fn struct_name(rust_name: &str) -> (r: String)
    ensures
        r@ == "s_"@ + pascal_spec(rust_name@),
{
    pascal_prefixed("s_", rust_name)
}

/// The non-dyn trait interface: `t_` and the name in PascalCase.
pub fn trait_name(rust_name: &str) -> (r: String)
    ensures
        r@ == "t_"@ + pascal_spec(rust_name@),
{
    pascal_prefixed("t_", rust_name)
}

/// The dyn-capable trait interface (with static member support): `T_` and the
/// name in PascalCase.
pub fn dyn_trait_name(rust_name: &str) -> (r: String)
    ensures
        r@ == "T_"@ + pascal_spec(rust_name@),
{
    pascal_prefixed("T_", rust_name)
}

/// An enum variant name within an enum class: `v_` and the name in PascalCase.
pub fn variant_name(rust_name: &str) -> (r: String)
    ensures
        r@ == "v_"@ + pascal_spec(rust_name@),
{
    pascal_prefixed("v_", rust_name)
}

/// A module as partial class: `mod_` and the name in PascalCase.
pub fn mod_name(rust_name: &str) -> (r: String)
    ensures
        r@ == "mod_"@ + pascal_spec(rust_name@),
{
    pascal_prefixed("mod_", rust_name)
}

/// A crate as partial class: `crt_` and the name in PascalCase.
pub fn crate_name(rust_name: &str) -> (r: String)
    ensures
        r@ == "crt_"@ + pascal_spec(rust_name@),
{
    pascal_prefixed("crt_", rust_name)
}

/// A field: `f_` and the name in camelCase.
pub fn field_name(rust_name: &str) -> (r: String)
    ensures
        r@ == "f_"@ + camel_spec(rust_name@),
{
    let mut r = to_string("f_");
    let c = camel(rust_name);
    push_str(&mut r, c.as_str());
    r
}

/// An associated function or method: `m_` and the name in PascalCase.
pub fn method_name(rust_name: &str) -> (r: String)
    ensures
        r@ == "m_"@ + pascal_spec(rust_name@),
{
    pascal_prefixed("m_", rust_name)
}

/// A constant: `c_` and the name as it is.
pub fn const_name(rust_name: &str) -> (r: String)
    ensures
        r@ == "c_"@ + rust_name@,
{
    crate::naming::prefixed("c_", rust_name)
}

/// A static: `s_` and the name as it is.
pub fn static_name(rust_name: &str) -> (r: String)
    ensures
        r@ == "s_"@ + rust_name@,
{
    crate::naming::prefixed("s_", rust_name)
}

/// A local variable with its uniqueness index: `l_<name>_<index>`.
pub fn local_name(rust_name: &str, index: usize) -> (r: String)
    ensures
        r@ == "l_"@ + rust_name@ + "_"@ + decimal(index as nat),
{
    crate::naming::local_name(rust_name, index)
}

/// A generic type parameter: `P_` and the name as it is.
pub fn generic_param(rust_name: &str) -> (r: String)
    ensures
        r@ == "P_"@ + rust_name@,
{
    crate::naming::prefixed("P_", rust_name)
}

/// An associated type as generic parameter: `A_` and the name as it is.
pub fn assoc_type_param(rust_name: &str) -> (r: String)
    ensures
        r@ == "A_"@ + rust_name@,
{
    crate::naming::prefixed("A_", rust_name)
}

/// `xs` joined with `sep` between consecutive elements.
pub open spec fn join_with(xs: Seq<Seq<char>>, sep: Seq<char>) -> Seq<char>
    decreases xs.len(),
{
    if xs.len() == 0 {
        Seq::empty()
    } else if xs.len() == 1 {
        xs[0]
    } else {
        join_with(xs.drop_last(), sep) + sep + xs.last()
    }
}

/// `base` with the generic arguments `args`: unchanged without arguments,
/// else `base<a1, a2, ...>`.
pub open spec fn generic_args_spec(base: Seq<char>, args: Seq<Seq<char>>) -> Seq<char> {
    if args.len() == 0 {
        base
    } else {
        base + "<"@ + join_with(args, ", "@) + ">"@
    }
}

/// `base` followed by the generic arguments `args`, if there are any.
pub fn generic_args(base: String, args: &[String]) -> (r: String)
    ensures
        r@ == generic_args_spec(base@, crate::text::views(args@)),
{
    let mut base = base;
    let ghost vs = crate::text::views(args@);
    if args.len() > 0 {
        push_str(&mut base, "<");
        let ghost start = base@;
        push_str(&mut base, args[0].as_str());
        let mut i: usize = 1;
        assert(vs.take(1) =~= seq![vs[0]]);
        while i < args.len()
            invariant
                1 <= i <= args@.len(),
                vs == crate::text::views(args@),
                base@ == start + join_with(vs.take(i as int), ", "@),
            decreases args@.len() - i,
        {
            push_str(&mut base, ", ");
            push_str(&mut base, args[i].as_str());
            assert(vs.take(i + 1).drop_last() =~= vs.take(i as int));
            assert(base@ =~= start + join_with(vs.take(i + 1), ", "@));
            i = i + 1;
        }
        assert(vs.take(i as int) =~= vs);
        push_str(&mut base, ">");
    }
    base
}

/// Where a function is defined, with what its C# name depends on.
pub enum FnContainer {
    /// An impl block; `trait_is_debug` when its trait is the `Debug` lang
    /// item (or, where no `Debug` lang item is known, when it has no
    /// trait), and the name of its trait, if any.
    Impl { trait_is_debug: bool, trait_name: Option<String> },
    /// A trait; `is_debug` when it is the `Debug` lang item.
    Trait { is_debug: bool, name: String },
    Module,
    ExternBlock,
    Crate,
}

/// The name of the trait method that formats a value.
pub open spec fn is_fmt(name: Seq<char>) -> bool {
    name == "fmt"@
}

/// The C# name of a function: `DebugFmt` and `DisplayFmt` for the `fmt`
/// of `Debug` and `Display` (in an impl of the trait or in the trait
/// itself), and the method name otherwise.
pub open spec fn function_name_spec(container: FnContainer, name: Seq<char>) -> Seq<char> {
    match container {
        FnContainer::Impl { trait_is_debug, trait_name } => if trait_is_debug && is_fmt(name) {
            "DebugFmt"@
        } else if trait_name.is_some() && trait_name.unwrap()@ == "Display"@ && is_fmt(name) {
            "DisplayFmt"@
        } else {
            "m_"@ + pascal_spec(name)
        },
        FnContainer::Trait { is_debug, name: trait_name } => if is_debug && is_fmt(name) {
            "DebugFmt"@
        } else if trait_name@ == "Display"@ && is_fmt(name) {
            "DisplayFmt"@
        } else {
            "m_"@ + pascal_spec(name)
        },
        _ => "m_"@ + pascal_spec(name),
    }
}

/// The C# name of the function `name` defined in `container`.
pub fn function_name(container: &FnContainer, name: &str) -> (r: String)
    ensures
        r@ == function_name_spec(*container, name@),
{
    let fmt = str_equals(name, "fmt");
    match container {
        FnContainer::Impl { trait_is_debug, trait_name } => {
            if *trait_is_debug && fmt {
                return to_string("DebugFmt");
            }
            match trait_name {
                Some(t) => {
                    if str_equals(t.as_str(), "Display") && fmt {
                        return to_string("DisplayFmt");
                    }
                },
                None => {},
            }
        },
        FnContainer::Trait { is_debug, name: trait_name } => {
            if *is_debug && fmt {
                return to_string("DebugFmt");
            }
            if str_equals(trait_name.as_str(), "Display") && fmt {
                return to_string("DisplayFmt");
            }
        },
        _ => {},
    }
    method_name(name)
}

/// What a module's C# class name depends on.
pub struct ModuleFacts {
    /// Whether the module is the root of its crate.
    pub is_crate_root: bool,
    /// The display name of its crate, where it is a crate root that has one.
    pub crate_display_name: Option<String>,
    /// The module's name, where it has one.
    pub name: Option<String>,
    /// The module it is declared in.
    pub parent: Option<Box<ModuleFacts>>,
    /// For a module defined by a block expression, the index of each
    /// ancestor of the block's syntax node, innermost first.
    pub block_ancestor_indices: Option<Vec<usize>>,
}

/// The view of an optional string.
pub open spec fn opt_str_view(o: Option<String>) -> Option<Seq<char>> {
    match o {
        Some(s) => Some(s@),
        None => None,
    }
}

/// The decimal renderings of `xs`.
pub open spec fn decimals(xs: Seq<usize>) -> Seq<Seq<char>> {
    xs.map_values(|x: usize| decimal(x as nat))
}

/// Whether every module whose name the C# name of `m` depends on has a
/// parent unless it is a crate root.
pub open spec fn module_chain_ok(m: ModuleFacts) -> bool
    decreases m,
{
    m.is_crate_root || match m.parent {
        None => false,
        Some(p) => m.name.is_some() && opt_str_view((*p).name) == opt_str_view(m.name) ==> module_chain_ok(*p),
    }
}

/// The C# class name of a module: `crt_` and the crate's name for a crate
/// root (`unnamed_crate` where it has none); `mod_` and the module's name,
/// with `_` added where the parent module has the same name and the same
/// class name; `block_` and the ancestor indices for a block module; and
/// `unnamed_mod` otherwise.
pub open spec fn mod_simple_name_spec(m: ModuleFacts) -> Seq<char>
    decreases m,
{
    if m.is_crate_root {
        "crt_"@ + pascal_spec(match m.crate_display_name {
            Some(n) => n@,
            None => "unnamed_crate"@,
        })
    } else {
        match m.name {
            Some(n) => {
                let base = "mod_"@ + pascal_spec(n@);
                match m.parent {
                    Some(p) => if opt_str_view((*p).name) != opt_str_view(m.name) {
                        base
                    } else if mod_simple_name_spec(*p) == base {
                        base + "_"@
                    } else {
                        base
                    },
                    None => base,
                }
            },
            None => match m.block_ancestor_indices {
                Some(ix) => "block_"@ + join_with(decimals(ix@), "_"@),
                None => "unnamed_mod"@,
            },
        }
    }
}

fn opt_str_equals(a: &Option<String>, b: &Option<String>) -> (r: bool)
    ensures
        r == (opt_str_view(*a) == opt_str_view(*b)),
{
    match (a, b) {
        (Some(x), Some(y)) => str_equals(x.as_str(), y.as_str()),
        (None, None) => true,
        _ => false,
    }
}

/// `block_` followed by the indices joined with `_`.
fn block_module_name(ix: &Vec<usize>) -> (r: String)
    ensures
        r@ == "block_"@ + join_with(decimals(ix@), "_"@),
{
    let mut r = to_string("block_");
    let ghost start = r@;
    let ghost ds = decimals(ix@);
    let mut i: usize = 0;
    while i < ix.len()
        invariant
            i <= ix@.len(),
            ds == decimals(ix@),
            r@ == start + join_with(ds.take(i as int), "_"@),
        decreases ix@.len() - i,
    {
        let ghost before = r@;
        if i > 0 {
            push_str(&mut r, "_");
        }
        push_decimal(&mut r, ix[i] as u128);
        proof {
            assert(ds.take(i + 1).drop_last() =~= ds.take(i as int));
            assert(ds.take(i + 1).last() == decimal(ix@[i as int] as nat));
            if i == 0 {
                assert(ds.take(1) =~= seq![ds[0]]);
                assert(ds.take(0) =~= Seq::<Seq<char>>::empty());
            }
            assert(r@ =~= start + join_with(ds.take(i + 1), "_"@));
        }
        i = i + 1;
    }
    assert(ds.take(i as int) =~= ds);
    r
}

/// The C# class name of a module.
pub fn mod_simple_name(module: &ModuleFacts) -> (r: String)
    requires
        module_chain_ok(*module),
    ensures
        r@ == mod_simple_name_spec(*module),
{
    mod_simple_name_impl(module)
}

fn mod_simple_name_impl(module: &ModuleFacts) -> (r: String)
    requires
        module_chain_ok(*module),
    ensures
        r@ == mod_simple_name_spec(*module),
    decreases module,
{
    if module.is_crate_root {
        return match &module.crate_display_name {
            Some(n) => crate_name(n.as_str()),
            None => crate_name("unnamed_crate"),
        };
    }
    match &module.name {
        Some(n) => {
            let mut base = mod_name(n.as_str());
            match &module.parent {
                Some(p) => {
                    if !opt_str_equals(&p.name, &module.name) {
                        base
                    } else {
                        let parent_name = mod_simple_name_impl(p);
                        if str_equals(parent_name.as_str(), base.as_str()) {
                            push_str(&mut base, "_");
                        }
                        base
                    }
                },
                None => base,
            }
        },
        None => match &module.block_ancestor_indices {
            Some(ix) => block_module_name(ix),
            None => to_string("unnamed_mod"),
        },
    }
}

} // verus!
