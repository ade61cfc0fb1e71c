//! Which items of the crates being translated are left out of the output:
//! Rust paths of items, the fixed list of excluded paths, items disabled by
//! `cfg`, and items marked as implemented natively in C#.

use vstd::prelude::*;
use crate::names::{opt_str_view, ModuleFacts};
use crate::text::{push_str, str_equals, to_string};

verus! {

/// `a` followed by `b`, where both exist.
pub open spec fn join_path(a: Option<Seq<char>>, sep: Seq<char>, b: Option<Seq<char>>) -> Option<Seq<char>> {
    match (a, b) {
        (Some(x), Some(y)) => Some(x + sep + y),
        _ => None,
    }
}

/// The Rust path of a module: the crate's display name for a crate root,
/// else its parent's path and its name joined with `::`, else its name.
pub open spec fn module_rust_path_spec(m: ModuleFacts) -> Option<Seq<char>>
    decreases m,
{
    if m.is_crate_root {
        opt_str_view(m.crate_display_name)
    } else {
        match m.parent {
            Some(p) => join_path(module_rust_path_spec(*p), "::"@, opt_str_view(m.name)),
            None => opt_str_view(m.name),
        }
    }
}

fn concat_opt(a: Option<String>, sep: &str, b: &Option<String>) -> (r: Option<String>)
    ensures
        opt_str_view(r) == join_path(opt_str_view(a), sep@, opt_str_view(*b)),
{
    match (a, b) {
        (Some(x), Some(y)) => {
            let mut x = x;
            push_str(&mut x, sep);
            push_str(&mut x, y.as_str());
            Some(x)
        },
        _ => None,
    }
}

fn clone_opt_string(o: &Option<String>) -> (r: Option<String>)
    ensures
        opt_str_view(r) == opt_str_view(*o),
{
    match o {
        Some(s) => Some(to_string(s.as_str())),
        None => None,
    }
}

/// The Rust path of a module.
pub fn module_rust_path(m: &ModuleFacts) -> (r: Option<String>)
    ensures
        opt_str_view(r) == module_rust_path_spec(*m),
    decreases m,
{
    if m.is_crate_root {
        clone_opt_string(&m.crate_display_name)
    } else {
        match &m.parent {
            Some(p) => concat_opt(module_rust_path(p), "::", &m.name),
            None => clone_opt_string(&m.name),
        }
    }
}

/// A struct, enum, union or trait: its module and its name.
pub struct NamedItemFacts {
    pub module: ModuleFacts,
    pub name: String,
}

/// An item whose Rust path names it.
pub enum ItemFacts {
    Adt(NamedItemFacts),
    Trait(NamedItemFacts),
    /// An `extern` block, in its module.
    ExternBlock(ModuleFacts),
    /// A crate, with its display name if it has one.
    Crate(Option<String>),
    /// An impl block: its module, the type it is for where that is a
    /// struct, enum or union, and its trait, if any.
    Impl { module: ModuleFacts, self_adt: Option<NamedItemFacts>, trait_: Option<NamedItemFacts> },
    /// A function in the item it is defined in.
    Function { container: Box<ItemFacts>, name: String },
    Module(ModuleFacts),
}

/// The path of a named item: its module's path, `::` and its name.
pub open spec fn named_path_spec(n: NamedItemFacts) -> Option<Seq<char>> {
    join_path(module_rust_path_spec(n.module), "::"@, Some(n.name@))
}

/// The Rust path of an item, where it has one: `<Type as Trait>` for a
/// trait impl on a named type, the type's path for an inherent impl, and
/// `module::<impl>` for an impl on any other type.
pub open spec fn rust_path_spec(item: ItemFacts) -> Option<Seq<char>>
    decreases item,
{
    match item {
        ItemFacts::Adt(n) => named_path_spec(n),
        ItemFacts::Trait(n) => named_path_spec(n),
        ItemFacts::ExternBlock(m) => module_rust_path_spec(m),
        ItemFacts::Crate(name) => opt_str_view(name),
        ItemFacts::Impl { module, self_adt, trait_ } => match self_adt {
            Some(adt) => match trait_ {
                Some(t) => match (named_path_spec(adt), named_path_spec(t)) {
                    (Some(a), Some(b)) => Some("<"@ + a + " as "@ + b + ">"@),
                    _ => None,
                },
                None => named_path_spec(adt),
            },
            None => join_path(module_rust_path_spec(module), "::"@, Some("<impl>"@)),
        },
        ItemFacts::Function { container, name } => join_path(rust_path_spec(*container), "::"@, Some(name@)),
        ItemFacts::Module(m) => module_rust_path_spec(m),
    }
}

fn named_path(n: &NamedItemFacts) -> (r: Option<String>)
    ensures
        opt_str_view(r) == named_path_spec(*n),
{
    concat_opt(module_rust_path(&n.module), "::", &Some(to_string(n.name.as_str())))
}

/// The Rust path of an item, where it has one.
pub fn rust_path(item: &ItemFacts) -> (r: Option<String>)
    ensures
        opt_str_view(r) == rust_path_spec(*item),
    decreases item,
{
    match item {
        ItemFacts::Adt(n) => named_path(n),
        ItemFacts::Trait(n) => named_path(n),
        ItemFacts::ExternBlock(m) => module_rust_path(m),
        ItemFacts::Crate(name) => clone_opt_string(name),
        ItemFacts::Impl { module, self_adt, trait_ } => match self_adt {
            Some(adt) => match trait_ {
                Some(t) => match (named_path(adt), named_path(t)) {
                    (Some(a), Some(b)) => {
                        let mut r = to_string("<");
                        push_str(&mut r, a.as_str());
                        push_str(&mut r, " as ");
                        push_str(&mut r, b.as_str());
                        push_str(&mut r, ">");
                        Some(r)
                    },
                    _ => None,
                },
                None => named_path(adt),
            },
            None => concat_opt(module_rust_path(module), "::", &Some(to_string("<impl>"))),
        },
        ItemFacts::Function { container, name } => concat_opt(rust_path(container), "::", &Some(to_string(name.as_str()))),
        ItemFacts::Module(m) => module_rust_path(m),
    }
}

/// The Rust paths of the items that are never translated.
pub open spec fn excluded_paths() -> Seq<Seq<char>> {
    seq![
        "_____dummy_for_format"@,
        "serde_core::de::value::SeqAccessDeserializer"@,
        "serde_core::de::value::MapAccessDeserializer"@,
        "serde_core::de::value::EnumAccessDeserializer"@,
        "serde_core::de::value::PairDeserializer"@,
        "serde_core::de::value::PairVisitor"@,
        "<serde_core::de::value::BorrowedStrDeserializer as serde_core::de::EnumAccess>"@,
        "<serde_core::de::value::StringDeserializer as serde_core::de::EnumAccess>"@,
        "<serde_core::de::value::CowStrDeserializer as serde_core::de::EnumAccess>"@,
        "<serde_core::de::value::StrDeserializer as serde_core::de::EnumAccess>"@,
        "<serde_core::de::value::U32Deserializer as serde_core::de::EnumAccess>"@,
        "<serde_core::de::value::Error as serde_core::ser::Error>"@,
        "<serde_core::de::value::MapDeserializer as serde_core::de::SeqAccess>"@,
        "serde_core::de::value::private::unit_only"@,
        "serde_core::de::value::private::UnitOnly"@,
        "serde_core::de::value::private::map_as_enum"@,
        "serde_core::de::value::private::MapAsEnum"@,
        "serde_core::de::impls::ArrayVisitor"@,
        "serde_core::de::impls::ArrayInPlaceVisitor"@,
        "serde_core::ser::impossible"@,
    ]
}

fn excluded_path(i: usize) -> (r: &'static str)
    requires
        i < excluded_paths().len(),
    ensures
        r@ == excluded_paths()[i as int],
{
    match i {
        0 => "_____dummy_for_format",
        1 => "serde_core::de::value::SeqAccessDeserializer",
        2 => "serde_core::de::value::MapAccessDeserializer",
        3 => "serde_core::de::value::EnumAccessDeserializer",
        4 => "serde_core::de::value::PairDeserializer",
        5 => "serde_core::de::value::PairVisitor",
        6 => "<serde_core::de::value::BorrowedStrDeserializer as serde_core::de::EnumAccess>",
        7 => "<serde_core::de::value::StringDeserializer as serde_core::de::EnumAccess>",
        8 => "<serde_core::de::value::CowStrDeserializer as serde_core::de::EnumAccess>",
        9 => "<serde_core::de::value::StrDeserializer as serde_core::de::EnumAccess>",
        10 => "<serde_core::de::value::U32Deserializer as serde_core::de::EnumAccess>",
        11 => "<serde_core::de::value::Error as serde_core::ser::Error>",
        12 => "<serde_core::de::value::MapDeserializer as serde_core::de::SeqAccess>",
        13 => "serde_core::de::value::private::unit_only",
        14 => "serde_core::de::value::private::UnitOnly",
        15 => "serde_core::de::value::private::map_as_enum",
        16 => "serde_core::de::value::private::MapAsEnum",
        17 => "serde_core::de::impls::ArrayVisitor",
        18 => "serde_core::de::impls::ArrayInPlaceVisitor",
        _ => "serde_core::ser::impossible",
    }
}

/// Whether `path` is one of the excluded paths.
pub fn is_excluded_path(path: &str) -> (r: bool)
    ensures
        r == excluded_paths().contains(path@),
{
    let mut i: usize = 0;
    while i < 20
        invariant
            i <= 20,
            excluded_paths().len() == 20,
            forall|k: int| 0 <= k < i ==> excluded_paths()[k] != path@,
        decreases 20 - i,
    {
        if str_equals(excluded_path(i), path) {
            return true;
        }
        i = i + 1;
    }
    false
}

/// Whether an item with Rust path `path` is translated: its path is not an
/// excluded one and no `cfg` attribute of it is known to be off.
/// `cfg_check` is what the crate's configuration says of the item's `cfg`
/// attributes: `None` without any, `Some(None)` when it cannot tell.
pub open spec fn should_emit_spec(path: Option<Seq<char>>, cfg_check: Option<Option<bool>>) -> bool {
    !(path.is_some() && excluded_paths().contains(path.unwrap())) && cfg_check != Some(Some(false))
}

/// Whether `item` is translated, given what the crate's configuration says
/// of its `cfg` attributes.
pub fn should_emit(item: &ItemFacts, cfg_check: Option<Option<bool>>) -> (r: bool)
    ensures
        r == should_emit_spec(rust_path_spec(*item), cfg_check),
{
    let path = rust_path(item);
    let excluded = match &path {
        Some(p) => is_excluded_path(p.as_str()),
        None => false,
    };
    !excluded && !cfg_disabled(cfg_check)
}

/// Whether an item's `cfg` attributes are known to be off.
pub fn cfg_disabled(cfg_check: Option<Option<bool>>) -> (r: bool)
    ensures
        r == (cfg_check == Some(Some(false))),
{
    match cfg_check {
        Some(Some(false)) => true,
        _ => false,
    }
}

/// The path of an attribute's meta item: the name of each segment, where
/// the segment has one; `None` where the meta item has no path.
pub struct MetaFacts {
    pub path: Option<Vec<Option<String>>>,
}

/// An attribute of an item.
pub enum AttrFacts {
    /// `#[cfg_attr(predicate, metas...)]`: `enabled` when the predicate
    /// holds in the crate's configuration; `own` is the attribute's own meta.
    CfgAttr { enabled: bool, metas: Vec<MetaFacts>, own: MetaFacts },
    /// Any other attribute with a meta item.
    Meta(MetaFacts),
    /// An attribute without a meta item.
    NoMeta,
}

/// The segment names of a path, as views.
pub open spec fn segment_views(segs: Seq<Option<String>>) -> Seq<Option<Seq<char>>> {
    segs.map_values(|s: Option<String>| opt_str_view(s))
}

/// Whether a path is `r2cs_native` or `r2cs::native`.
pub open spec fn is_native_path(segs: Seq<Option<Seq<char>>>) -> bool {
    (segs.len() == 1 && segs[0] == Some("r2cs_native"@))
        || (segs.len() == 2 && segs[0] == Some("r2cs"@) && segs[1] == Some("native"@))
}

/// Whether a meta item marks the item as native.
pub open spec fn meta_is_native(m: MetaFacts) -> bool {
    match m.path {
        Some(segs) => is_native_path(segment_views(segs@)),
        None => false,
    }
}

/// The meta items an attribute applies: those of an enabled `cfg_attr`,
/// else its own meta item, if any.
pub open spec fn attr_metas(a: AttrFacts) -> Seq<MetaFacts> {
    match a {
        AttrFacts::CfgAttr { enabled, metas, own } => if enabled { metas@ } else { seq![own] },
        AttrFacts::Meta(m) => seq![m],
        AttrFacts::NoMeta => Seq::empty(),
    }
}

/// Whether an attribute marks the item as native.
pub open spec fn attr_is_native(a: AttrFacts) -> bool {
    exists|k: int| 0 <= k < attr_metas(a).len() && meta_is_native(#[trigger] attr_metas(a)[k])
}

/// Whether an item is implemented natively in C#: one of its attributes
/// applies `r2cs_native` or `r2cs::native`. An item whose attributes are
/// not known is not.
pub open spec fn is_r2cs_native_spec(attrs: Option<Seq<AttrFacts>>) -> bool {
    attrs.is_some() && any_attr_native(attrs.unwrap())
}

/// Whether one of the attributes marks the item as native.
pub open spec fn any_attr_native(a: Seq<AttrFacts>) -> bool {
    exists|k: int| 0 <= k < a.len() && attr_is_native(#[trigger] a[k])
}

/// The attributes of an item, where they are known.
pub open spec fn attrs_view(attrs: Option<Vec<AttrFacts>>) -> Option<Seq<AttrFacts>> {
    match attrs {
        Some(v) => Some(v@),
        None => None,
    }
}

fn opt_equals_str(o: &Option<String>, s: &str) -> (r: bool)
    ensures
        r == (opt_str_view(*o) == Some(s@)),
{
    match o {
        Some(x) => str_equals(x.as_str(), s),
        None => false,
    }
}

fn meta_is_native_exec(m: &MetaFacts) -> (r: bool)
    ensures
        r == meta_is_native(*m),
{
    match &m.path {
        Some(segs) => {
            let ghost sv = segment_views(segs@);
            if segs.len() == 1 {
                assert(sv[0] == opt_str_view(segs@[0]));
                opt_equals_str(&segs[0], "r2cs_native")
            } else if segs.len() == 2 {
                assert(sv[0] == opt_str_view(segs@[0]));
                assert(sv[1] == opt_str_view(segs@[1]));
                opt_equals_str(&segs[0], "r2cs") && opt_equals_str(&segs[1], "native")
            } else {
                false
            }
        },
        None => false,
    }
}

fn metas_any_native(metas: &Vec<MetaFacts>) -> (r: bool)
    ensures
        r == exists|k: int| 0 <= k < metas@.len() && meta_is_native(#[trigger] metas@[k]),
{
    let mut i: usize = 0;
    while i < metas.len()
        invariant
            i <= metas@.len(),
            forall|k: int| 0 <= k < i ==> !meta_is_native(#[trigger] metas@[k]),
        decreases metas@.len() - i,
    {
        if meta_is_native_exec(&metas[i]) {
            return true;
        }
        i = i + 1;
    }
    false
}

fn attr_is_native_exec(a: &AttrFacts) -> (r: bool)
    ensures
        r == attr_is_native(*a),
{
    match a {
        AttrFacts::CfgAttr { enabled, metas, own } => {
            if *enabled {
                metas_any_native(metas)
            } else {
                let r = meta_is_native_exec(own);
                assert(attr_metas(*a)[0] == *own);
                r
            }
        },
        AttrFacts::Meta(m) => {
            let r = meta_is_native_exec(m);
            assert(attr_metas(*a)[0] == *m);
            r
        },
        AttrFacts::NoMeta => false,
    }
}

/// Whether an item with the attributes `attrs` is implemented natively in C#.
pub fn is_r2cs_native(attrs: &Option<Vec<AttrFacts>>) -> (r: bool)
    ensures
        r == is_r2cs_native_spec(attrs_view(*attrs)),
{
    match attrs {
        Some(v) => {
            let mut i: usize = 0;
            while i < v.len()
                invariant
                    i <= v@.len(),
                    attrs_view(*attrs) == Some(v@),
                    forall|k: int| 0 <= k < i ==> !attr_is_native(#[trigger] v@[k]),
                decreases v@.len() - i,
            {
                if attr_is_native_exec(&v[i]) {
                    assert(attr_is_native(v@[i as int]));
                    return true;
                }
                i = i + 1;
            }
            false
        },
        None => false,
    }
}

} // verus!
