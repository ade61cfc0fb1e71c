//! Which C# function a Rust function call becomes.
//!
//! A few library functions are replaced by C# equivalents (`into` by the
//! target's `From`, `str::parse` by `FromStr`, `collect` by `FromIter`,
//! ...), some calls are left out altogether (`Box::new`, an `into` to the
//! same type), and every other function is called where it is defined:
//! on the type of its impl, on the type its trait is used with, or on the
//! class of its module.

use vstd::prelude::*;
use crate::names::{function_name, function_name_spec, FnContainer};
use crate::options::ArgSource;
use crate::output::Code;
use crate::text::{push_str, str_equals, to_string};

verus! {

/// A type as the resolution sees it: its identity and its C# rendering.
pub struct TypeRef {
    pub id: u64,
    pub cs: String,
}

/// What kind of type the self type of an impl is, where the resolution
/// treats it specially.
#[derive(Copy, Clone, PartialEq, Eq, Structural)]
pub enum SelfTypeKind {
    Str,
    Char,
    OwnedBox,
    OsStr,
    OptionOrResult,
    Other,
}

/// Where the called function is defined.
pub enum CallContainer {
    /// An impl block, with its self type (its generic parameters
    /// instantiated with the call's) and what kind of type that is.
    Impl { self_ty: TypeRef, kind: SelfTypeKind },
    /// A trait.
    Trait { trait_id: u64 },
    /// A module, with the C# class of the module.
    Module { class_cs: String },
    /// An extern block or a crate.
    Other,
}

/// What the resolution of a call depends on.
pub struct CallFacts {
    /// The function's Rust name.
    pub name: String,
    /// Where the function is defined, as its C# name sees it.
    pub fn_container: FnContainer,
    pub container: CallContainer,
    pub has_self_param: bool,
    /// The generic arguments of the function's impl or trait, if any.
    pub parent_args: Option<Vec<TypeRef>>,
    /// The generic arguments of the function itself.
    pub fn_args: Vec<TypeRef>,
    /// The type arguments of `Into` where the function is `Into::into`
    /// (in the trait or an impl of it) and the `Into` lang item is known.
    pub into_params: Option<Vec<TypeRef>>,
    /// Whether the function is `Iterator::collect` (in the trait or an
    /// impl of it) and the `Iterator` lang item is known.
    pub iterator_resolved: bool,
    /// The sources of the C# generic parameters of the function.
    pub generic_sources: Vec<u64>,
    /// The C# rendering, for static access, of the first parent argument.
    pub default_static_cs: Option<String>,
}

/// The function a call resolves to.
pub enum ResolvedFunction {
    Static {
        self_ty: TypeRef,
        trait_: Option<(u64, Vec<TypeRef>)>,
        function_name: String,
        generic_sources: Vec<u64>,
        generic_args: Vec<TypeRef>,
        args_map: Option<Vec<ArgSource>>,
    },
    Method {
        self_ty: TypeRef,
        trait_: Option<(u64, Vec<TypeRef>)>,
        function_name: String,
        generic_sources: Vec<u64>,
        generic_args: Vec<TypeRef>,
        args_map: Option<(ArgSource, Vec<ArgSource>)>,
    },
    ModuleFunction {
        function_path: String,
        generic_sources: Vec<u64>,
        generic_args: Vec<TypeRef>,
        args_map: Option<Vec<ArgSource>>,
    },
    OmitCall { comment: String },
}

/// The model of a type: its identity and C# rendering.
pub open spec fn ty_view(t: TypeRef) -> (u64, Seq<char>) {
    (t.id, t.cs@)
}

/// The models of a list of types.
pub open spec fn tys_view(ts: Seq<TypeRef>) -> Seq<(u64, Seq<char>)> {
    ts.map_values(|t: TypeRef| ty_view(t))
}

/// Whether two types are the same, or render the same in C#.
pub open spec fn same_in_cs(a: TypeRef, b: TypeRef) -> bool {
    a.id == b.id || a.cs@ == b.cs@
}

/// The self type of the impl the function is defined in, if it is of `kind`.
pub open spec fn impl_of_kind(f: CallFacts, kind: SelfTypeKind) -> bool {
    match f.container {
        CallContainer::Impl { self_ty, kind: k } => k == kind,
        _ => false,
    }
}

pub open spec fn impl_self_ty(f: CallFacts) -> TypeRef {
    f.container->Impl_self_ty
}

pub open spec fn is_into(f: CallFacts) -> bool {
    f.name@ == "into"@ && f.into_params.is_some()
}

pub open spec fn is_str_parse(f: CallFacts) -> bool {
    f.name@ == "parse"@ && impl_of_kind(f, SelfTypeKind::Str)
}

pub open spec fn is_collect(f: CallFacts) -> bool {
    f.name@ == "collect"@ && f.iterator_resolved
}

pub open spec fn is_encode_utf8(f: CallFacts) -> bool {
    f.name@ == "encode_utf8"@ && impl_of_kind(f, SelfTypeKind::Char)
}

pub open spec fn is_box_new(f: CallFacts) -> bool {
    f.name@ == "new"@ && impl_of_kind(f, SelfTypeKind::OwnedBox)
}

pub open spec fn is_box_as_ref(f: CallFacts) -> bool {
    f.name@ == "as_ref"@ && impl_of_kind(f, SelfTypeKind::OwnedBox)
}

pub open spec fn is_os_str_new(f: CallFacts) -> bool {
    f.name@ == "new"@ && impl_of_kind(f, SelfTypeKind::OsStr)
}

pub open spec fn is_unwrap_or_default(f: CallFacts) -> bool {
    f.name@ == "unwrap_or_default"@ && impl_of_kind(f, SelfTypeKind::OptionOrResult)
}

/// The calls the resolution accepts: `into` with exactly a self and a
/// target type, `str::parse` with one type argument, `collect` with a type
/// argument, `unwrap_or_default` on a type with one or two arguments whose
/// C# rendering is known, and otherwise a function of an impl or trait
/// with its generic arguments, or of a module.
pub open spec fn resolvable(f: CallFacts) -> bool {
    if is_into(f) {
        f.into_params.unwrap()@.len() == 2
    } else if is_str_parse(f) {
        f.fn_args@.len() == 1
    } else if is_collect(f) {
        f.fn_args@.len() >= 1
    } else if is_encode_utf8(f) || is_box_new(f) || is_box_as_ref(f) || is_os_str_new(f) {
        true
    } else if is_unwrap_or_default(f) {
        f.parent_args.is_some() && (f.parent_args.unwrap()@.len() == 1 || f.parent_args.unwrap()@.len() == 2)
            && f.default_static_cs.is_some()
    } else {
        match f.container {
            CallContainer::Impl { .. } => f.parent_args.is_some(),
            CallContainer::Trait { .. } => f.parent_args.is_some() && f.parent_args.unwrap()@.len() >= 1,
            CallContainer::Module { .. } => true,
            CallContainer::Other => false,
        }
    }
}

/// Whether `r` is a static call of `name` on `self_ty`, with no trait, no
/// generics and the arguments as they are.
pub open spec fn plain_static(r: ResolvedFunction, self_ty: TypeRef, name: Seq<char>) -> bool {
    match r {
        ResolvedFunction::Static { self_ty: s, trait_, function_name, generic_sources, generic_args, args_map } => {
            &&& ty_view(s) == ty_view(self_ty)
            &&& trait_.is_none()
            &&& function_name@ == name
            &&& generic_sources@.len() == 0
            &&& generic_args@.len() == 0
            &&& args_map.is_none()
        },
        _ => false,
    }
}

/// Whether `r` is a call that is left out, with `comment` in its place.
pub open spec fn omitted(r: ResolvedFunction, comment: Seq<char>) -> bool {
    match r {
        ResolvedFunction::OmitCall { comment: c } => c@ == comment,
        _ => false,
    }
}

/// Whether `r` is the call of `f` where it is defined.
pub open spec fn generic_call(f: CallFacts, r: ResolvedFunction) -> bool {
    let name = function_name_spec(f.fn_container, f.name@);
    match f.container {
        CallContainer::Impl { self_ty, .. } => {
            let same = |s: TypeRef, t: Option<(u64, Vec<TypeRef>)>, n: String, gs: Vec<u64>, ga: Vec<TypeRef>| {
                &&& ty_view(s) == ty_view(self_ty)
                &&& t.is_none()
                &&& n@ == name
                &&& gs@ == f.generic_sources@
                &&& tys_view(ga@) == tys_view(f.fn_args@)
            };
            if f.has_self_param {
                match r {
                    ResolvedFunction::Method { self_ty: s, trait_: t, function_name: n, generic_sources: gs, generic_args: ga, args_map } =>
                        same(s, t, n, gs, ga) && args_map.is_none(),
                    _ => false,
                }
            } else {
                match r {
                    ResolvedFunction::Static { self_ty: s, trait_: t, function_name: n, generic_sources: gs, generic_args: ga, args_map } =>
                        same(s, t, n, gs, ga) && args_map.is_none(),
                    _ => false,
                }
            }
        },
        CallContainer::Trait { trait_id } => {
            let pa = f.parent_args.unwrap()@;
            let same = |s: TypeRef, t: Option<(u64, Vec<TypeRef>)>, n: String, gs: Vec<u64>, ga: Vec<TypeRef>| {
                &&& ty_view(s) == ty_view(pa[0])
                &&& t.is_some() && t.unwrap().0 == trait_id && tys_view(t.unwrap().1@) == tys_view(pa)
                &&& n@ == name
                &&& gs@ == f.generic_sources@
                &&& tys_view(ga@) == tys_view(f.fn_args@)
            };
            if f.has_self_param {
                match r {
                    ResolvedFunction::Method { self_ty: s, trait_: t, function_name: n, generic_sources: gs, generic_args: ga, args_map } =>
                        same(s, t, n, gs, ga) && args_map.is_none(),
                    _ => false,
                }
            } else {
                match r {
                    ResolvedFunction::Static { self_ty: s, trait_: t, function_name: n, generic_sources: gs, generic_args: ga, args_map } =>
                        same(s, t, n, gs, ga) && args_map.is_none(),
                    _ => false,
                }
            }
        },
        CallContainer::Module { class_cs } => match r {
            ResolvedFunction::ModuleFunction { function_path, generic_sources, generic_args, args_map } => {
                &&& function_path@ == class_cs@ + "."@ + name
                &&& generic_sources@ == f.generic_sources@
                &&& tys_view(generic_args@) == tys_view(f.fn_args@)
                &&& args_map.is_none()
            },
            _ => false,
        },
        CallContainer::Other => false,
    }
}

/// Whether `r` is what the call described by `f` resolves to, rule by rule
/// in this order: `into`, `str::parse`, `collect`, `char::encode_utf8`,
/// `Box::new`, `Box::as_ref`, `OsStr::new`, `unwrap_or_default` on
/// `Option` or `Result`, and otherwise the function where it is defined.
pub open spec fn resolved_as(f: CallFacts, r: ResolvedFunction) -> bool {
    if is_into(f) {
        let ps = f.into_params.unwrap()@;
        if same_in_cs(ps[1], ps[0]) {
            omitted(r, "/*omit Into::into method*/"@)
        } else {
            plain_static(r, ps[1], "m_From/*convert from Into::into method*/"@)
        }
    } else if is_str_parse(f) {
        let target = f.fn_args@[0];
        if same_in_cs(target, impl_self_ty(f)) {
            omitted(r, "/*omit str::parse method*/"@)
        } else {
            plain_static(r, target, "m_FromStr/*convert from str::parse method*/"@)
        }
    } else if is_collect(f) {
        plain_static(r, f.fn_args@[0], "m_FromIter/*collect*/"@)
    } else if is_encode_utf8(f) {
        match r {
            ResolvedFunction::Method { self_ty, trait_, function_name, generic_sources, generic_args, args_map } => {
                &&& ty_view(self_ty) == ty_view(impl_self_ty(f))
                &&& trait_.is_none()
                &&& function_name@ == "ToString/*converted from encode_utf8*/"@
                &&& generic_sources@.len() == 0
                &&& generic_args@.len() == 0
                &&& args_map is Some
                &&& args_map.unwrap().0 == ArgSource::Source(0)
                &&& args_map.unwrap().1@.len() == 0
            },
            _ => false,
        }
    } else if is_box_new(f) {
        omitted(r, "/*omit Box::new method*/"@)
    } else if is_box_as_ref(f) {
        omitted(r, "/*omit Box::as_ref method*/"@)
    } else if is_os_str_new(f) {
        omitted(r, "/*omit OsStr::new method*/"@)
    } else if is_unwrap_or_default(f) {
        match r {
            ResolvedFunction::Method { self_ty, trait_, function_name, generic_sources, generic_args, args_map } => {
                &&& ty_view(self_ty) == ty_view(impl_self_ty(f))
                &&& trait_.is_none()
                &&& function_name@ == "m_UnwrapOrElse"@
                &&& generic_sources@.len() == 0
                &&& generic_args@.len() == 0
                &&& args_map is Some
                &&& args_map.unwrap().0 == ArgSource::Source(0)
                &&& args_map.unwrap().1@.len() == 1
                &&& args_map.unwrap().1@[0] is CustomExpr
                &&& args_map.unwrap().1@[0]->CustomExpr_0@.buf == f.default_static_cs.unwrap()@ + ".m_Default"@
                &&& args_map.unwrap().1@[0]->CustomExpr_0@.indent == 0
            },
            _ => false,
        }
    } else {
        generic_call(f, r)
    }
}

fn clone_type_ref(t: &TypeRef) -> (r: TypeRef)
    ensures
        r == *t,
{
    TypeRef { id: t.id, cs: t.cs.clone() }
}

fn clone_types(v: &Vec<TypeRef>) -> (r: Vec<TypeRef>)
    ensures
        r@ == v@,
{
    let mut out: Vec<TypeRef> = Vec::new();
    let mut i: usize = 0;
    while i < v.len()
        invariant
            i <= v@.len(),
            out@ == v@.take(i as int),
        decreases v@.len() - i,
    {
        out.push(clone_type_ref(&v[i]));
        assert(out@ =~= v@.take(i + 1));
        i = i + 1;
    }
    assert(v@.take(v@.len() as int) =~= v@);
    out
}

fn clone_ids(v: &Vec<u64>) -> (r: Vec<u64>)
    ensures
        r@ == v@,
{
    let mut out: Vec<u64> = Vec::new();
    let mut i: usize = 0;
    while i < v.len()
        invariant
            i <= v@.len(),
            out@ == v@.take(i as int),
        decreases v@.len() - i,
    {
        out.push(v[i]);
        assert(out@ =~= v@.take(i + 1));
        i = i + 1;
    }
    assert(v@.take(v@.len() as int) =~= v@);
    out
}

fn same_in_cs_exec(a: &TypeRef, b: &TypeRef) -> (r: bool)
    ensures
        r == same_in_cs(*a, *b),
{
    a.id == b.id || str_equals(a.cs.as_str(), b.cs.as_str())
}

fn impl_kind(f: &CallFacts) -> (r: Option<SelfTypeKind>)
    ensures
        match r {
            Some(k) => impl_of_kind(*f, k) && f.container is Impl,
            None => !(f.container is Impl),
        },
{
    match &f.container {
        CallContainer::Impl { kind, .. } => Some(*kind),
        _ => None,
    }
}

fn plain_static_exec(self_ty: &TypeRef, name: &str) -> (r: ResolvedFunction)
    ensures
        plain_static(r, *self_ty, name@),
{
    ResolvedFunction::Static {
        self_ty: clone_type_ref(self_ty),
        trait_: None,
        function_name: to_string(name),
        generic_sources: Vec::new(),
        generic_args: Vec::new(),
        args_map: None,
    }
}

fn omit(comment: &str) -> (r: ResolvedFunction)
    ensures
        omitted(r, comment@),
{
    ResolvedFunction::OmitCall { comment: to_string(comment) }
}

/// Resolves a call of the function described by `f` to the C# function
/// that is called in its place, or to no call at all.
pub fn resolve_function(f: &CallFacts) -> (r: ResolvedFunction)
    requires
        resolvable(*f),
    ensures
        resolved_as(*f, r),
{
    let kind = impl_kind(f);
    let is_impl_of = |k: SelfTypeKind| -> (b: bool)
        ensures
            b == impl_of_kind(*f, k),
    {
        match kind {
            Some(x) => x == k,
            None => false,
        }
    };

    // T::into<U> => U::from()
    if str_equals(f.name.as_str(), "into") {
        if let Some(ps) = &f.into_params {
            let self_ty = &ps[0];
            let target_ty = &ps[1];
            return if same_in_cs_exec(target_ty, self_ty) {
                omit("/*omit Into::into method*/")
            } else {
                plain_static_exec(target_ty, "m_From/*convert from Into::into method*/")
            };
        }
    }

    // str::parse<U> => U::from_str()
    if str_equals(f.name.as_str(), "parse") && is_impl_of(SelfTypeKind::Str) {
        let target_ty = &f.fn_args[0];
        let self_ty = match &f.container {
            CallContainer::Impl { self_ty, .. } => self_ty,
            _ => {
                proof {
                    assert(false);
                }
                target_ty
            },
        };
        return if same_in_cs_exec(target_ty, self_ty) {
            omit("/*omit str::parse method*/")
        } else {
            plain_static_exec(target_ty, "m_FromStr/*convert from str::parse method*/")
        };
    }

    // T::collect<B>() => B::from_iter
    if str_equals(f.name.as_str(), "collect") && f.iterator_resolved {
        return plain_static_exec(&f.fn_args[0], "m_FromIter/*collect*/");
    }

    if str_equals(f.name.as_str(), "encode_utf8") && is_impl_of(SelfTypeKind::Char) {
        if let CallContainer::Impl { self_ty, .. } = &f.container {
            return ResolvedFunction::Method {
                self_ty: clone_type_ref(self_ty),
                trait_: None,
                function_name: to_string("ToString/*converted from encode_utf8*/"),
                generic_sources: Vec::new(),
                generic_args: Vec::new(),
                args_map: Some((ArgSource::Source(0), Vec::new())),
            };
        }
    }

    if str_equals(f.name.as_str(), "new") && is_impl_of(SelfTypeKind::OwnedBox) {
        return omit("/*omit Box::new method*/");
    }

    if str_equals(f.name.as_str(), "as_ref") && is_impl_of(SelfTypeKind::OwnedBox) {
        return omit("/*omit Box::as_ref method*/");
    }

    if str_equals(f.name.as_str(), "new") && is_impl_of(SelfTypeKind::OsStr) {
        return omit("/*omit OsStr::new method*/");
    }

    // Option<T>::unwrap_or_default() => Option<T>::unwrap_or_else(T::default)
    if str_equals(f.name.as_str(), "unwrap_or_default") && is_impl_of(SelfTypeKind::OptionOrResult) {
        if let CallContainer::Impl { self_ty, .. } = &f.container {
            let default_cs = match &f.default_static_cs {
                Some(s) => s,
                None => {
                    proof {
                        assert(false);
                    }
                    &f.name
                },
            };
            let mut text = to_string(default_cs.as_str());
            push_str(&mut text, ".m_Default");
            let mut custom: Vec<ArgSource> = Vec::new();
            custom.push(ArgSource::CustomExpr(Code::from(text)));
            return ResolvedFunction::Method {
                self_ty: clone_type_ref(self_ty),
                trait_: None,
                function_name: to_string("m_UnwrapOrElse"),
                generic_sources: Vec::new(),
                generic_args: Vec::new(),
                args_map: Some((ArgSource::Source(0), custom)),
            };
        }
    }

    // the function where it is defined
    let name = function_name(&f.fn_container, f.name.as_str());
    match &f.container {
        CallContainer::Impl { self_ty, .. } => {
            if f.has_self_param {
                ResolvedFunction::Method {
                    self_ty: clone_type_ref(self_ty),
                    trait_: None,
                    function_name: name,
                    generic_sources: clone_ids(&f.generic_sources),
                    generic_args: clone_types(&f.fn_args),
                    args_map: None,
                }
            } else {
                ResolvedFunction::Static {
                    self_ty: clone_type_ref(self_ty),
                    trait_: None,
                    function_name: name,
                    generic_sources: clone_ids(&f.generic_sources),
                    generic_args: clone_types(&f.fn_args),
                    args_map: None,
                }
            }
        },
        CallContainer::Trait { trait_id } => {
            let parent_args = match &f.parent_args {
                Some(p) => p,
                None => {
                    proof {
                        assert(false);
                    }
                    &f.fn_args
                },
            };
            if f.has_self_param {
                ResolvedFunction::Method {
                    self_ty: clone_type_ref(&parent_args[0]),
                    trait_: Some((*trait_id, clone_types(parent_args))),
                    function_name: name,
                    generic_sources: clone_ids(&f.generic_sources),
                    generic_args: clone_types(&f.fn_args),
                    args_map: None,
                }
            } else {
                ResolvedFunction::Static {
                    self_ty: clone_type_ref(&parent_args[0]),
                    trait_: Some((*trait_id, clone_types(parent_args))),
                    function_name: name,
                    generic_sources: clone_ids(&f.generic_sources),
                    generic_args: clone_types(&f.fn_args),
                    args_map: None,
                }
            }
        },
        CallContainer::Module { class_cs } => {
            let mut path = to_string(class_cs.as_str());
            push_str(&mut path, ".");
            push_str(&mut path, name.as_str());
            ResolvedFunction::ModuleFunction {
                function_path: path,
                generic_sources: clone_ids(&f.generic_sources),
                generic_args: clone_types(&f.fn_args),
                args_map: None,
            }
        },
        CallContainer::Other => {
            proof {
                assert(false);
            }
            omit("")
        },
    }
}

} // verus!
