//! Rust types → C# type strings.
//!
//! All generated C# type names are fully qualified (prefixed with
//! `global::`) so they are unambiguous regardless of the C# namespace
//! context in which generated code is placed.

use vstd::prelude::*;
use crate::names::join_with;
use crate::naming;
use crate::text::{push_str, to_string, views};

verus! {

/// Signed integer types.
#[derive(Copy, Clone)]
pub enum IntTy {
    Isize,
    I8,
    I16,
    I32,
    I64,
    I128,
}

/// Unsigned integer types.
#[derive(Copy, Clone)]
pub enum UintTy {
    Usize,
    U8,
    U16,
    U32,
    U64,
    U128,
}

/// Floating-point types (by name only: no floating-point value is involved).
#[derive(Copy, Clone)]
pub enum FloatTy {
    F16,
    F32,
    F64,
    F128,
}

/// One segment of the definition path of an item.
pub enum DefPathSeg {
    /// A name in the type namespace (module, struct, enum, trait).
    TypeNs(String),
    /// A name in the value namespace (function, constant).
    ValueNs(String),
    /// A macro name.
    MacroNs(String),
    Impl,
    CrateRoot,
    /// Any other kind of segment.
    Other,
}

/// The definition path of an item: its crate's name and the path within it.
pub struct DefPath {
    pub crate_name: String,
    pub data: Vec<DefPathSeg>,
}

/// A Rust type, as far as the C# mapping reads it.
pub enum RustTy {
    Bool,
    Char,
    Int(IntTy),
    Uint(UintTy),
    Float(FloatTy),
    Str,
    Tuple(Vec<RustTy>),
    Never,
    /// `&T` or `&mut T`.
    Ref(Box<RustTy>),
    /// `*const T` or `*mut T`.
    RawPtr(Box<RustTy>),
    Slice(Box<RustTy>),
    /// `dyn Trait`.
    Dynamic,
    /// A struct or enum with its generic arguments.
    Adt(DefPath, Vec<GenericArg>),
    /// A generic parameter by name.
    Param(String),
    /// Any kind the mapping does not support.
    Other,
}

/// A generic argument: a type, or a lifetime or constant (which the C#
/// mapping drops).
pub enum GenericArg {
    Type(RustTy),
    Lifetime,
    Const,
}

/// The C# name of a signed integer type.
pub open spec fn int_ty_spec(k: IntTy) -> Seq<char> {
    match k {
        IntTy::Isize => "nint"@,
        IntTy::I8 => "sbyte"@,
        IntTy::I16 => "short"@,
        IntTy::I32 => "int"@,
        IntTy::I64 => "long"@,
        IntTy::I128 => "global::System.Int128"@,
    }
}

/// The C# name of an unsigned integer type.
pub open spec fn uint_ty_spec(k: UintTy) -> Seq<char> {
    match k {
        UintTy::Usize => "nuint"@,
        UintTy::U8 => "byte"@,
        UintTy::U16 => "ushort"@,
        UintTy::U32 => "uint"@,
        UintTy::U64 => "ulong"@,
        UintTy::U128 => "global::System.UInt128"@,
    }
}

/// The C# name of a floating-point type (`f128`, which C# lacks, maps to
/// `global::System.Double`).
pub open spec fn float_ty_spec(k: FloatTy) -> Seq<char> {
    match k {
        FloatTy::F16 => "global::System.Half"@,
        FloatTy::F32 => "float"@,
        FloatTy::F64 => "double"@,
        FloatTy::F128 => "global::System.Double"@,
    }
}

/// The C# name of a signed integer type.
pub fn int_ty(k: &IntTy) -> (r: String)
    ensures
        r@ == int_ty_spec(*k),
{
    match k {
        IntTy::Isize => to_string("nint"),
        IntTy::I8 => to_string("sbyte"),
        IntTy::I16 => to_string("short"),
        IntTy::I32 => to_string("int"),
        IntTy::I64 => to_string("long"),
        IntTy::I128 => to_string("global::System.Int128"),
    }
}

/// The C# name of a signed integer type (for constants in MIR bodies).
pub fn int_ty_cs(k: &IntTy) -> (r: String)
    ensures
        r@ == int_ty_spec(*k),
{
    int_ty(k)
}

/// The C# name of an unsigned integer type.
pub fn uint_ty(k: &UintTy) -> (r: String)
    ensures
        r@ == uint_ty_spec(*k),
{
    match k {
        UintTy::Usize => to_string("nuint"),
        UintTy::U8 => to_string("byte"),
        UintTy::U16 => to_string("ushort"),
        UintTy::U32 => to_string("uint"),
        UintTy::U64 => to_string("ulong"),
        UintTy::U128 => to_string("global::System.UInt128"),
    }
}

/// The C# name of a floating-point type.
pub fn float_ty(k: &FloatTy) -> (r: String)
    ensures
        r@ == float_ty_spec(*k),
{
    match k {
        FloatTy::F16 => to_string("global::System.Half"),
        FloatTy::F32 => to_string("float"),
        FloatTy::F64 => to_string("double"),
        FloatTy::F128 => to_string("global::System.Double"),
    }
}

/// The C# segments of the first `n` path segments: a type-namespace name
/// becomes a module (`mod_`), or the struct (`s_`) when it is the last
/// segment; a value-namespace name a method (`m_`); a macro name stays;
/// other segments add nothing.
pub open spec fn path_segments(data: Seq<DefPathSeg>, n: nat) -> Seq<Seq<char>>
    decreases n,
{
    if n == 0 || n > data.len() {
        Seq::empty()
    } else {
        let prev = path_segments(data, (n - 1) as nat);
        let is_last = n == data.len();
        match data[n - 1] {
            DefPathSeg::TypeNs(s) => prev.push(if is_last { "s_"@ + s@ } else { "mod_"@ + s@ }),
            DefPathSeg::ValueNs(s) => prev.push("m_"@ + s@),
            DefPathSeg::MacroNs(s) => prev.push(s@),
            _ => prev,
        }
    }
}

/// The fully qualified C# path of a definition: `global::`, then the crate's
/// module (`mod_<crate>`) and the path's segments, joined with `.`.
pub open spec fn cs_path_spec(p: DefPath) -> Seq<char> {
    "global::"@ + join_with(seq!["mod_"@ + p.crate_name@] + path_segments(p.data@, p.data@.len()), "."@)
}

/// The fully qualified C# path of a struct or enum definition.
pub fn def_id_to_cs_path(p: &DefPath) -> (r: String)
    ensures
        r@ == cs_path_spec(*p),
{
    let mut segments: Vec<String> = Vec::new();
    segments.push(naming::module_name(p.crate_name.as_str()));
    let n = p.data.len();
    let mut i: usize = 0;
    while i < n
        invariant
            n == p.data@.len(),
            i <= n,
            views(segments@) == seq!["mod_"@ + p.crate_name@] + path_segments(p.data@, i as nat),
        decreases n - i,
    {
        let is_last = i + 1 == n;
        let ghost before = views(segments@);
        match &p.data[i] {
            DefPathSeg::TypeNs(s) => {
                if is_last {
                    segments.push(naming::struct_name(s.as_str()));
                } else {
                    segments.push(naming::module_name(s.as_str()));
                }
                assert(views(segments@) =~= before.push(views(segments@).last()));
            },
            DefPathSeg::ValueNs(s) => {
                segments.push(naming::method_name(s.as_str()));
                assert(views(segments@) =~= before.push(views(segments@).last()));
            },
            DefPathSeg::MacroNs(s) => {
                segments.push(to_string(s.as_str()));
                assert(views(segments@) =~= before.push(views(segments@).last()));
            },
            _ => {},
        }
        i = i + 1;
    }
    let joined = join_strings(&segments, ".");
    let mut r = to_string("global::");
    push_str(&mut r, joined.as_str());
    r
}

/// `xs` joined with `sep`.
pub fn join_strings(xs: &Vec<String>, sep: &str) -> (r: String)
    ensures
        r@ == join_with(views(xs@), sep@),
{
    let mut r = String::new();
    let ghost vs = views(xs@);
    let mut i: usize = 0;
    assert(vs.take(0) =~= Seq::<Seq<char>>::empty());
    while i < xs.len()
        invariant
            i <= xs@.len(),
            vs == views(xs@),
            r@ == join_with(vs.take(i as int), sep@),
        decreases xs@.len() - i,
    {
        let ghost before = r@;
        if i > 0 {
            push_str(&mut r, sep);
        }
        push_str(&mut r, xs[i].as_str());
        assert(vs.take(i + 1).drop_last() =~= vs.take(i as int));
        if i == 0 {
            assert(vs.take(1) =~= seq![vs[0]]);
            assert(r@ =~= vs[0]);
        } else {
            assert(r@ =~= before + sep@ + vs[i as int]);
        }
        i = i + 1;
    }
    assert(vs.take(i as int) =~= vs);
    r
}

/// The C# unit type, also used for `!`.
pub open spec fn void_cs() -> Seq<char> {
    "global::r2CsRuntime.Void"@
}

/// The C# type of Rust type `t`, or `None` where it is not supported.
pub open spec fn ty_cs(t: RustTy) -> Option<Seq<char>>
    decreases t,
{
    match t {
        RustTy::Bool => Some("bool"@),
        RustTy::Char => Some("char"@),
        RustTy::Int(k) => Some(int_ty_spec(k)),
        RustTy::Uint(k) => Some(uint_ty_spec(k)),
        RustTy::Float(k) => Some(float_ty_spec(k)),
        RustTy::Str => Some("string"@),
        RustTy::Tuple(fields) => {
            if fields@.len() == 0 {
                Some(void_cs())
            } else {
                match tys_cs(fields@) {
                    Some(parts) => Some("("@ + join_with(parts, ", "@) + ")"@),
                    None => None,
                }
            }
        },
        RustTy::Never => Some(void_cs()),
        RustTy::Ref(inner) => match *inner {
            RustTy::Slice(elem) => match ty_cs(*elem) {
                Some(c) => Some("global::r2CsRuntime.LenRef<global::r2CsRuntime.Slice<"@ + c + ">>"@),
                None => None,
            },
            RustTy::Str => Some("string"@),
            RustTy::Dynamic => Some("/* &dyn */ global::r2CsRuntime.DynRef<object>"@),
            _ => match ty_cs(*inner) {
                Some(c) => Some("global::r2CsRuntime.Ref<"@ + c + ">"@),
                None => None,
            },
        },
        RustTy::RawPtr(inner) => match *inner {
            RustTy::Slice(elem) => match ty_cs(*elem) {
                Some(c) => Some("global::r2CsRuntime.LenPointer<global::r2CsRuntime.Slice<"@ + c + ">>"@),
                None => None,
            },
            RustTy::Dynamic => Some("/* *dyn */ global::r2CsRuntime.DynPointer<object>"@),
            _ => match ty_cs(*inner) {
                Some(c) => Some("global::r2CsRuntime.Pointer<"@ + c + ">"@),
                None => None,
            },
        },
        RustTy::Slice(elem) => match ty_cs(*elem) {
            Some(c) => Some("global::r2CsRuntime.Slice<"@ + c + ">"@),
            None => None,
        },
        RustTy::Adt(p, args) => {
            if args@.len() == 0 {
                Some(cs_path_spec(p))
            } else {
                match arg_tys_cs(args@) {
                    Some(parts) => Some(cs_path_spec(p) + "<"@ + join_with(parts, ", "@) + ">"@),
                    None => None,
                }
            }
        },
        RustTy::Param(name) => Some("P_"@ + name@),
        RustTy::Dynamic => None,
        RustTy::Other => None,
    }
}

/// The C# types of `ts`, or `None` where one is not supported.
pub open spec fn tys_cs(ts: Seq<RustTy>) -> Option<Seq<Seq<char>>>
    decreases ts,
{
    if ts.len() == 0 {
        Some(Seq::empty())
    } else {
        match tys_cs(ts.drop_last()) {
            Some(prev) => match ty_cs(ts.last()) {
                Some(c) => Some(prev.push(c)),
                None => None,
            },
            None => None,
        }
    }
}

/// The C# types of the type arguments among `args` (lifetimes and
/// constants are dropped), or `None` where one is not supported.
pub open spec fn arg_tys_cs(args: Seq<GenericArg>) -> Option<Seq<Seq<char>>>
    decreases args,
{
    if args.len() == 0 {
        Some(Seq::empty())
    } else {
        match arg_tys_cs(args.drop_last()) {
            Some(prev) => match args.last() {
                GenericArg::Type(t) => match ty_cs(t) {
                    Some(c) => Some(prev.push(c)),
                    None => None,
                },
                _ => Some(prev),
            },
            None => None,
        }
    }
}

/// `prefix`, `inner` and `suffix` as one new string.
fn wrap(prefix: &str, inner: &str, suffix: &str) -> (r: String)
    ensures
        r@ == prefix@ + inner@ + suffix@,
{
    let mut r = to_string(prefix);
    push_str(&mut r, inner);
    push_str(&mut r, suffix);
    r
}

/// The C# type of `ty`, or `None` for types that are not supported yet, so
/// that callers can emit a placeholder and continue.
pub fn ty_to_cs(ty: &RustTy) -> (r: Option<String>)
    ensures
        match r {
            Some(s) => ty_cs(*ty) == Some(s@),
            None => ty_cs(*ty) is None,
        },
    decreases ty,
{
    match ty {
        RustTy::Bool => Some(to_string("bool")),
        RustTy::Char => Some(to_string("char")),
        RustTy::Int(k) => Some(int_ty(k)),
        RustTy::Uint(k) => Some(uint_ty(k)),
        RustTy::Float(k) => Some(float_ty(k)),
        RustTy::Str => Some(to_string("string")),
        RustTy::Tuple(fields) => {
            if fields.len() == 0 {
                Some(to_string("global::r2CsRuntime.Void"))
            } else {
                match tys_to_cs(fields) {
                    Some(parts) => {
                        let joined = join_strings(&parts, ", ");
                        Some(wrap("(", joined.as_str(), ")"))
                    },
                    None => None,
                }
            }
        },
        RustTy::Never => Some(to_string("global::r2CsRuntime.Void")),
        RustTy::Ref(inner) => match &**inner {
            RustTy::Slice(elem) => match ty_to_cs(elem) {
                Some(c) => Some(wrap("global::r2CsRuntime.LenRef<global::r2CsRuntime.Slice<", c.as_str(), ">>")),
                None => None,
            },
            RustTy::Str => Some(to_string("string")),
            RustTy::Dynamic => Some(to_string("/* &dyn */ global::r2CsRuntime.DynRef<object>")),
            _ => match ty_to_cs(inner) {
                Some(c) => Some(wrap("global::r2CsRuntime.Ref<", c.as_str(), ">")),
                None => None,
            },
        },
        RustTy::RawPtr(inner) => match &**inner {
            RustTy::Slice(elem) => match ty_to_cs(elem) {
                Some(c) => Some(wrap("global::r2CsRuntime.LenPointer<global::r2CsRuntime.Slice<", c.as_str(), ">>")),
                None => None,
            },
            RustTy::Dynamic => Some(to_string("/* *dyn */ global::r2CsRuntime.DynPointer<object>")),
            _ => match ty_to_cs(inner) {
                Some(c) => Some(wrap("global::r2CsRuntime.Pointer<", c.as_str(), ">")),
                None => None,
            },
        },
        RustTy::Slice(elem) => match ty_to_cs(elem) {
            Some(c) => Some(wrap("global::r2CsRuntime.Slice<", c.as_str(), ">")),
            None => None,
        },
        RustTy::Adt(p, args) => adt_to_cs(p, args),
        RustTy::Param(name) => Some(naming::generic_param_name(name.as_str())),
        RustTy::Dynamic => None,
        RustTy::Other => None,
    }
}

/// The C# types of `tys`, or `None` if one is not supported.
fn tys_to_cs(tys: &Vec<RustTy>) -> (r: Option<Vec<String>>)
    ensures
        match r {
            Some(v) => tys_cs(tys@) == Some(views(v@)),
            None => tys_cs(tys@) is None,
        },
    decreases tys,
{
    let mut parts: Vec<String> = Vec::new();
    let mut i: usize = 0;
    assert(tys@.take(0) =~= Seq::<RustTy>::empty());
    while i < tys.len()
        invariant
            i <= tys@.len(),
            tys_cs(tys@.take(i as int)) == Some(views(parts@)),
        decreases tys@.len() - i,
    {
        assert(tys@.take(i + 1).drop_last() =~= tys@.take(i as int));
        assert(tys@.take(i + 1).last() == tys@[i as int]);
        match ty_to_cs(&tys[i]) {
            Some(c) => {
                let ghost before = views(parts@);
                parts.push(c);
                assert(views(parts@) =~= before.push(c@));
            },
            None => {
                proof {
                    lemma_tys_cs_none_extends(tys@, (i + 1) as nat);
                }
                return None;
            },
        }
        i = i + 1;
    }
    assert(tys@.take(i as int) =~= tys@);
    Some(parts)
}

proof fn lemma_tys_cs_none_extends(ts: Seq<RustTy>, n: nat)
    requires
        n <= ts.len(),
        tys_cs(ts.take(n as int)) is None,
    ensures
        tys_cs(ts) is None,
    decreases ts.len() - n,
{
    if n < ts.len() {
        assert(ts.take(n as int + 1).drop_last() =~= ts.take(n as int));
        lemma_tys_cs_none_extends(ts, n + 1);
    } else {
        assert(ts.take(n as int) =~= ts);
    }
}

proof fn lemma_arg_tys_cs_none_extends(a: Seq<GenericArg>, n: nat)
    requires
        n <= a.len(),
        arg_tys_cs(a.take(n as int)) is None,
    ensures
        arg_tys_cs(a) is None,
    decreases a.len() - n,
{
    if n < a.len() {
        assert(a.take(n as int + 1).drop_last() =~= a.take(n as int));
        lemma_arg_tys_cs_none_extends(a, n + 1);
    } else {
        assert(a.take(n as int) =~= a);
    }
}

/// The C# name of a struct or enum with its type arguments: the path alone
/// without arguments, else the path and the type arguments in `<...>`.
fn adt_to_cs(p: &DefPath, args: &Vec<GenericArg>) -> (r: Option<String>)
    ensures
        match r {
            Some(s) => ty_cs(RustTy::Adt(*p, *args)) == Some(s@),
            None => ty_cs(RustTy::Adt(*p, *args)) is None,
        },
    decreases args,
{
    let cs_path = def_id_to_cs_path(p);
    if args.len() == 0 {
        return Some(cs_path);
    }
    let mut parts: Vec<String> = Vec::new();
    let mut i: usize = 0;
    assert(args@.take(0) =~= Seq::<GenericArg>::empty());
    while i < args.len()
        invariant
            i <= args@.len(),
            arg_tys_cs(args@.take(i as int)) == Some(views(parts@)),
        decreases args@.len() - i,
    {
        assert(args@.take(i + 1).drop_last() =~= args@.take(i as int));
        assert(args@.take(i + 1).last() == args@[i as int]);
        match &args[i] {
            GenericArg::Type(t) => {
                match ty_to_cs(t) {
                    Some(c) => {
                        let ghost before = views(parts@);
                        parts.push(c);
                        assert(views(parts@) =~= before.push(c@));
                    },
                    None => {
                        proof {
                            lemma_arg_tys_cs_none_extends(args@, (i + 1) as nat);
                        }
                        return None;
                    },
                }
            },
            _ => {},
        }
        i = i + 1;
    }
    assert(args@.take(i as int) =~= args@);
    let joined = join_strings(&parts, ", ");
    let mut r = cs_path;
    push_str(&mut r, "<");
    push_str(&mut r, joined.as_str());
    push_str(&mut r, ">");
    Some(r)
}

} // verus!
