//! Pieces of the expression emitter: calls of resolved functions, literals
//! and operators, as C# code.
//!
//! What name resolution and type inference decide (the C# rendering of a
//! type, the type arguments a generic function is called with) is handed to
//! these functions as plain values.

use vstd::prelude::*;
use crate::eir::{ArithOp, AstRef, BinaryOp, ChildrenContainer, CmpOp, LogicOp, Pat, RecordPatField, UnaryOp};
use crate::function_resolution::ResolvedFunction;
use crate::names::{generic_args, generic_args_spec, join_with};
use crate::options::ArgSource;
use crate::output::Code;
use crate::text::{decimal, push_char, push_str, str_equals, to_string, views};

verus! {

/// The texts of a list of code fragments.
pub open spec fn code_texts(cs: Seq<Code>) -> Seq<Seq<char>> {
    cs.map_values(|c: Code| c@.buf)
}

/// Whether every fragment can be embedded in other code: none leaves an
/// indentation step open.
pub open spec fn all_closed(cs: Seq<Code>) -> bool {
    forall|i: int| 0 <= i < cs.len() ==> (#[trigger] cs[i])@.indent == 0
}

/// Appends `items` to `out`, with `sep` between consecutive ones.
pub fn write_joined(out: &mut Code, items: &Vec<Code>, sep: &str)
    requires
        all_closed(items@),
    ensures
        final(out)@ == old(out)@.push_text(join_with(code_texts(items@), sep@)),
{
    let ghost start = out@;
    let ghost ts = code_texts(items@);
    let mut i: usize = 0;
    assert(ts.take(0) =~= Seq::<Seq<char>>::empty());
    assert(start.push_text(Seq::empty()).buf =~= start.buf);
    while i < items.len()
        invariant
            i <= items@.len(),
            all_closed(items@),
            ts == code_texts(items@),
            out@ == start.push_text(join_with(ts.take(i as int), sep@)),
        decreases items@.len() - i,
    {
        let ghost before = out@;
        if i > 0 {
            out.w(sep);
        }
        assert(items@[i as int]@.indent == 0);
        out.w(&items[i]);
        assert(ts.take(i + 1).drop_last() =~= ts.take(i as int));
        if i == 0 {
            assert(ts.take(1) =~= seq![ts[0]]);
            assert(out@.buf =~= start.buf + ts[0]);
        } else {
            assert(out@.buf =~= start.buf + (join_with(ts.take(i as int), sep@) + sep@ + ts[i as int]));
        }
        i = i + 1;
    }
    assert(ts.take(i as int) =~= ts);
}

/// The text an argument source stands for: the argument at its index, or
/// its own expression.
pub open spec fn source_text(args: Seq<Seq<char>>, s: ArgSource) -> Seq<char> {
    match s {
        ArgSource::Source(i) => args[i as int],
        ArgSource::CustomExpr(c) => c@.buf,
    }
}

/// Whether an argument source can be used: its index is that of an
/// argument, or its expression leaves no indentation open.
pub open spec fn source_ok(n: nat, s: ArgSource) -> bool {
    match s {
        ArgSource::Source(i) => i < n,
        ArgSource::CustomExpr(c) => c@.indent == 0,
    }
}

/// The texts of a list of argument sources.
pub open spec fn sources_text(args: Seq<Seq<char>>, map: Seq<ArgSource>) -> Seq<Seq<char>> {
    map.map_values(|s: ArgSource| source_text(args, s))
}

/// Whether every source in a list can be used.
pub open spec fn sources_ok(n: nat, map: Seq<ArgSource>) -> bool {
    forall|i: int| 0 <= i < map.len() ==> source_ok(n, #[trigger] map[i])
}

/// The code an argument source stands for.
fn solve_source(args: &Vec<Code>, s: &ArgSource) -> (r: Code)
    requires
        all_closed(args@),
        source_ok(args@.len(), *s),
    ensures
        r@.buf == source_text(code_texts(args@), *s),
        r@.indent == 0,
{
    match s {
        ArgSource::Source(i) => {
            assert(args@[*i as int]@.indent == 0);
            args[*i].clone()
        },
        ArgSource::CustomExpr(e) => e.clone(),
    }
}

/// The codes a list of argument sources stands for.
fn solve_sources(args: &Vec<Code>, map: &Vec<ArgSource>) -> (r: Vec<Code>)
    requires
        all_closed(args@),
        sources_ok(args@.len(), map@),
    ensures
        code_texts(r@) == sources_text(code_texts(args@), map@),
        all_closed(r@),
{
    let mut r: Vec<Code> = Vec::new();
    let mut i: usize = 0;
    while i < map.len()
        invariant
            i <= map@.len(),
            all_closed(args@),
            sources_ok(args@.len(), map@),
            r@.len() == i,
            all_closed(r@),
            forall|j: int| 0 <= j < i ==> (#[trigger] r@[j])@.buf == source_text(code_texts(args@), map@[j]),
        decreases map@.len() - i,
    {
        assert(source_ok(args@.len(), map@[i as int]));
        let c = solve_source(args, &map[i]);
        r.push(c);
        i = i + 1;
    }
    assert(code_texts(r@) =~= sources_text(code_texts(args@), map@));
    r
}

/// Whether a method is one of the visitor and access methods that are
/// called with explicit type arguments.
pub open spec fn is_visitor_method(name: Seq<char>) -> bool {
    ||| name == "m_VisitStr"@
    ||| name == "m_VisitBorrowedStr"@
    ||| name == "m_VisitString"@
    ||| name == "m_VisitBool"@
    ||| name == "m_VisitI8"@
    ||| name == "m_VisitI16"@
    ||| name == "m_VisitI32"@
    ||| name == "m_VisitI64"@
    ||| name == "m_VisitI128"@
    ||| name == "m_VisitU8"@
    ||| name == "m_VisitU16"@
    ||| name == "m_VisitU32"@
    ||| name == "m_VisitU64"@
    ||| name == "m_VisitU128"@
    ||| name == "m_VisitF32"@
    ||| name == "m_VisitF64"@
    ||| name == "m_VisitChar"@
    ||| name == "m_VisitBytes"@
    ||| name == "m_VisitBorrowedBytes"@
    ||| name == "m_VisitByteBuf"@
    ||| name == "m_VisitNone"@
    ||| name == "m_VisitUnit"@
    ||| name == "m_VisitSome"@
    ||| name == "m_VisitNewtypeStruct"@
    ||| name == "m_VisitSeq"@
    ||| name == "m_VisitMap"@
    ||| name == "m_VisitEnum"@
    ||| name == "m_NextKey"@
    ||| name == "m_NextElement"@
    ||| name == "m_NewMapKeyDeserializer"@
    ||| name == "m_NewDedupForwarderVisitor"@
}

/// Whether `name` is one of the visitor and access methods.
pub fn visitor_method(name: &str) -> (b: bool)
    ensures
        b == is_visitor_method(name@),
{
    str_equals(name, "m_VisitStr") || str_equals(name, "m_VisitBorrowedStr") || str_equals(name, "m_VisitString")
        || str_equals(name, "m_VisitBool") || str_equals(name, "m_VisitI8") || str_equals(name, "m_VisitI16")
        || str_equals(name, "m_VisitI32") || str_equals(name, "m_VisitI64") || str_equals(name, "m_VisitI128")
        || str_equals(name, "m_VisitU8") || str_equals(name, "m_VisitU16") || str_equals(name, "m_VisitU32")
        || str_equals(name, "m_VisitU64") || str_equals(name, "m_VisitU128") || str_equals(name, "m_VisitF32")
        || str_equals(name, "m_VisitF64") || str_equals(name, "m_VisitChar") || str_equals(name, "m_VisitBytes")
        || str_equals(name, "m_VisitBorrowedBytes") || str_equals(name, "m_VisitByteBuf")
        || str_equals(name, "m_VisitNone") || str_equals(name, "m_VisitUnit") || str_equals(name, "m_VisitSome")
        || str_equals(name, "m_VisitNewtypeStruct") || str_equals(name, "m_VisitSeq")
        || str_equals(name, "m_VisitMap") || str_equals(name, "m_VisitEnum") || str_equals(name, "m_NextKey")
        || str_equals(name, "m_NextElement") || str_equals(name, "m_NewMapKeyDeserializer")
        || str_equals(name, "m_NewDedupForwarderVisitor")
}

/// `callee(args...)`, the arguments in order or as the map selects them.
pub open spec fn call_args_text(callee: Seq<char>, args: Seq<Seq<char>>, map: Option<Vec<ArgSource>>) -> Seq<char> {
    callee + "("@ + match map {
        None => join_with(args, ", "@),
        Some(m) => join_with(sources_text(args, m@), ", "@),
    } + ")"@
}

/// The C# call of a resolved function on the argument codes `args`.
/// `self_ty_cs` is the self type rendered for a static access, and
/// `generic_cs` the C# type arguments that the function's generic sources
/// select; both come from type inference.
///
/// - a static function: `Self.name<T..>(args)`;
/// - a method: `receiver.name(args)`, with type arguments for the visitor
///   and access methods only;
/// - a module function: `path<T..>(args)`;
/// - an omitted call: the comment and the first argument in parentheses.
pub open spec fn call_text(f: ResolvedFunction, args: Seq<Seq<char>>, self_ty_cs: Seq<char>, generic_cs: Seq<Seq<char>>) -> Seq<char> {
    match f {
        ResolvedFunction::Static { function_name, args_map, .. } => call_args_text(
            generic_args_spec(self_ty_cs + "."@ + function_name@, generic_cs),
            args,
            args_map,
        ),
        ResolvedFunction::Method { function_name, args_map, .. } => {
            let reference = if is_visitor_method(function_name@) {
                generic_args_spec(function_name@, generic_cs)
            } else {
                function_name@
            };
            match args_map {
                None => args[0] + "."@ + reference + "("@ + join_with(args.drop_first(), ", "@)
                    + ")"@,
                Some((self_i, map)) => source_text(args, self_i) + "."@ + reference + "("@ + join_with(
                    sources_text(args, map@),
                    ", "@,
                ) + ")"@,
            }
        },
        ResolvedFunction::ModuleFunction { function_path, args_map, .. } => call_args_text(
            generic_args_spec(function_path@, generic_cs),
            args,
            args_map,
        ),
        ResolvedFunction::OmitCall { comment } => comment@ + "("@ + args[0] + ")"@,
    }
}

/// Whether a call on `n` arguments can be written: a method without an
/// argument map and an omitted call have a first argument, and every
/// argument source in a map can be used.
pub open spec fn call_ok(f: ResolvedFunction, n: nat) -> bool {
    match f {
        ResolvedFunction::Static { args_map, .. } => match args_map {
            Some(m) => sources_ok(n, m@),
            None => true,
        },
        ResolvedFunction::Method { args_map, .. } => match args_map {
            Some((self_i, m)) => source_ok(n, self_i) && sources_ok(n, m@),
            None => n >= 1,
        },
        ResolvedFunction::ModuleFunction { args_map, .. } => match args_map {
            Some(m) => sources_ok(n, m@),
            None => true,
        },
        ResolvedFunction::OmitCall { .. } => n >= 1,
    }
}

/// Writes `callee(args...)`.
fn write_call_args(callee: String, args: &Vec<Code>, map: &Option<Vec<ArgSource>>) -> (r: Code)
    requires
        all_closed(args@),
        match map {
            Some(m) => sources_ok(args@.len(), m@),
            None => true,
        },
    ensures
        r@.buf == call_args_text(callee@, code_texts(args@), *map),
        r@.indent == 0,
{
    let mut out = Code::new();
    out.w(callee);
    out.w("(");
    match map {
        None => write_joined(&mut out, args, ", "),
        Some(m) => {
            let solved = solve_sources(args, m);
            write_joined(&mut out, &solved, ", ");
        },
    }
    out.w(")");
    assert(out@.buf =~= call_args_text(callee@, code_texts(args@), *map));
    out
}

/// The C# call of the resolved function `function` on the argument codes
/// `args` (see `call_text`).
pub fn emit_call_expr(function: &ResolvedFunction, args: &Vec<Code>, self_ty_cs: &str, generic_cs: &Vec<String>) -> (r: Code)
    requires
        call_ok(*function, args@.len()),
        all_closed(args@),
    ensures
        r@.buf == call_text(*function, code_texts(args@), self_ty_cs@, views(generic_cs@)),
        r@.indent == 0,
{
    match function {
        ResolvedFunction::Static { function_name, args_map, .. } => {
            let mut path = to_string(self_ty_cs);
            push_str(&mut path, ".");
            push_str(&mut path, function_name.as_str());
            let path = generic_args(path, generic_cs.as_slice());
            write_call_args(path, args, args_map)
        },
        ResolvedFunction::Method { function_name, args_map, .. } => {
            let reference = if visitor_method(function_name.as_str()) {
                generic_args(to_string(function_name.as_str()), generic_cs.as_slice())
            } else {
                to_string(function_name.as_str())
            };
            let mut out = Code::new();
            match args_map {
                None => {
                    assert(args@[0]@.indent == 0);
                    out.w(&args[0]);
                    out.w(".");
                    out.w(reference.as_str());
                    out.w("(");
                    let mut rest: Vec<Code> = Vec::new();
                    let mut i: usize = 1;
                    while i < args.len()
                        invariant
                            1 <= i <= args@.len(),
                            all_closed(args@),
                            rest@ =~= args@.subrange(1, i as int),
                        decreases args@.len() - i,
                    {
                        rest.push(args[i].clone());
                        i = i + 1;
                    }
                    assert(rest@ =~= args@.drop_first());
                    assert(code_texts(rest@) =~= code_texts(args@).drop_first());
                    assert(all_closed(rest@)) by {
                        assert forall|j: int| 0 <= j < rest@.len() implies (#[trigger] rest@[j])@.indent == 0 by {
                            assert(rest@[j] == args@[j + 1]);
                        }
                    }
                    write_joined(&mut out, &rest, ", ");
                    out.w(")");
                },
                Some((self_i, map)) => {
                    let receiver = solve_source(args, self_i);
                    out.w(receiver);
                    out.w(".");
                    out.w(reference.as_str());
                    out.w("(");
                    let solved = solve_sources(args, map);
                    write_joined(&mut out, &solved, ", ");
                    out.w(")");
                },
            }
            assert(out@.buf =~= call_text(*function, code_texts(args@), self_ty_cs@, views(generic_cs@)));
            out
        },
        ResolvedFunction::ModuleFunction { function_path, args_map, .. } => {
            let path = generic_args(to_string(function_path.as_str()), generic_cs.as_slice());
            write_call_args(path, args, args_map)
        },
        ResolvedFunction::OmitCall { comment } => {
            let mut out = Code::new();
            out.w(comment.as_str());
            out.w("(");
            assert(args@[0]@.indent == 0);
            out.w(&args[0]);
            out.w(")");
            assert(out@.buf =~= call_text(*function, code_texts(args@), self_ty_cs@, views(generic_cs@)));
            out
        },
    }
}


/// The lowercase hexadecimal digit character for `d` (`0 <= d < 16`).
pub open spec fn hex_digit_char(d: nat) -> char {
    if d < 10 {
        crate::text::digit_char(d)
    } else if d == 10 { 'a' }
    else if d == 11 { 'b' }
    else if d == 12 { 'c' }
    else if d == 13 { 'd' }
    else if d == 14 { 'e' }
    else { 'f' }
}

/// The lowercase hexadecimal rendering of `n`, without leading zeros.
pub open spec fn hex(n: nat) -> Seq<char>
    decreases n,
{
    if n < 16 {
        seq![hex_digit_char(n)]
    } else {
        hex(n / 16).push(hex_digit_char(n % 16))
    }
}

/// The hexadecimal digit character of `d`.
fn hex_digit_of(d: u32) -> (c: char)
    requires
        d < 16,
    ensures
        c == hex_digit_char(d as nat),
{
    if d < 10 {
        crate::text::digit_of(d as u8)
    } else if d == 10 { 'a' }
    else if d == 11 { 'b' }
    else if d == 12 { 'c' }
    else if d == 13 { 'd' }
    else if d == 14 { 'e' }
    else { 'f' }
}

/// Appends the hexadecimal rendering of `n` to `s`.
fn push_hex(s: &mut String, n: u32)
    ensures
        final(s)@ == old(s)@ + hex(n as nat),
    decreases n,
{
    if n >= 16 {
        push_hex(s, n / 16);
    }
    push_char(s, hex_digit_of(n % 16));
    proof {
        if n >= 16 {
            assert(hex(n as nat) == hex((n / 16) as nat).push(hex_digit_char((n % 16) as nat)));
        }
    }
}

/// The escape of one character, as `char::escape_default` documents it:
/// tab, carriage return, line feed, single and double quote and backslash
/// get a backslash escape, printable ASCII (`0x20 ..= 0x7e`) stands for
/// itself, and every other character becomes `\u{NNNN}` with its code point
/// in hexadecimal.
pub open spec fn escape_char(c: char) -> Seq<char> {
    if c == '\t' {
        seq!['\\', 't']
    } else if c == '\r' {
        seq!['\\', 'r']
    } else if c == '\n' {
        seq!['\\', 'n']
    } else if c == '\'' {
        seq!['\\', '\'']
    } else if c == '"' {
        seq!['\\', '"']
    } else if c == '\\' {
        seq!['\\', '\\']
    } else if 0x20 <= (c as u32) <= 0x7e {
        seq![c]
    } else {
        seq!['\\', 'u', '{'] + hex(c as u32 as nat) + seq!['}']
    }
}

/// The escape of every character of `s`, in order (`str::escape_default`).
pub open spec fn escape_seq(s: Seq<char>) -> Seq<char>
    decreases s.len(),
{
    if s.len() == 0 {
        Seq::empty()
    } else {
        escape_seq(s.drop_last()) + escape_char(s.last())
    }
}

/// Appends the escape of `c` to `s`.
pub fn push_escaped(s: &mut String, c: char)
    ensures
        final(s)@ == old(s)@ + escape_char(c),
{
    let ghost start = s@;
    let code = c as u32;
    if c == '\t' {
        push_char(s, '\\');
        push_char(s, 't');
    } else if c == '\r' {
        push_char(s, '\\');
        push_char(s, 'r');
    } else if c == '\n' {
        push_char(s, '\\');
        push_char(s, 'n');
    } else if c == '\'' {
        push_char(s, '\\');
        push_char(s, '\'');
    } else if c == '"' {
        push_char(s, '\\');
        push_char(s, '"');
    } else if c == '\\' {
        push_char(s, '\\');
        push_char(s, '\\');
    } else if 0x20 <= code && code <= 0x7e {
        push_char(s, c);
    } else {
        push_char(s, '\\');
        push_char(s, 'u');
        push_char(s, '{');
        push_hex(s, code);
        push_char(s, '}');
    }
    assert(s@ =~= start + escape_char(c));
}

/// Appends the escape of every character of `t` to `s`.
pub fn push_escaped_str(s: &mut String, t: &str)
    ensures
        final(s)@ == old(s)@ + escape_seq(t@),
{
    let cs = crate::text::chars_of(t);
    let ghost start = s@;
    let mut i: usize = 0;
    assert(cs@.take(0) =~= Seq::<char>::empty());
    while i < cs.len()
        invariant
            i <= cs@.len(),
            cs@ == t@,
            s@ == start + escape_seq(cs@.take(i as int)),
        decreases cs@.len() - i,
    {
        push_escaped(s, cs[i]);
        assert(cs@.take(i + 1).drop_last() =~= cs@.take(i as int));
        assert(s@ =~= start + escape_seq(cs@.take(i + 1)));
        i = i + 1;
    }
    assert(cs@.take(i as int) =~= cs@);
}

/// The value of a literal token, as the syntax tree parses it.
pub enum LiteralValue {
    Bool(bool),
    /// An integer literal's value.
    Int(u128),
    /// A float literal's text, without suffix.
    Float(String),
    Char(char),
    /// A string literal's value, escapes resolved.
    Str(String),
    Byte(u8),
    ByteString,
    CString,
}

/// The C# text of a literal: booleans and integers as they read, floats by
/// their text, characters and strings quoted with their characters escaped,
/// bytes as integers, and placeholders for byte and C strings.
pub open spec fn literal_text(v: LiteralValue) -> Seq<char> {
    match v {
        LiteralValue::Bool(b) => if b { seq!['t', 'r', 'u', 'e'] } else { seq!['f', 'a', 'l', 's', 'e'] },
        LiteralValue::Int(n) => decimal(n as nat),
        LiteralValue::Float(t) => t@,
        LiteralValue::Char(c) => seq!['\''] + escape_char(c) + seq!['\''],
        LiteralValue::Str(s) => seq!['"'] + escape_seq(s@) + seq!['"'],
        LiteralValue::Byte(b) => decimal(b as nat),
        LiteralValue::ByteString => "/* byte string */ new byte[] {}"@,
        LiteralValue::CString => "/* cstring */ \"\""@,
    }
}

/// The C# code of a literal.
pub fn emit_literal(v: &LiteralValue) -> (r: Code)
    ensures
        r@.buf == literal_text(*v),
        r@.indent == 0,
{
    let mut s = String::new();
    match v {
        LiteralValue::Bool(b) => {
            if *b {
                push_str(&mut s, "true");
                proof { reveal_strlit("true"); }
            } else {
                push_str(&mut s, "false");
                proof { reveal_strlit("false"); }
            }
        },
        LiteralValue::Int(n) => crate::text::push_decimal(&mut s, *n),
        LiteralValue::Float(t) => push_str(&mut s, t.as_str()),
        LiteralValue::Char(c) => {
            push_char(&mut s, '\'');
            push_escaped(&mut s, *c);
            push_char(&mut s, '\'');
        },
        LiteralValue::Str(t) => {
            push_char(&mut s, '"');
            push_escaped_str(&mut s, t.as_str());
            push_char(&mut s, '"');
        },
        LiteralValue::Byte(b) => crate::text::push_decimal(&mut s, *b as u128),
        LiteralValue::ByteString => push_str(&mut s, "/* byte string */ new byte[] {}"),
        LiteralValue::CString => push_str(&mut s, "/* cstring */ \"\""),
    }
    assert(s@ =~= literal_text(*v));
    let mut out = Code::new();
    out.w(s);
    assert(out@.buf =~= literal_text(*v));
    out
}


/// The locals that a pattern binds, in the order they are found: an
/// identifier that binds a local, then those of its sub-pattern; all
/// alternatives of an or-pattern; the prefix, the rest binding and the
/// suffix of a slice pattern; the fields of tuple, tuple-struct and record
/// patterns; both ends of a range.
pub open spec fn pat_bindings(p: Pat) -> Seq<AstRef>
    decreases p,
{
    match p {
        Pat::IdentPat(i) => if i.binds_local {
            seq![i.name] + opt_bindings(i.pat)
        } else {
            Seq::empty()
        },
        Pat::OrPat(o) => pats_bindings(o.pats),
        Pat::RangePat(r) => opt_bindings(r.start) + opt_bindings(r.end),
        Pat::RecordPat(r) => fields_bindings(r.record_pat_field_list.fields),
        Pat::RefPat(r) => pat_bindings(*r.pat),
        Pat::SlicePat(s) => pats_bindings(s.components.prefix) + opt_bindings(s.components.slice)
            + pats_bindings(s.components.suffix),
        Pat::TuplePat(t) => pats_bindings(t.fields),
        Pat::TupleStructPat(t) => pats_bindings(t.fields),
        _ => Seq::empty(),
    }
}

pub open spec fn opt_bindings(o: Option<Box<Pat>>) -> Seq<AstRef>
    decreases o,
{
    match o {
        Some(b) => pat_bindings(*b),
        None => Seq::empty(),
    }
}

pub open spec fn pats_bindings(c: ChildrenContainer<Pat>) -> Seq<AstRef>
    decreases c,
{
    match c {
        ChildrenContainer::Empty => Seq::empty(),
        ChildrenContainer::More(p, rest) => pat_bindings(*p) + pats_bindings(*rest),
    }
}

pub open spec fn fields_bindings(c: ChildrenContainer<RecordPatField>) -> Seq<AstRef>
    decreases c,
{
    match c {
        ChildrenContainer::Empty => Seq::empty(),
        ChildrenContainer::More(f, rest) => pat_bindings(f.pat) + fields_bindings(*rest),
    }
}

/// Appends the locals that `pat` binds to `result`.
fn collect_bindings_recursive(pat: &Pat, result: &mut Vec<AstRef>)
    ensures
        final(result)@ == old(result)@ + pat_bindings(*pat),
    decreases pat,
{
    let ghost start = result@;
    match pat {
        Pat::IdentPat(i) => {
            if i.binds_local {
                result.push(i.name);
                match &i.pat {
                    Some(sub) => collect_bindings_recursive(sub, result),
                    None => {},
                }
                assert(result@ =~= start + (seq![i.name] + opt_bindings(i.pat)));
            }
        },
        Pat::OrPat(o) => collect_bindings_in_pats(&o.pats, result),
        Pat::RangePat(r) => {
            match &r.start {
                Some(s) => collect_bindings_recursive(s, result),
                None => {},
            }
            let ghost mid = result@;
            match &r.end {
                Some(e) => collect_bindings_recursive(e, result),
                None => {},
            }
            assert(mid == start + opt_bindings(r.start));
            assert(result@ =~= start + (opt_bindings(r.start) + opt_bindings(r.end)));
        },
        Pat::RecordPat(r) => collect_bindings_in_fields(&r.record_pat_field_list.fields, result),
        Pat::RefPat(r) => collect_bindings_recursive(&r.pat, result),
        Pat::SlicePat(s) => {
            collect_bindings_in_pats(&s.components.prefix, result);
            let ghost after_prefix = result@;
            match &s.components.slice {
                Some(rest) => collect_bindings_recursive(rest, result),
                None => {},
            }
            let ghost after_rest = result@;
            collect_bindings_in_pats(&s.components.suffix, result);
            assert(after_prefix == start + pats_bindings(s.components.prefix));
            assert(after_rest == after_prefix + opt_bindings(s.components.slice));
            assert(result@ =~= start + (pats_bindings(s.components.prefix) + opt_bindings(s.components.slice)
                + pats_bindings(s.components.suffix)));
        },
        Pat::TuplePat(t) => collect_bindings_in_pats(&t.fields, result),
        Pat::TupleStructPat(t) => collect_bindings_in_pats(&t.fields, result),
        _ => {},
    }
    assert(result@ =~= start + pat_bindings(*pat));
}

fn collect_bindings_in_pats(c: &ChildrenContainer<Pat>, result: &mut Vec<AstRef>)
    ensures
        final(result)@ == old(result)@ + pats_bindings(*c),
    decreases c,
{
    let ghost start = result@;
    match c {
        ChildrenContainer::Empty => {},
        ChildrenContainer::More(p, rest) => {
            collect_bindings_recursive(p, result);
            collect_bindings_in_pats(rest, result);
        },
    }
    assert(result@ =~= start + pats_bindings(*c));
}

fn collect_bindings_in_fields(c: &ChildrenContainer<RecordPatField>, result: &mut Vec<AstRef>)
    ensures
        final(result)@ == old(result)@ + fields_bindings(*c),
    decreases c,
{
    let ghost start = result@;
    match c {
        ChildrenContainer::Empty => {},
        ChildrenContainer::More(f, rest) => {
            collect_bindings_recursive(&f.pat, result);
            collect_bindings_in_fields(rest, result);
        },
    }
    assert(result@ =~= start + fields_bindings(*c));
}

/// The locals that `pat` binds, in order (see `pat_bindings`).
pub fn collect_bindings_in_pat(pat: &Pat) -> (r: Vec<AstRef>)
    ensures
        r@ == pat_bindings(*pat),
{
    let mut r: Vec<AstRef> = Vec::new();
    collect_bindings_recursive(pat, &mut r);
    assert(r@ =~= pat_bindings(*pat));
    r
}


/// The C# name of the `k`-th local named `rust` in a body: `l_<rust>_<k>`.
pub open spec fn local_text(rust: Seq<char>, k: nat) -> Seq<char> {
    "l_"@ + rust + "_"@ + decimal(k)
}

/// The last count recorded for `name` (0 if none is).
pub open spec fn count_of(counts: Seq<(Seq<char>, nat)>, name: Seq<char>) -> nat
    decreases counts.len(),
{
    if counts.len() == 0 {
        0
    } else if counts.last().0 == name {
        counts.last().1
    } else {
        count_of(counts.drop_last(), name)
    }
}

/// The last C# name recorded for `local`.
pub open spec fn name_of(locals: Seq<(AstRef, Seq<char>)>, local: AstRef) -> Option<Seq<char>>
    decreases locals.len(),
{
    if locals.len() == 0 {
        None
    } else if locals.last().0 == local {
        Some(locals.last().1)
    } else {
        name_of(locals.drop_last(), local)
    }
}

/// What a binding-name allocator has recorded: the number of C# locals
/// handed out per Rust name, and the C# name of each bound local.
pub struct NamesState {
    pub counts: Seq<(Seq<char>, nat)>,
    pub locals: Seq<(AstRef, Seq<char>)>,
}

impl NamesState {
    /// How many C# locals the Rust name `name` has had.
    pub open spec fn count(self, name: Seq<char>) -> nat {
        count_of(self.counts, name)
    }

    /// The C# name of `local`, if it has one.
    pub open spec fn name(self, local: AstRef) -> Option<Seq<char>> {
        name_of(self.locals, local)
    }

    /// The name that a new binding of a local named `rust` gets.
    pub open spec fn next_name(self, rust: Seq<char>) -> Seq<char> {
        local_text(rust, self.count(rust))
    }

    /// The state after giving `local` the fixed C# name `name` (such as
    /// `this` for a method's receiver).
    pub open spec fn named(self, local: AstRef, name: Seq<char>) -> NamesState {
        NamesState { counts: self.counts, locals: self.locals.push((local, name)) }
    }

    /// The state after binding `local`, named `rust`: the Rust name has had
    /// one more C# local, and `local` is called by `next_name(rust)`.
    pub open spec fn bind(self, local: AstRef, rust: Seq<char>) -> NamesState {
        NamesState {
            counts: self.counts.push((rust, self.count(rust) + 1)),
            locals: self.locals.push((local, self.next_name(rust))),
        }
    }

    /// No Rust name has had more C# locals than locals were bound.
    pub open spec fn fits(self) -> bool {
        forall|r: Seq<char>| #[trigger] self.count(r) <= self.locals.len()
    }

    /// Every name handed out is `l_<r>_<k>` for a Rust name `r` that has
    /// had more than `k` locals.
    pub open spec fn wf(self) -> bool {
        forall|i: int| #![trigger self.locals[i]] 0 <= i < self.locals.len() ==> exists|r: Seq<char>, k: nat|
            #![trigger local_text(r, k)]
            self.locals[i].1 == local_text(r, k) && k < self.count(r)
    }
}

/// Allocates the C# names of the locals of one body: the `k`-th local
/// named `x` is called `l_x_k`.
pub struct BindingNames {
    counts: Vec<(String, usize)>,
    locals: Vec<(AstRef, String)>,
}

impl View for BindingNames {
    type V = NamesState;

    closed spec fn view(&self) -> NamesState {
        NamesState {
            counts: self.counts@.map_values(|e: (String, usize)| (e.0@, e.1 as nat)),
            locals: self.locals@.map_values(|e: (AstRef, String)| (e.0, e.1@)),
        }
    }
}

impl BindingNames {
    /// An allocator that has handed out no name.
    pub fn new() -> (r: Self)
        ensures
            r@.counts.len() == 0,
            r@.locals.len() == 0,
            r@.wf(),
            r@.fits(),
    {
        BindingNames { counts: Vec::new(), locals: Vec::new() }
    }

    /// How many C# locals the Rust name `name` has had.
    pub fn count(&self, name: &str) -> (r: usize)
        ensures
            r == self@.count(name@),
    {
        let ghost cs = self@.counts;
        let mut i = self.counts.len();
        assert(cs.take(cs.len() as int) =~= cs);
        while i > 0
            invariant
                i <= self.counts@.len(),
                cs == self@.counts,
                count_of(cs, name@) == count_of(cs.take(i as int), name@),
            decreases i,
        {
            assert(cs.take(i as int).drop_last() =~= cs.take(i - 1));
            if str_equals(self.counts[i - 1].0.as_str(), name) {
                return self.counts[i - 1].1;
            }
            i = i - 1;
        }
        0
    }

    /// The C# name of `local`, if it has been bound.
    pub fn binding_name(&self, local: AstRef) -> (r: Option<String>)
        ensures
            match r {
                Some(n) => self@.name(local) == Some(n@),
                None => self@.name(local) is None,
            },
    {
        let ghost ls = self@.locals;
        let mut i = self.locals.len();
        assert(ls.take(ls.len() as int) =~= ls);
        while i > 0
            invariant
                i <= self.locals@.len(),
                ls == self@.locals,
                name_of(ls, local) == name_of(ls.take(i as int), local),
            decreases i,
        {
            assert(ls.take(i as int).drop_last() =~= ls.take(i - 1));
            if self.locals[i - 1].0 == local {
                return Some(self.locals[i - 1].1.clone());
            }
            i = i - 1;
        }
        None
    }

    /// Gives `local` the fixed C# name `name`.
    pub fn add_local(&mut self, local: AstRef, name: &str)
        requires
            old(self)@.fits(),
        ensures
            final(self)@ == old(self)@.named(local, name@),
            final(self)@.fits(),
    {
        self.locals.push((local, to_string(name)));
        assert(self@.counts =~= old(self)@.counts);
        assert(self@.locals =~= old(self)@.named(local, name@).locals);
        assert forall|r: Seq<char>| #[trigger] self@.count(r) <= self@.locals.len() by {
            assert(self@.count(r) == old(self)@.count(r));
        }
    }

    /// Binds `local`, whose Rust name is `rust_name`, to a new C# name and
    /// returns it.
    pub fn alloc_binding(&mut self, local: AstRef, rust_name: &str) -> (r: String)
        requires
            old(self)@.fits(),
        ensures
            r@ == old(self)@.next_name(rust_name@),
            final(self)@ == old(self)@.bind(local, rust_name@),
            final(self)@.fits(),
    {
        let count = self.count(rust_name);
        let cs_name = crate::naming::local_name(rust_name, count);
        self.locals.push((local, cs_name.clone()));
        let n = self.locals.len();
        assert(count <= old(self)@.locals.len());
        self.counts.push((to_string(rust_name), count + 1));
        proof {
            assert forall|r: Seq<char>| #[trigger] self@.count(r) <= self@.locals.len() by {
                lemma_count_bind(old(self)@, local, rust_name@, r);
                assert(self@.counts =~= old(self)@.bind(local, rust_name@).counts);
            }
        }
        assert(self@.counts =~= old(self)@.bind(local, rust_name@).counts);
        assert(self@.locals =~= old(self)@.bind(local, rust_name@).locals);
        cs_name
    }
}

/// Every character of a decimal rendering is a digit.
pub proof fn lemma_decimal_digits(n: nat)
    ensures
        forall|i: int| 0 <= i < decimal(n).len() ==> '0' <= #[trigger] decimal(n)[i] <= '9',
        decimal(n).len() >= 1,
        decimal(n).len() == 1 <==> n < 10,
    decreases n,
{
    if n >= 10 {
        lemma_decimal_digits(n / 10);
        let d = decimal(n / 10);
        assert forall|i: int| 0 <= i < decimal(n).len() implies '0' <= #[trigger] decimal(n)[i] <= '9' by {
            if i < d.len() {
                assert(decimal(n)[i] == d[i]);
            }
        }
    }
}

proof fn lemma_digit_char_injective(x: nat, y: nat)
    requires
        x < 10,
        y < 10,
        crate::text::digit_char(x) == crate::text::digit_char(y),
    ensures
        x == y,
{
}

/// Different numbers have different decimal renderings.
pub proof fn lemma_decimal_injective(a: nat, b: nat)
    requires
        decimal(a) == decimal(b),
    ensures
        a == b,
    decreases a,
{
    lemma_decimal_digits(a);
    lemma_decimal_digits(b);
    if a < 10 {
        assert(decimal(a)[0] == crate::text::digit_char(a));
        assert(decimal(b)[0] == crate::text::digit_char(b));
        lemma_digit_char_injective(a, b);
    } else {
        assert(decimal(a / 10) =~= decimal(a).drop_last());
        assert(decimal(b / 10) =~= decimal(b).drop_last());
        lemma_decimal_injective(a / 10, b / 10);
        assert(decimal(a).last() == crate::text::digit_char(a % 10));
        assert(decimal(b).last() == crate::text::digit_char(b % 10));
        lemma_digit_char_injective(a % 10, b % 10);
    }
}

/// Local names determine the Rust name and index they were made of.
pub proof fn lemma_local_text_injective(r1: Seq<char>, k1: nat, r2: Seq<char>, k2: nat)
    requires
        local_text(r1, k1) == local_text(r2, k2),
    ensures
        r1 == r2,
        k1 == k2,
{
    reveal_strlit("l_");
    reveal_strlit("_");
    let s = local_text(r1, k1);
    let d1 = decimal(k1);
    let d2 = decimal(k2);
    lemma_decimal_digits(k1);
    lemma_decimal_digits(k2);
    assert(s =~= seq!['l', '_'] + r1 + seq!['_'] + d1);
    assert(s =~= seq!['l', '_'] + r2 + seq!['_'] + d2);
    if d1.len() < d2.len() {
        let p = s.len() - d1.len() - 1;
        assert(s[p] == '_');
        assert(s[p] == d2[p - (s.len() - d2.len())]);
        assert(false);
    } else if d2.len() < d1.len() {
        let p = s.len() - d2.len() - 1;
        assert(s[p] == '_');
        assert(s[p] == d1[p - (s.len() - d1.len())]);
        assert(false);
    }
    assert(d1 =~= s.subrange(s.len() - d1.len(), s.len() as int));
    assert(d2 =~= s.subrange(s.len() - d2.len(), s.len() as int));
    lemma_decimal_injective(k1, k2);
    assert(r1 =~= s.subrange(2, 2 + r1.len() as int));
    assert(r2 =~= s.subrange(2, 2 + r2.len() as int));
}

proof fn lemma_count_bind(st: NamesState, local: AstRef, rust: Seq<char>, r: Seq<char>)
    ensures
        st.bind(local, rust).count(r) == if r == rust { st.count(rust) + 1 } else { st.count(r) },
{
    assert(st.bind(local, rust).counts.drop_last() =~= st.counts);
}

/// A new binding never gets a name that an earlier binding has: the name
/// `alloc_binding` hands out differs from every name recorded before, and
/// the allocator stays well-formed.
pub proof fn lemma_alloc_fresh(st: NamesState, local: AstRef, rust: Seq<char>)
    requires
        st.wf(),
    ensures
        forall|i: int| 0 <= i < st.locals.len() ==> st.locals[i].1 != st.next_name(rust),
        st.bind(local, rust).wf(),
        st.bind(local, rust).name(local) == Some(st.next_name(rust)),
{
    let st2 = st.bind(local, rust);
    assert forall|i: int| 0 <= i < st.locals.len() implies st.locals[i].1 != st.next_name(rust) by {
        let (r, k) = choose|r: Seq<char>, k: nat| #![trigger local_text(r, k)]
            st.locals[i].1 == local_text(r, k) && k < st.count(r);
        if st.locals[i].1 == st.next_name(rust) {
            lemma_local_text_injective(r, k, rust, st.count(rust));
        }
    }
    assert forall|i: int| #![trigger st2.locals[i]] 0 <= i < st2.locals.len() implies exists|r: Seq<char>, k: nat|
        #![trigger local_text(r, k)]
        st2.locals[i].1 == local_text(r, k) && k < st2.count(r) by {
        if i < st.locals.len() {
            let (r, k) = choose|r: Seq<char>, k: nat| #![trigger local_text(r, k)]
                st.locals[i].1 == local_text(r, k) && k < st.count(r);
            lemma_count_bind(st, local, rust, r);
            assert(st2.locals[i] == st.locals[i]);
            assert(st2.locals[i].1 == local_text(r, k) && k < st2.count(r));
        } else {
            lemma_count_bind(st, local, rust, rust);
            assert(st2.locals[i].1 == local_text(rust, st.count(rust)));
        }
    }
}


/// The C# operator of a binary operator: arithmetic, bitwise and comparison
/// operators as in Rust, `&&` for both logical operators, and `=` or the
/// compound assignment operator for assignments.
pub open spec fn bin_op_text(op: BinaryOp) -> Seq<char> {
    match op {
        BinaryOp::ArithOp(a) => match a {
            ArithOp::Add => "+"@,
            ArithOp::Mul => "*"@,
            ArithOp::Sub => "-"@,
            ArithOp::Div => "/"@,
            ArithOp::Rem => "%"@,
            ArithOp::Shl => "<<"@,
            ArithOp::Shr => ">>"@,
            ArithOp::BitXor => "^"@,
            ArithOp::BitOr => "|"@,
            ArithOp::BitAnd => "&"@,
        },
        BinaryOp::CmpOp(c) => match c {
            CmpOp::Eq { negated } => if negated { "!="@ } else { "=="@ },
            CmpOp::Ord { greater, strict } => if greater {
                if strict { ">"@ } else { ">="@ }
            } else {
                if strict { "<"@ } else { "<="@ }
            },
        },
        BinaryOp::LogicOp(l) => match l {
            LogicOp::And => "&&"@,
            LogicOp::Or => "&&"@,
        },
        BinaryOp::Assignment { op } => match op {
            None => "="@,
            Some(a) => match a {
                ArithOp::Add => "+="@,
                ArithOp::Mul => "*="@,
                ArithOp::Sub => "-="@,
                ArithOp::Div => "/="@,
                ArithOp::Rem => "%="@,
                ArithOp::Shl => "<<="@,
                ArithOp::Shr => ">>="@,
                ArithOp::BitXor => "^="@,
                ArithOp::BitOr => "|="@,
                ArithOp::BitAnd => "&="@,
            },
        },
    }
}

/// Every arithmetic, bitwise, comparison and assignment operator is emitted
/// as the token it is written with in Rust, which C# shares; both logical
/// operators are emitted as `&&`.
pub proof fn lemma_bin_op_keeps_rust_token(op: BinaryOp)
    ensures
        !(op is LogicOp) ==> bin_op_text(op) == crate::eir::rust_token(op),
        op is LogicOp ==> bin_op_text(op) == seq!['&', '&'],
{
    reveal_strlit("+");
    reveal_strlit("*");
    reveal_strlit("-");
    reveal_strlit("/");
    reveal_strlit("%");
    reveal_strlit("<<");
    reveal_strlit(">>");
    reveal_strlit("^");
    reveal_strlit("|");
    reveal_strlit("&");
    reveal_strlit("!=");
    reveal_strlit("==");
    reveal_strlit(">");
    reveal_strlit(">=");
    reveal_strlit("<");
    reveal_strlit("<=");
    reveal_strlit("&&");
    reveal_strlit("=");
    reveal_strlit("+=");
    reveal_strlit("*=");
    reveal_strlit("-=");
    reveal_strlit("/=");
    reveal_strlit("%=");
    reveal_strlit("<<=");
    reveal_strlit(">>=");
    reveal_strlit("^=");
    reveal_strlit("|=");
    reveal_strlit("&=");
    assert(bin_op_text(op) =~= (if op is LogicOp { seq!['&', '&'] } else { crate::eir::rust_token(op) }));
}

/// A compound assignment is emitted as its operator followed by `=`, and a
/// non-strict comparison as the strict one followed by `=`.
pub proof fn lemma_bin_op_suffixes(a: ArithOp, greater: bool)
    ensures
        bin_op_text(BinaryOp::Assignment { op: Some(a) }) == bin_op_text(BinaryOp::ArithOp(a)).push('='),
        bin_op_text(BinaryOp::CmpOp(CmpOp::Ord { greater, strict: false }))
            == bin_op_text(BinaryOp::CmpOp(CmpOp::Ord { greater, strict: true })).push('='),
{
    lemma_bin_op_keeps_rust_token(BinaryOp::Assignment { op: Some(a) });
    lemma_bin_op_keeps_rust_token(BinaryOp::ArithOp(a));
    lemma_bin_op_keeps_rust_token(BinaryOp::CmpOp(CmpOp::Ord { greater, strict: false }));
    lemma_bin_op_keeps_rust_token(BinaryOp::CmpOp(CmpOp::Ord { greater, strict: true }));
    assert(crate::eir::comparison_token(CmpOp::Ord { greater, strict: false })
        =~= crate::eir::comparison_token(CmpOp::Ord { greater, strict: true }).push('='));
}

/// Different arithmetic, bitwise, comparison and assignment operators are
/// emitted as different C# operators.
pub proof fn lemma_bin_ops_distinct(a: BinaryOp, b: BinaryOp)
    requires
        !(a is LogicOp),
        !(b is LogicOp),
        a != b,
    ensures
        bin_op_text(a) != bin_op_text(b),
{
    lemma_bin_op_keeps_rust_token(a);
    lemma_bin_op_keeps_rust_token(b);
    let ta = crate::eir::rust_token(a);
    let tb = crate::eir::rust_token(b);
    if ta == tb {
        assert(ta.len() == tb.len());
        assert(ta[0] == tb[0]);
        if ta.len() > 1 {
            assert(ta[1] == tb[1]);
        }
        if ta.len() > 2 {
            assert(ta[2] == tb[2]);
        }
        assert(false);
    }
}

/// The C# operator of a binary operator (see `bin_op_text`).
pub fn bin_op_str(op: BinaryOp) -> (r: &'static str)
    ensures
        r@ == bin_op_text(op),
{
    match op {
        BinaryOp::ArithOp(a) => match a {
            ArithOp::Add => "+",
            ArithOp::Mul => "*",
            ArithOp::Sub => "-",
            ArithOp::Div => "/",
            ArithOp::Rem => "%",
            ArithOp::Shl => "<<",
            ArithOp::Shr => ">>",
            ArithOp::BitXor => "^",
            ArithOp::BitOr => "|",
            ArithOp::BitAnd => "&",
        },
        BinaryOp::CmpOp(c) => match c {
            CmpOp::Eq { negated } => if negated { "!=" } else { "==" },
            CmpOp::Ord { greater, strict } => if greater {
                if strict { ">" } else { ">=" }
            } else {
                if strict { "<" } else { "<=" }
            },
        },
        BinaryOp::LogicOp(l) => match l {
            LogicOp::And => "&&",
            LogicOp::Or => "&&",
        },
        BinaryOp::Assignment { op } => match op {
            None => "=",
            Some(a) => match a {
                ArithOp::Add => "+=",
                ArithOp::Mul => "*=",
                ArithOp::Sub => "-=",
                ArithOp::Div => "/=",
                ArithOp::Rem => "%=",
                ArithOp::Shl => "<<=",
                ArithOp::Shr => ">>=",
                ArithOp::BitXor => "^=",
                ArithOp::BitOr => "|=",
                ArithOp::BitAnd => "&=",
            },
        },
    }
}

/// A binary expression on emitted operands: `lhs op rhs` as a statement,
/// in parentheses otherwise.
pub open spec fn bin_expr_text(lhs: Seq<char>, op: BinaryOp, rhs: Seq<char>, statement: bool) -> Seq<char> {
    let inner = lhs + " "@ + bin_op_text(op) + " "@ + rhs;
    if statement { inner } else { "("@ + inner + ")"@ }
}

/// Emits a binary expression on emitted operands (see `bin_expr_text`).
pub fn emit_bin_expr(lhs: Code, op: BinaryOp, rhs: Code, statement: bool) -> (r: Code)
    requires
        lhs@.indent == 0,
        rhs@.indent == 0,
    ensures
        r@.buf == bin_expr_text(lhs@.buf, op, rhs@.buf, statement),
        r@.indent == 0,
{
    let ghost l = lhs@.buf;
    let ghost rt = rhs@.buf;
    let mut out = Code::new();
    if !statement {
        out.w("(");
    }
    out.w(lhs);
    out.w(" ");
    out.w(bin_op_str(op));
    out.w(" ");
    out.w(rhs);
    if !statement {
        out.w(")");
    }
    assert(out@.buf =~= bin_expr_text(l, op, rt, statement));
    out
}

/// A prefix expression on an emitted operand: a dereference is left as is
/// (with a marker comment), `!` and `-` apply to the parenthesized operand.
pub open spec fn prefix_expr_text(op: UnaryOp, inner: Seq<char>) -> Seq<char> {
    match op {
        UnaryOp::Deref => "(/* deref_op */"@ + inner + ")"@,
        UnaryOp::Not => "!("@ + inner + ")"@,
        UnaryOp::Neg => "-("@ + inner + ")"@,
    }
}

/// Emits a prefix expression on an emitted operand (see `prefix_expr_text`).
pub fn emit_prefix_expr(op: UnaryOp, inner: Code) -> (r: Code)
    requires
        inner@.indent == 0,
    ensures
        r@.buf == prefix_expr_text(op, inner@.buf),
        r@.indent == 0,
{
    let ghost t = inner@.buf;
    let mut out = Code::new();
    match op {
        UnaryOp::Deref => out.w("(/* deref_op */"),
        UnaryOp::Not => out.w("!("),
        UnaryOp::Neg => out.w("-("),
    };
    out.w(inner);
    out.w(")");
    assert(out@.buf =~= prefix_expr_text(op, t));
    out
}

} // verus!
