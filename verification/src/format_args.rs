//! `format_args!`-style format strings: taking a format string apart into
//! text, escaped braces and placeholders, and turning the pieces into the
//! segments of a C# interpolated string.

use vstd::prelude::*;
use crate::eir::{
    ArgList, AstRef, ChildrenContainer, Expr, FormatArgsExpr, FormatArgsSegment, MethodCallExpr,
    NameRef, NodeInfo, Path, PathExpr,
};
use crate::eir_clone::clone_expr;
use crate::text::{chars_equal, chars_of, push_chars, to_string};

verus! {

/// What a placeholder names: an argument by position, or by name.
pub enum PlaceholderArg {
    Index(u64),
    Name(String),
}

/// A piece of a format string.
pub enum FormatSegment {
    Literal(String),
    Braces(char),
    Placeholder(PlaceholderArg, String),
}

/// The model of a `PlaceholderArg`.
pub enum ArgView {
    Index(u64),
    Name(Seq<char>),
}

/// The model of a `FormatSegment`: text, an escaped brace, or a
/// placeholder with its argument and format spec.
pub enum SegmentView {
    Literal(Seq<char>),
    Braces(char),
    Placeholder(ArgView, Seq<char>),
}

impl View for PlaceholderArg {
    type V = ArgView;

    open spec fn view(&self) -> ArgView {
        match self {
            PlaceholderArg::Index(i) => ArgView::Index(*i),
            PlaceholderArg::Name(n) => ArgView::Name(n@),
        }
    }
}

impl View for FormatSegment {
    type V = SegmentView;

    open spec fn view(&self) -> SegmentView {
        match self {
            FormatSegment::Literal(s) => SegmentView::Literal(s@),
            FormatSegment::Braces(c) => SegmentView::Braces(*c),
            FormatSegment::Placeholder(a, f) => SegmentView::Placeholder(a@, f@),
        }
    }
}

/// The models of a sequence of segments.
pub open spec fn segment_views(v: Seq<FormatSegment>) -> Seq<SegmentView> {
    v.map_values(|s: FormatSegment| s@)
}

/// The position of the first character of `s` that satisfies `f`.
pub open spec fn find_first(s: Seq<char>, f: spec_fn(char) -> bool) -> Option<nat>
    decreases s.len(),
{
    if s.len() == 0 {
        None
    } else if f(s[0]) {
        Some(0)
    } else {
        match find_first(s.drop_first(), f) {
            Some(p) => Some(p + 1),
            None => None,
        }
    }
}

/// Where `find_first` finds a character, it lies in `s` and satisfies `f`,
/// and no character before it does.
pub proof fn lemma_find_first(s: Seq<char>, f: spec_fn(char) -> bool)
    ensures
        find_first(s, f) matches Some(p) ==> p < s.len() && f(s[p as int])
            && forall|i: int| 0 <= i < p ==> !f(#[trigger] s[i]),
        find_first(s, f).is_none() ==> forall|i: int| 0 <= i < s.len() ==> !f(#[trigger] s[i]),
    decreases s.len(),
{
    if s.len() > 0 && !f(s[0]) {
        lemma_find_first(s.drop_first(), f);
        assert forall|i: int| 1 <= i < s.len() implies s[i] == s.drop_first()[i - 1] by {}
    }
}

pub open spec fn is_brace(c: char) -> bool {
    c == '{' || c == '}'
}

pub open spec fn is_close_or_colon(c: char) -> bool {
    c == '}' || c == ':'
}

pub open spec fn is_close(c: char) -> bool {
    c == '}'
}

pub open spec fn is_digit(c: char) -> bool {
    '0' <= c && c <= '9'
}

/// The value of a string of decimal digits.
pub open spec fn digits_value(s: Seq<char>) -> nat
    decreases s.len(),
{
    if s.len() == 0 {
        0
    } else {
        digits_value(s.drop_last()) * 10 + (s.last() as nat - '0' as nat) as nat
    }
}

/// The sign-stripped part of a string that `u64::from_str` reads as digits.
pub open spec fn unsigned_digits(s: Seq<char>) -> Seq<char> {
    if s.len() > 0 && s[0] == '+' {
        s.drop_first()
    } else {
        s
    }
}

/// `u64::from_str`: an optional `+` and then one or more decimal digits
/// whose value fits in a `u64`.
pub open spec fn parse_u64_spec(s: Seq<char>) -> Option<u64> {
    let digits = unsigned_digits(s);
    if digits.len() > 0 && (forall|i: int| 0 <= i < digits.len() ==> is_digit(#[trigger] digits[i]))
        && digits_value(digits) <= u64::MAX
    {
        Some(digits_value(digits) as u64)
    } else {
        None
    }
}

/// The placeholder at the start of `rest` (which starts with `{`): its
/// segment, how many characters it takes, and the number of placeholders
/// without an argument after it; `None` when it is not closed.
///
/// `{arg}` or `{arg:spec}` names an argument by number, by name, or, when
/// empty, takes the next argument in order.
pub open spec fn placeholder_spec(rest: Seq<char>, unnamed: nat) -> Option<(SegmentView, nat, nat)> {
    match find_first(rest, |c: char| is_close_or_colon(c)) {
        None => None,
        Some(c) => {
            let variable = rest.subrange(1, c as int);
            let fmt_end: Option<(Seq<char>, nat)> = if rest[c as int] == '}' {
                Some((Seq::empty(), c + 1))
            } else {
                match find_first(rest, |c: char| is_close(c)) {
                    Some(b) => Some((rest.subrange(c + 1int, b as int), b + 1)),
                    None => None,
                }
            };
            match fmt_end {
                None => None,
                Some((fmt, consumed)) => {
                    let arg = match parse_u64_spec(variable) {
                        Some(n) => ArgView::Index(n),
                        None => if variable.len() == 0 {
                            ArgView::Index(unnamed as u64)
                        } else {
                            ArgView::Name(variable)
                        },
                    };
                    let next = if parse_u64_spec(variable).is_none() && variable.len() == 0 {
                        unnamed + 1
                    } else {
                        unnamed
                    };
                    Some((SegmentView::Placeholder(arg, fmt), consumed, next))
                },
            }
        },
    }
}

/// A placeholder takes at least one character and no more than there are,
/// and at most one more placeholder without an argument.
pub proof fn lemma_placeholder_consumed(rest: Seq<char>, unnamed: nat)
    requires
        rest.len() > 0,
    ensures
        placeholder_spec(rest, unnamed) matches Some((seg, consumed, next)) ==> 1 <= consumed <= rest.len()
            && unnamed <= next <= unnamed + 1,
{
    lemma_find_first(rest, |c: char| is_close_or_colon(c));
    lemma_find_first(rest, |c: char| is_close(c));
}

/// The segments of the format string `s`, where `unnamed` placeholders
/// without an argument have come before; `None` when `s` is not a valid
/// format string (a lone `}`, or a `{` that is not closed).
///
/// Text runs up to the next brace; `{{` and `}}` are escaped braces; any
/// other `{` starts a placeholder.
pub open spec fn parse_spec(s: Seq<char>, unnamed: nat) -> Option<Seq<SegmentView>>
    decreases s.len(),
{
    match find_first(s, |c: char| is_brace(c)) {
        None => Some(if s.len() == 0 { Seq::empty() } else { seq![SegmentView::Literal(s)] }),
        Some(p) => {
            proof {
                lemma_find_first(s, |c: char| is_brace(c));
            }
            let lit = if p != 0 { seq![SegmentView::Literal(s.take(p as int))] } else { Seq::empty() };
            let rest = s.skip(p as int);
            if rest.len() >= 2 && rest[1] == rest[0] {
                match parse_spec(rest.skip(2), unnamed) {
                    Some(t) => Some(lit + seq![SegmentView::Braces(rest[0])] + t),
                    None => None,
                }
            } else if rest[0] == '}' {
                None
            } else {
                match placeholder_spec(rest, unnamed) {
                    None => None,
                    Some((seg, consumed, next)) => {
                        proof {
                            lemma_placeholder_consumed(rest, unnamed);
                        }
                        match parse_spec(rest.skip(consumed as int), next) {
                            Some(t) => Some(lit + seq![seg] + t),
                            None => None,
                        }
                    },
                }
            }
        },
    }
}

/// A character where `f` holds, with none before it, is what `find_first` finds.
proof fn lemma_find_first_at(s: Seq<char>, f: spec_fn(char) -> bool, p: int)
    requires
        0 <= p <= s.len(),
        p < s.len() ==> f(s[p]),
        forall|i: int| 0 <= i < p ==> !f(#[trigger] s[i]),
    ensures
        p < s.len() ==> find_first(s, f) == Some(p as nat),
        p == s.len() ==> find_first(s, f).is_none(),
    decreases p,
{
    if p > 0 {
        assert forall|i: int| 0 <= i < p - 1 implies !f(#[trigger] s.drop_first()[i]) by {
            assert(s.drop_first()[i] == s[i + 1]);
        }
        lemma_find_first_at(s.drop_first(), f, p - 1);
    }
}

/// The predicate that a search of kind `which` looks for: a brace (0),
/// a closing brace or a colon (1), a closing brace (2).
pub open spec fn search_pred(which: u8) -> spec_fn(char) -> bool {
    if which == 0 {
        |c: char| is_brace(c)
    } else if which == 1 {
        |c: char| is_close_or_colon(c)
    } else {
        |c: char| is_close(c)
    }
}

fn matches_pred(c: char, which: u8) -> (r: bool)
    ensures
        r == (search_pred(which))(c),
{
    if which == 0 {
        c == '{' || c == '}'
    } else if which == 1 {
        c == '}' || c == ':'
    } else {
        c == '}'
    }
}

/// The first position from `from` on where the character is of the kind
/// `which`.
fn find_from(cs: &Vec<char>, from: usize, which: u8) -> (r: Option<usize>)
    requires
        from <= cs@.len(),
    ensures
        match r {
            Some(j) => from <= j < cs@.len() && find_first(cs@.skip(from as int), search_pred(which)) == Some((j - from) as nat),
            None => find_first(cs@.skip(from as int), search_pred(which)).is_none(),
        },
{
    let ghost s = cs@.skip(from as int);
    let ghost f = search_pred(which);
    let mut j = from;
    while j < cs.len()
        invariant
            from <= j <= cs@.len(),
            s == cs@.skip(from as int),
            f == search_pred(which),
            forall|i: int| 0 <= i < j - from ==> !f(#[trigger] s[i]),
        decreases cs@.len() - j,
    {
        if matches_pred(cs[j], which) {
            proof {
                assert(s[j - from] == cs@[j as int]);
                lemma_find_first_at(s, f, j - from);
            }
            return Some(j);
        }
        assert(s[j - from] == cs@[j as int]);
        j = j + 1;
    }
    proof {
        lemma_find_first_at(s, f, j - from);
    }
    None
}

proof fn lemma_digits_value_push(s: Seq<char>, c: char)
    ensures
        digits_value(s.push(c)) == digits_value(s) * 10 + (c as nat - '0' as nat) as nat,
{
    assert(s.push(c).drop_last() =~= s);
}

proof fn lemma_not_digit_fails(s: Seq<char>, k: int)
    requires
        0 <= k < unsigned_digits(s).len(),
        !is_digit(unsigned_digits(s)[k]),
    ensures
        parse_u64_spec(s).is_none(),
{
}

/// Digits whose prefix already exceeds `u64::MAX` do not parse.
proof fn lemma_overflow_fails(digits: Seq<char>, n: int)
    requires
        0 <= n <= digits.len(),
        digits_value(digits.take(n)) > u64::MAX,
    ensures
        !(forall|i: int| 0 <= i < digits.len() ==> is_digit(#[trigger] digits[i]))
            || digits_value(digits) > u64::MAX,
{
    if forall|i: int| 0 <= i < digits.len() ==> is_digit(#[trigger] digits[i]) {
        lemma_digits_value_prefix(digits, n);
    }
}

/// The value of a string of digits is at least that of any prefix.
proof fn lemma_digits_value_prefix(s: Seq<char>, n: int)
    requires
        0 <= n <= s.len(),
        forall|i: int| 0 <= i < s.len() ==> is_digit(#[trigger] s[i]),
    ensures
        digits_value(s.take(n)) <= digits_value(s),
    decreases s.len(),
{
    if n < s.len() {
        assert(s.drop_last().take(n) =~= s.take(n));
        assert forall|i: int| 0 <= i < s.drop_last().len() implies is_digit(#[trigger] s.drop_last()[i]) by {
            assert(s.drop_last()[i] == s[i]);
        }
        lemma_digits_value_prefix(s.drop_last(), n);
    } else {
        assert(s.take(n) =~= s);
    }
}

/// `u64::from_str` on `cs[from..to]`.
fn parse_u64(cs: &Vec<char>, from: usize, to: usize) -> (r: Option<u64>)
    requires
        from <= to <= cs@.len(),
    ensures
        r == parse_u64_spec(cs@.subrange(from as int, to as int)),
{
    let ghost s = cs@.subrange(from as int, to as int);
    let mut start = from;
    if from < to && cs[from] == '+' {
        start = from + 1;
    }
    let ghost digits = cs@.subrange(start as int, to as int);
    assert(digits =~= unsigned_digits(s));
    if start == to {
        assert(parse_u64_spec(s).is_none());
        return None;
    }
    let mut value: u64 = 0;
    let mut i = start;
    while i < to
        invariant
            start <= i <= to <= cs@.len(),
            digits == cs@.subrange(start as int, to as int),
            s == cs@.subrange(from as int, to as int),
            digits == unsigned_digits(s),
            digits.len() > 0,
            forall|k: int| start <= k < i ==> is_digit(#[trigger] cs@[k]),
            value == digits_value(cs@.subrange(start as int, i as int)),
        decreases to - i,
    {
        let c = cs[i];
        assert(digits[i - start] == cs@[i as int]);
        if !('0' <= c && c <= '9') {
            assert(!is_digit(digits[i - start]));
            proof {
                lemma_not_digit_fails(s, i - start);
            }
            return None;
        }
        let d: u64 = ((c as u32) - ('0' as u32)) as u64;
        assert(d == (c as nat - '0' as nat) as nat);
        proof {
            lemma_digits_value_push(cs@.subrange(start as int, i as int), c);
            assert(cs@.subrange(start as int, i as int).push(c) =~= cs@.subrange(start as int, i + 1));
            assert(digits.take(i + 1 - start) =~= cs@.subrange(start as int, i + 1));
        }
        match value.checked_mul(10) {
            Some(v10) => match v10.checked_add(d) {
                Some(v) => {
                    value = v;
                },
                None => {
                    proof {
                        assert(digits_value(digits.take(i + 1 - start)) == value * 10 + d);
                        lemma_overflow_fails(digits, i + 1 - start);
                        assert(parse_u64_spec(s).is_none());
                    }
                    return None;
                },
            },
            None => {
                proof {
                    assert(digits_value(digits.take(i + 1 - start)) == value * 10 + d);
                    lemma_overflow_fails(digits, i + 1 - start);
                    assert(parse_u64_spec(s).is_none());
                }
                return None;
            },
        }
        i = i + 1;
    }
    assert(cs@.subrange(start as int, to as int) =~= digits);
    assert forall|k: int| 0 <= k < digits.len() implies is_digit(#[trigger] digits[k]) by {
        assert(digits[k] == cs@[start + k]);
    }
    Some(value)
}

/// The placeholder that starts at `cs[p]`: its segment, the position just
/// after it and the count of placeholders without an argument so far.
fn parse_placeholder(cs: &Vec<char>, p: usize, unnamed: u64) -> (r: Option<(FormatSegment, usize, u64)>)
    requires
        p < cs@.len(),
        cs@[p as int] == '{',
        unnamed <= p,
    ensures
        match r {
            Some((seg, next, u)) => placeholder_spec(cs@.skip(p as int), unnamed as nat) == Some((seg@, (next - p) as nat, u as nat))
                && p < next <= cs@.len() && u <= next,
            None => placeholder_spec(cs@.skip(p as int), unnamed as nat).is_none(),
        },
{
    let ghost rest = cs@.skip(p as int);
    proof {
        lemma_find_first(rest, |c: char| is_close_or_colon(c));
        lemma_find_first(rest, |c: char| is_close(c));
    }
    let c = match find_from(cs, p, 1) {
        Some(c) => c,
        None => {
            return None;
        },
    };
    let len = cs.len();
    assert(rest[0] == cs@[p as int]);
    assert(c < len);
    let ghost variable = cs@.subrange(p + 1, c as int);
    assert(rest.subrange(1, (c - p) as int) =~= variable);
    let fmt: String;
    let next: usize;
    if cs[c] == '}' {
        fmt = String::new();
        next = c + 1;
        assert(fmt@ =~= Seq::<char>::empty());
    } else {
        let b = match find_from(cs, p, 2) {
            Some(b) => b,
            None => {
                return None;
            },
        };
        let mut f = String::new();
        push_chars(&mut f, cs.as_slice(), c + 1, b);
        fmt = f;
        next = b + 1;
        assert(rest.subrange(c - p + 1, (b - p) as int) =~= fmt@);
    }
    let parsed = parse_u64(cs, p + 1, c);
    let mut u = unnamed;
    let arg = match parsed {
        Some(num) => PlaceholderArg::Index(num),
        None => if c == p + 1 {
            u = unnamed + 1;
            PlaceholderArg::Index(unnamed)
        } else {
            let mut name = String::new();
            push_chars(&mut name, cs.as_slice(), p + 1, c);
            assert(name@ =~= variable);
            PlaceholderArg::Name(name)
        },
    };
    Some((FormatSegment::Placeholder(arg, fmt), next, u))
}

/// Takes a format string apart into its segments, numbering the
/// placeholders without an argument in order; `None` when the string is
/// not a valid format string.
#[verifier::rlimit(30)]
pub fn parse_format_string(format: &str) -> (r: Option<Vec<FormatSegment>>)
    ensures
        match r {
            Some(v) => parse_spec(format@, 0) == Some(segment_views(v@)),
            None => parse_spec(format@, 0).is_none(),
        },
{
    let cs = chars_of(format);
    let n = cs.len();
    let mut segments: Vec<FormatSegment> = Vec::new();
    let mut i: usize = 0;
    let mut unnamed: u64 = 0;
    assert(cs@.skip(0) =~= cs@);
    loop
        invariant
            n == cs@.len(),
            cs@ == format@,
            i <= n,
            unnamed <= i,
            parse_spec(cs@, 0) == match parse_spec(cs@.skip(i as int), unnamed as nat) {
                Some(t) => Some(segment_views(segments@) + t),
                None => None,
            },
        decreases n - i,
    {
        let ghost s = cs@.skip(i as int);
        let ghost before = segment_views(segments@);
        proof {
            lemma_find_first(s, |c: char| is_brace(c));
        }
        let found = find_from(&cs, i, 0);
        if found.is_none() {
            if i < n {
                let mut text = String::new();
                push_chars(&mut text, cs.as_slice(), i, n);
                assert(text@ =~= s);
                segments.push(FormatSegment::Literal(text));
                assert(segment_views(segments@) =~= before + seq![SegmentView::Literal(s)]);
            } else {
                assert(s.len() == 0);
                assert(segment_views(segments@) =~= before + Seq::<SegmentView>::empty());
            }
            return Some(segments);
        }
        let p = found.unwrap();
        let ghost rest = cs@.skip(p as int);
        assert(s.skip(p - i) =~= rest);
        if p != i {
            let mut text = String::new();
            push_chars(&mut text, cs.as_slice(), i, p);
            assert(s.take(p - i) =~= text@);
            segments.push(FormatSegment::Literal(text));
        }
        let ghost lit = if p != i { seq![SegmentView::Literal(s.take(p - i))] } else { Seq::<SegmentView>::empty() };
        assert(segment_views(segments@) =~= before + lit);
        let ghost mid = segment_views(segments@);
        if p + 1 < n && cs[p + 1] == cs[p] {
            segments.push(FormatSegment::Braces(cs[p]));
            assert(rest.skip(2) =~= cs@.skip(p + 2));
            assert(segment_views(segments@) =~= mid + seq![SegmentView::Braces(rest[0])]);
            i = p + 2;
            proof {
                if let Some(t) = parse_spec(cs@.skip(i as int), unnamed as nat) {
                    assert(before + (lit + seq![SegmentView::Braces(rest[0])] + t) =~= segment_views(segments@) + t);
                }
            }
        } else {
            if cs[p] == '}' {
                return None;
            }
            match parse_placeholder(&cs, p, unnamed) {
                None => {
                    return None;
                },
                Some((seg, next, u)) => {
                    let ghost sv = seg@;
                    segments.push(seg);
                    assert(rest.skip((next - p) as int) =~= cs@.skip(next as int));
                    assert(segment_views(segments@) =~= mid + seq![sv]);
                    i = next;
                    unnamed = u;
                    proof {
                        if let Some(t) = parse_spec(cs@.skip(i as int), unnamed as nat) {
                            assert(before + (lit + seq![sv] + t) =~= segment_views(segments@) + t);
                        }
                    }
                },
            }
        }
    }
}

/// The C# extension method that formats a value for the format spec `f`:
/// `DisplayStr` for `{}` and `DebugStr` for `{:?}`.
pub open spec fn formatter_name(f: Seq<char>) -> Seq<char> {
    if f.len() == 0 {
        "DisplayStr"@
    } else {
        "DebugStr"@
    }
}

/// Whether `f` is a format spec that C# output supports: empty or `?`.
pub open spec fn supported_format_spec(f: Seq<char>) -> bool {
    f.len() == 0 || f == seq!['?']
}

/// The expression bound to `name` by `name = expr` arguments; the last
/// binding of a name wins.
pub open spec fn named_lookup(named: Seq<(String, Expr)>, name: Seq<char>) -> Option<Expr>
    decreases named.len(),
{
    if named.len() == 0 {
        None
    } else if named.last().0@ == name {
        Some(named.last().1)
    } else {
        named_lookup(named.drop_last(), name)
    }
}

/// Whether a placeholder's segment can be emitted: a positional argument
/// exists and the format spec is supported.
pub open spec fn segment_emittable(seg: SegmentView, n_exprs: nat) -> bool {
    match seg {
        SegmentView::Placeholder(arg, f) => supported_format_spec(f) && match arg {
            ArgView::Index(i) => i < n_exprs,
            ArgView::Name(_) => true,
        },
        _ => true,
    }
}

/// Whether `e` is the value a placeholder argument stands for: the
/// positional argument, the named argument, or else the variable of that
/// name in the scope of the macro call.
pub open spec fn argument_value(arg: ArgView, e: Expr, exprs: Seq<Expr>, named: Seq<(String, Expr)>, scope: AstRef) -> bool {
    match arg {
        ArgView::Index(i) => e == exprs[i as int],
        ArgView::Name(n) => match named_lookup(named, n) {
            Some(x) => e == x,
            None => match e {
                Expr::PathExpr(pe) => pe.node_info is NoAst && match pe.path {
                    Path::ScopedName { scope: sc, name } => sc == scope && name@ == n,
                    _ => false,
                },
                _ => false,
            },
        },
    }
}

/// Whether `out` is the interpolated-string segment for `seg`: text and
/// braces as they are, and a placeholder as a call of the formatting
/// method on the argument's value.
pub open spec fn emitted_segment(seg: SegmentView, out: FormatArgsSegment, exprs: Seq<Expr>, named: Seq<(String, Expr)>, scope: AstRef) -> bool {
    match seg {
        SegmentView::Literal(l) => match out {
            FormatArgsSegment::Literal(t) => t@ == l,
            _ => false,
        },
        SegmentView::Braces(c) => match out {
            FormatArgsSegment::Braces(d) => d == c,
            _ => false,
        },
        SegmentView::Placeholder(arg, f) => match out {
            FormatArgsSegment::Expr(Expr::MethodCallExpr(m)) => {
                &&& argument_value(arg, *m.receiver, exprs, named, scope)
                &&& match m.name_ref {
                    NameRef::CSharp(method) => method@ == formatter_name(f),
                    _ => false,
                }
                &&& m.arg_list.args@.len() == 0
                &&& m.arg_list.node_info is NoAst
                &&& m.node_info is NoAst
            },
            _ => false,
        },
    }
}

fn lookup_named(named: &Vec<(String, Expr)>, name: &String) -> (r: Option<Expr>)
    ensures
        r == named_lookup(named@, name@),
{
    let mut i = named.len();
    assert(named@.take(i as int) =~= named@);
    while i > 0
        invariant
            i <= named@.len(),
            named_lookup(named@, name@) == named_lookup(named@.take(i as int), name@),
        decreases i,
    {
        let ghost t = named@.take(i as int);
        assert(t.drop_last() =~= named@.take(i - 1));
        assert(t.last() == named@[i - 1]);
        let entry = &named[i - 1];
        let key_chars = chars_of(entry.0.as_str());
        let name_chars = chars_of(name.as_str());
        if chars_equal(&key_chars, &name_chars) {
            return Some(clone_expr(&entry.1));
        }
        i = i - 1;
    }
    None
}

fn emit_segment(seg: &FormatSegment, exprs: &Vec<Expr>, named: &Vec<(String, Expr)>, scope: AstRef) -> (r: FormatArgsSegment)
    requires
        segment_emittable(seg@, exprs@.len()),
    ensures
        emitted_segment(seg@, r, exprs@, named@, scope),
{
    match seg {
        FormatSegment::Literal(l) => FormatArgsSegment::Literal(to_string(l.as_str())),
        FormatSegment::Braces(c) => FormatArgsSegment::Braces(*c),
        FormatSegment::Placeholder(arg, f) => {
            let n = exprs.len();
            let value = match arg {
                PlaceholderArg::Index(i) => {
                    assert(*i < n);
                    let k = *i as usize;
                    assert(k == *i);
                    clone_expr(&exprs[k])
                },
                PlaceholderArg::Name(name) => match lookup_named(named, name) {
                    Some(x) => x,
                    None => Expr::PathExpr(PathExpr {
                        path: Path::ScopedName { scope, name: to_string(name.as_str()) },
                        node_info: NodeInfo::NoAst,
                    }),
                },
            };
            let f_chars = chars_of(f.as_str());
            let method = if f_chars.len() == 0 {
                to_string("DisplayStr")
            } else {
                to_string("DebugStr")
            };
            assert(method@ == formatter_name(f@));
            FormatArgsSegment::Expr(Expr::MethodCallExpr(MethodCallExpr {
                receiver: Box::new(value),
                name_ref: NameRef::CSharp(method),
                arg_list: ArgList { args: ChildrenContainer::Empty, node_info: NodeInfo::NoAst },
                node_info: NodeInfo::NoAst,
            }))
        },
    }
}

/// The interpolated-string segments of a `format_args!` call: text and
/// escaped braces as they are, and each placeholder as a call of
/// `DisplayStr` (`{}`) or `DebugStr` (`{:?}`) on the argument it names.
/// An argument named but not passed is the variable of that name in the
/// scope of the macro call.
pub fn emit_format_args_to_string(
    segments: &Vec<FormatSegment>,
    exprs: &Vec<Expr>,
    named_exprs: &Vec<(String, Expr)>,
    scope: AstRef,
) -> (r: FormatArgsExpr)
    requires
        forall|k: int| 0 <= k < segments@.len() ==> segment_emittable((#[trigger] segments@[k])@, exprs@.len()),
    ensures
        r.segments@.len() == segments@.len(),
        forall|k: int| 0 <= k < segments@.len() ==> emitted_segment(
            (#[trigger] segments@[k])@,
            r.segments@[k],
            exprs@,
            named_exprs@,
            scope,
        ),
        r.node_info is NoAst,
{
    let mut result: Vec<FormatArgsSegment> = Vec::new();
    let mut i: usize = 0;
    while i < segments.len()
        invariant
            i <= segments@.len(),
            result@.len() == i,
            forall|k: int| 0 <= k < segments@.len() ==> segment_emittable((#[trigger] segments@[k])@, exprs@.len()),
            forall|k: int| 0 <= k < i ==> emitted_segment(
                (#[trigger] segments@[k])@,
                result@[k],
                exprs@,
                named_exprs@,
                scope,
            ),
        decreases segments@.len() - i,
    {
        let seg = emit_segment(&segments[i], exprs, named_exprs, scope);
        result.push(seg);
        i = i + 1;
    }
    FormatArgsExpr { segments: ChildrenContainer::from_vec(result), node_info: NodeInfo::NoAst }
}

} // verus!
