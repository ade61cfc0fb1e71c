//! Macro calls in function bodies: reading the arguments out of a macro's
//! token tree and building the expression that stands for the call.
//!
//! Which macro a call names, what an inlined macro expands to, and the
//! lowered expression behind each argument span come in as plain facts
//! (they need name resolution); how the tokens are read and what is built
//! from them is computed here.

use vstd::prelude::*;
use crate::eir::{
    ArgList, AstRef, AwaitExpr, CallExpr, ChildrenContainer, ClosureExpr, Expr, FormatArgsExpr, MacroStmts, NodeInfo,
    ParamList, RawCodeExpr, Stmt, VecListExpr,
};
use crate::eir_clone::{clone_expr, clone_stmts};
use crate::format_args::{
    emit_format_args_to_string, emitted_segment, parse_format_string, parse_spec, segment_emittable, segment_views,
};
use crate::output::{Code, CodeState};

verus! {

/// The kind of a token in a macro's token tree, as far as reading the
/// arguments depends on it.
#[derive(PartialEq, Eq, Structural, Clone, Copy)]
pub enum TokenKind {
    Ident,
    Eq,
    Comma,
    Semicolon,
    FatArrow,
    CloseParen,
    CloseBracket,
    CloseBrace,
    StringLit,
    Whitespace,
    Other,
}

/// A child of a token tree: a token with its kind and text, or a nested
/// token tree; each with its identity.
pub enum TokenTreeElement {
    Token { id: u64, kind: TokenKind, text: String },
    Node { id: u64 },
}

/// The identity of an element.
pub open spec fn elem_id(x: TokenTreeElement) -> u64 {
    match x {
        TokenTreeElement::Token { id, .. } => id,
        TokenTreeElement::Node { id } => id,
    }
}

/// Whether `k` closes a token tree.
pub open spec fn is_close(k: TokenKind) -> bool {
    k == TokenKind::CloseParen || k == TokenKind::CloseBracket || k == TokenKind::CloseBrace
}

/// Whether `k` ends an argument expression: `=>`, `,`, `;` or a closing
/// delimiter.
pub open spec fn is_stop(k: TokenKind) -> bool {
    k == TokenKind::FatArrow || k == TokenKind::Comma || k == TokenKind::Semicolon || is_close(k)
}

/// Whether the element at `pos` is a token of kind `k`.
pub open spec fn token_at(e: Seq<TokenTreeElement>, pos: int, k: TokenKind) -> bool {
    0 <= pos < e.len() && (e[pos] matches TokenTreeElement::Token { kind, .. } && kind == k)
}

/// Whether reading is at its end at `pos`: past the last element, or at a
/// nested tree or a closing delimiter.
pub open spec fn at_end(e: Seq<TokenTreeElement>, pos: int) -> bool {
    !(0 <= pos < e.len()) || match e[pos] {
        TokenTreeElement::Node { .. } => true,
        TokenTreeElement::Token { kind, .. } => is_close(kind),
    }
}

/// The first position from `pos` on that holds a token ending an argument,
/// or the length.
pub open spec fn stop_index(e: Seq<TokenTreeElement>, pos: int) -> int
    decreases e.len() - pos,
{
    if pos < 0 || pos >= e.len() {
        e.len() as int
    } else if e[pos] matches TokenTreeElement::Token { kind, .. } && is_stop(kind) {
        pos
    } else {
        stop_index(e, pos + 1)
    }
}

/// The argument expression read at `pos`: the identities of its first and
/// last elements and the position after it; `None` at the end.
pub open spec fn next_expr_spec(e: Seq<TokenTreeElement>, pos: int) -> Option<(u64, u64, int)> {
    if at_end(e, pos) {
        None
    } else {
        let s = stop_index(e, pos + 1);
        Some((elem_id(e[pos]), elem_id(e[s - 1]), s))
    }
}

/// The children of a token tree without its whitespace.
pub open spec fn without_whitespace(tt: Seq<TokenTreeElement>) -> Seq<TokenTreeElement>
    decreases tt.len(),
{
    if tt.len() == 0 {
        Seq::empty()
    } else {
        let prev = without_whitespace(tt.drop_last());
        if tt.last() matches TokenTreeElement::Token { kind, .. } && kind == TokenKind::Whitespace {
            prev
        } else {
            prev.push(tt.last())
        }
    }
}

/// Reads the arguments of a macro call out of its token tree.
pub struct MacroParser {
    pub elements: Vec<TokenTreeElement>,
    pub pos: usize,
}

/// The last entry recorded for the span from `first` to `last`.
pub open spec fn span_lookup<T>(s: Seq<(u64, u64, T)>, first: u64, last: u64) -> Option<T>
    decreases s.len(),
{
    if s.len() == 0 {
        None
    } else if s.last().0 == first && s.last().1 == last {
        Some(s.last().2)
    } else {
        span_lookup(s.drop_last(), first, last)
    }
}

pub proof fn lemma_stop_index(e: Seq<TokenTreeElement>, pos: int)
    requires
        0 <= pos <= e.len(),
    ensures
        pos <= stop_index(e, pos) <= e.len(),
    decreases e.len() - pos,
{
    if pos < e.len() && !(e[pos] matches TokenTreeElement::Token { kind, .. } && is_stop(kind)) {
        lemma_stop_index(e, pos + 1);
    }
}

proof fn lemma_stop_index_scan(e: Seq<TokenTreeElement>, pos: int)
    requires
        0 <= pos <= e.len(),
    ensures
        forall|k: int| pos <= k < stop_index(e, pos) ==> !(#[trigger] e[k] matches TokenTreeElement::Token { kind, .. } && is_stop(kind)),
        stop_index(e, pos) == e.len() || (e[stop_index(e, pos)] matches TokenTreeElement::Token { kind, .. } && is_stop(kind)),
    decreases e.len() - pos,
{
    lemma_stop_index(e, pos);
    if pos < e.len() && !(e[pos] matches TokenTreeElement::Token { kind, .. } && is_stop(kind)) {
        lemma_stop_index_scan(e, pos + 1);
    }
}

/// An argument that the parser reads starts where it stands, holds no
/// token that ends an argument after its first element, and stops right
/// before such a token or at the end of the tree.
pub proof fn lemma_argument_bounds(e: Seq<TokenTreeElement>, pos: int)
    requires
        0 <= pos,
        next_expr_spec(e, pos) is Some,
    ensures
        next_expr_spec(e, pos) == Some(
            (elem_id(e[pos]), elem_id(e[stop_index(e, pos + 1) - 1]), stop_index(e, pos + 1)),
        ),
        pos < stop_index(e, pos + 1) <= e.len(),
        forall|k: int|
            pos < k < stop_index(e, pos + 1) ==> !(#[trigger] e[k] matches TokenTreeElement::Token { kind, .. } && is_stop(
                kind,
            )),
        stop_index(e, pos + 1) == e.len() || (e[stop_index(e, pos + 1)] matches TokenTreeElement::Token { kind, .. }
            && is_stop(kind)),
{
    assert(pos < e.len());
    lemma_stop_index(e, pos + 1);
    lemma_stop_index_scan(e, pos + 1);
}

fn clone_element(x: &TokenTreeElement) -> (r: TokenTreeElement)
    ensures
        r == *x,
{
    match x {
        TokenTreeElement::Token { id, kind, text } => TokenTreeElement::Token { id: *id, kind: *kind, text: text.clone() },
        TokenTreeElement::Node { id } => TokenTreeElement::Node { id: *id },
    }
}

/// Whether `x` is a token that ends an argument.
fn is_stop_elem(x: &TokenTreeElement) -> (r: bool)
    ensures
        r == (*x matches TokenTreeElement::Token { kind, .. } && is_stop(kind)),
{
    match x {
        TokenTreeElement::Token { kind, .. } => {
            *kind == TokenKind::FatArrow || *kind == TokenKind::Comma || *kind == TokenKind::Semicolon
                || *kind == TokenKind::CloseParen || *kind == TokenKind::CloseBracket || *kind == TokenKind::CloseBrace
        },
        TokenTreeElement::Node { .. } => false,
    }
}

impl MacroParser {
    /// The parser over the children `tt` of a token tree, after its opening
    /// delimiter; whitespace is skipped.
    pub fn new(tt: &Vec<TokenTreeElement>) -> (r: MacroParser)
        requires
            without_whitespace(tt@).len() > 0,
            without_whitespace(tt@)[0] is Token,
        ensures
            r.elements@ == without_whitespace(tt@),
            r.pos == 1,
    {
        let mut elements: Vec<TokenTreeElement> = Vec::new();
        let mut i: usize = 0;
        assert(tt@.take(0) =~= Seq::<TokenTreeElement>::empty());
        while i < tt.len()
            invariant
                i <= tt@.len(),
                elements@ == without_whitespace(tt@.take(i as int)),
            decreases tt@.len() - i,
        {
            assert(tt@.take(i + 1).drop_last() =~= tt@.take(i as int));
            let white = match &tt[i] {
                TokenTreeElement::Token { kind, .. } => *kind == TokenKind::Whitespace,
                TokenTreeElement::Node { .. } => false,
            };
            if !white {
                elements.push(clone_element(&tt[i]));
            }
            assert(elements@ == without_whitespace(tt@.take(i + 1)));
            i = i + 1;
        }
        assert(tt@.take(i as int) =~= tt@);
        MacroParser { elements, pos: 1 }
    }

    /// Whether reading is at its end (see `at_end`).
    pub fn is_end(&self) -> (r: bool)
        ensures
            r == at_end(self.elements@, self.pos as int),
    {
        if self.pos >= self.elements.len() {
            return true;
        }
        match &self.elements[self.pos] {
            TokenTreeElement::Node { .. } => true,
            TokenTreeElement::Token { kind, .. } => {
                *kind == TokenKind::CloseParen || *kind == TokenKind::CloseBracket || *kind == TokenKind::CloseBrace
            },
        }
    }

    /// Takes the next element, unless at the end.
    pub fn next(&mut self) -> (r: Option<TokenTreeElement>)
        ensures
            final(self).elements@ == old(self).elements@,
            if at_end(old(self).elements@, old(self).pos as int) {
                r is None && final(self).pos == old(self).pos
            } else {
                r == Some(old(self).elements@[old(self).pos as int]) && final(self).pos == old(self).pos + 1
            },
    {
        let n = self.elements.len();
        if self.is_end() {
            None
        } else {
            assert(self.pos < n);
            let x = clone_element(&self.elements[self.pos]);
            self.pos = self.pos + 1;
            Some(x)
        }
    }

    /// The next element, unless at the end.
    pub fn peek(&self) -> (r: Option<&TokenTreeElement>)
        ensures
            if at_end(self.elements@, self.pos as int) {
                r is None
            } else {
                r == Some(&self.elements@[self.pos as int])
            },
    {
        if self.is_end() {
            None
        } else {
            Some(&self.elements[self.pos])
        }
    }

    /// Takes the next element if it is a token of kind `kind` (also at the
    /// end), and gives its text.
    pub fn take_token_value(&mut self, kind: TokenKind) -> (r: Option<String>)
        ensures
            final(self).elements@ == old(self).elements@,
            if token_at(old(self).elements@, old(self).pos as int, kind) {
                &&& final(self).pos == old(self).pos + 1
                &&& r matches Some(t) && old(self).elements@[old(self).pos as int] matches TokenTreeElement::Token {
                    text,
                    ..
                } && t == text
            } else {
                r is None && final(self).pos == old(self).pos
            },
    {
        if self.pos < self.elements.len() {
            match &self.elements[self.pos] {
                TokenTreeElement::Token { kind: k, text, .. } => {
                    if *k == kind {
                        let t = text.clone();
                        self.pos = self.pos + 1;
                        return Some(t);
                    }
                },
                TokenTreeElement::Node { .. } => {},
            }
        }
        None
    }

    /// Takes the next element if it is a token of kind `kind`.
    pub fn take_token(&mut self, kind: TokenKind) -> (r: bool)
        ensures
            final(self).elements@ == old(self).elements@,
            r == token_at(old(self).elements@, old(self).pos as int, kind),
            final(self).pos == if r { old(self).pos + 1 } else { old(self).pos as int },
    {
        self.take_token_value(kind).is_some()
    }

    /// Reads an argument expression: its first element and all that follow
    /// up to a token that ends an argument; gives the identities of its
    /// first and last elements (see `next_expr_spec`).
    pub fn next_expr(&mut self) -> (r: Option<(u64, u64)>)
        ensures
            final(self).elements@ == old(self).elements@,
            match next_expr_spec(old(self).elements@, old(self).pos as int) {
                None => r is None && final(self).pos == old(self).pos,
                Some((a, b, p)) => r == Some((a, b)) && final(self).pos == p,
            },
    {
        let ghost e = self.elements@;
        let n = self.elements.len();
        if self.is_end() {
            return None;
        }
        assert(self.pos < n);
        let first = match &self.elements[self.pos] {
            TokenTreeElement::Token { id, .. } => *id,
            TokenTreeElement::Node { id } => *id,
        };
        let mut j = self.pos + 1;
        while j < self.elements.len() && !is_stop_elem(&self.elements[j])
            invariant
                e == self.elements@,
                old(self).pos < j <= e.len(),
                stop_index(e, j as int) == stop_index(e, old(self).pos + 1),
            decreases e.len() - j,
        {
            j = j + 1;
        }
        assert(stop_index(e, j as int) == j);
        let last = match &self.elements[j - 1] {
            TokenTreeElement::Token { id, .. } => *id,
            TokenTreeElement::Node { id } => *id,
        };
        self.pos = j;
        Some((first, last))
    }
}

/// What each argument span of a macro call stands for: its lowered
/// expression, and the value of a string literal, by the identities of its
/// first and last elements.
pub struct ArgFacts {
    pub exprs: Vec<(u64, u64, Expr)>,
    pub strings: Vec<(u64, u64, String)>,
}

/// The lowered expression of a span.
pub open spec fn expr_at(f: ArgFacts, a: u64, b: u64) -> Option<Expr> {
    span_lookup(f.exprs@, a, b)
}

/// The value of the string literal of a span.
pub open spec fn string_at(f: ArgFacts, a: u64, b: u64) -> Option<String> {
    span_lookup(f.strings@, a, b)
}

/// The text of the token at `pos`.
pub open spec fn token_text(e: Seq<TokenTreeElement>, pos: int) -> String {
    match e[pos] {
        TokenTreeElement::Token { text, .. } => text,
        TokenTreeElement::Node { .. } => arbitrary(),
    }
}

/// The arguments after the format string from `pos`: while a comma
/// follows and then no end, an argument `name = expr` or a plain `expr`.
/// Gives the positional ones, the named ones and the position after them;
/// `None` where an argument is missing or has no lowered expression.
pub open spec fn params_from(e: Seq<TokenTreeElement>, pos: int, f: ArgFacts) -> Option<(Seq<Expr>, Seq<(String, Expr)>, int)>
    decreases e.len() - pos,
{
    if !token_at(e, pos, TokenKind::Comma) {
        Some((Seq::empty(), Seq::empty(), pos))
    } else if at_end(e, pos + 1) {
        Some((Seq::empty(), Seq::empty(), pos + 1))
    } else if token_at(e, pos + 1, TokenKind::Ident) && token_at(e, pos + 2, TokenKind::Eq) {
        match next_expr_spec(e, pos + 3) {
            None => None,
            Some((a, b, p)) => {
                proof {
                    lemma_stop_index(e, pos + 4);
                }
                match (expr_at(f, a, b), params_from(e, p, f)) {
                    (Some(x), Some((xs, ns, q))) => Some((xs, seq![(token_text(e, pos + 1), x)] + ns, q)),
                    _ => None,
                }
            },
        }
    } else {
        match next_expr_spec(e, pos + 1) {
            None => None,
            Some((a, b, p)) => {
                proof {
                    lemma_stop_index(e, pos + 2);
                }
                match (expr_at(f, a, b), params_from(e, p, f)) {
                    (Some(x), Some((xs, ns, q))) => Some((seq![x] + xs, ns, q)),
                    _ => None,
                }
            },
        }
    }
}

/// The format string of a `format_args!`-style call read at `pos`, with
/// its arguments and the position after them; `None` where the first
/// argument is not a string literal or an argument cannot be read.
pub open spec fn format_args_from(e: Seq<TokenTreeElement>, pos: int, f: ArgFacts) -> Option<(Seq<char>, Seq<Expr>, Seq<(String, Expr)>, int)> {
    match next_expr_spec(e, pos) {
        None => None,
        Some((a, b, p)) => match (string_at(f, a, b), params_from(e, p, f)) {
            (Some(fmt), Some((xs, ns, q))) => Some((fmt@, xs, ns, q)),
            _ => None,
        },
    }
}

/// Whether a `format_args!`-style call can be read at `pos` and turned
/// into an interpolated string: the format string is valid and each
/// placeholder names a passed position and a supported format.
pub open spec fn format_args_ok(e: Seq<TokenTreeElement>, pos: int, f: ArgFacts) -> bool {
    match format_args_from(e, pos, f) {
        Some((fmt, xs, _, _)) => match parse_spec(fmt, 0) {
            Some(segs) => forall|k: int| 0 <= k < segs.len() ==> segment_emittable(#[trigger] segs[k], xs.len()),
            None => false,
        },
        None => false,
    }
}

/// Whether `r` is the interpolated string of the `format_args!`-style call
/// read at `pos`, in the scope of macro call `scope` (see
/// `emit_format_args_to_string`).
pub open spec fn format_args_result(e: Seq<TokenTreeElement>, pos: int, f: ArgFacts, scope: AstRef, r: FormatArgsExpr) -> bool {
    let (fmt, xs, ns, _) = format_args_from(e, pos, f).unwrap();
    let segs = parse_spec(fmt, 0).unwrap();
    &&& r.segments@.len() == segs.len()
    &&& forall|k: int| 0 <= k < segs.len() ==> emitted_segment(#[trigger] segs[k], r.segments@[k], xs, ns, scope)
    &&& r.node_info is NoAst
}

/// The last entry recorded for a span.
fn find_span<'a, T>(v: &'a Vec<(u64, u64, T)>, a: u64, b: u64) -> (r: Option<&'a T>)
    ensures
        match r {
            Some(x) => span_lookup(v@, a, b) == Some(*x),
            None => span_lookup(v@, a, b) is None,
        },
{
    let ghost s = v@;
    let mut i = v.len();
    assert(s.take(s.len() as int) =~= s);
    while i > 0
        invariant
            i <= s.len(),
            s == v@,
            span_lookup(s, a, b) == span_lookup(s.take(i as int), a, b),
        decreases i,
    {
        assert(s.take(i as int).drop_last() =~= s.take(i - 1));
        assert(s.take(i as int).last() == s[i - 1]);
        if v[i - 1].0 == a && v[i - 1].1 == b {
            return Some(&v[i - 1].2);
        }
        i = i - 1;
    }
    None
}

/// The lowered expression of a span that has one.
fn lower(f: &ArgFacts, a: u64, b: u64) -> (r: Expr)
    requires
        expr_at(*f, a, b) is Some,
    ensures
        r == expr_at(*f, a, b).unwrap(),
{
    match find_span(&f.exprs, a, b) {
        Some(x) => clone_expr(x),
        None => {
            proof {
                assert(false);
            }
            Expr::RawCodeExpr(RawCodeExpr { code: Code::new(), divergent: false, node_info: NodeInfo::NoAst })
        },
    }
}

/// Reads the arguments after the format string (see `params_from`).
pub fn parse_format_args_params(parser: &mut MacroParser, f: &ArgFacts) -> (r: (Vec<Expr>, Vec<(String, Expr)>))
    requires
        params_from(old(parser).elements@, old(parser).pos as int, *f) is Some,
        old(parser).pos <= old(parser).elements@.len(),
    ensures
        final(parser).elements@ == old(parser).elements@,
        final(parser).pos <= final(parser).elements@.len(),
        params_from(old(parser).elements@, old(parser).pos as int, *f) == Some(
            (r.0@, r.1@, final(parser).pos as int),
        ),
{
    let ghost e = parser.elements@;
    let ghost total = params_from(e, parser.pos as int, *f).unwrap();
    let mut exprs: Vec<Expr> = Vec::new();
    let mut named: Vec<(String, Expr)> = Vec::new();
    let mut done = false;
    assert(exprs@ + total.0 =~= total.0);
    assert(named@ + total.1 =~= total.1);
    while !done
        invariant
            e == parser.elements@,
            parser.pos <= e.len(),
            !done ==> (params_from(e, parser.pos as int, *f) matches Some((xs, ns, q)) && total.0 == exprs@ + xs
                && total.1 == named@ + ns && total.2 == q),
            done ==> (total.0 == exprs@ && total.1 == named@ && total.2 == parser.pos),
        decreases (if done { 0int } else { 1int }) + 2 * (e.len() - parser.pos),
    {
        let ghost pos0 = parser.pos as int;
        let ghost rest = params_from(e, pos0, *f).unwrap();
        if !parser.take_token(TokenKind::Comma) {
            assert(exprs@ + rest.0 =~= exprs@);
            assert(named@ + rest.1 =~= named@);
            done = true;
        } else if parser.is_end() {
            assert(exprs@ + rest.0 =~= exprs@);
            assert(named@ + rest.1 =~= named@);
            done = true;
        } else {
            let save = parser.pos;
            let mut name: Option<String> = None;
            match parser.take_token_value(TokenKind::Ident) {
                Some(t) => {
                    if parser.take_token(TokenKind::Eq) {
                        name = Some(t);
                    } else {
                        parser.pos = save;
                    }
                },
                None => {},
            }
            let ghost start = parser.pos as int;
            let ghost is_named = name is Some;
            proof {
                if is_named {
                    assert(token_at(e, pos0 + 1, TokenKind::Ident) && token_at(e, pos0 + 2, TokenKind::Eq));
                    assert(start == pos0 + 3);
                } else {
                    assert(!(token_at(e, pos0 + 1, TokenKind::Ident) && token_at(e, pos0 + 2, TokenKind::Eq)));
                    assert(start == pos0 + 1);
                }
                if start < e.len() {
                    lemma_stop_index(e, start + 1);
                }
            }
            match parser.next_expr() {
                Some((a, b)) => {
                    assert(next_expr_spec(e, start) == Some((a, b, parser.pos as int)));
                    let x = lower(f, a, b);
                    match name {
                        Some(t) => {
                            let ghost before = named@;
                            named.push((t, x));
                            assert(named@ + params_from(e, parser.pos as int, *f).unwrap().1 =~= before + rest.1);
                        },
                        None => {
                            let ghost before = exprs@;
                            exprs.push(x);
                            assert(exprs@ + params_from(e, parser.pos as int, *f).unwrap().0 =~= before + rest.0);
                        },
                    }
                },
                None => {
                    proof {
                        assert(false);
                    }
                },
            }
        }
    }
    (exprs, named)
}

/// Reads a `format_args!`-style call at the parser's position and turns it
/// into an interpolated string in the scope of macro call `scope` (see
/// `format_args_result`).
pub fn parse_rest_as_format_args(parser: &mut MacroParser, f: &ArgFacts, scope: AstRef) -> (r: FormatArgsExpr)
    requires
        format_args_ok(old(parser).elements@, old(parser).pos as int, *f),
        old(parser).pos <= old(parser).elements@.len(),
    ensures
        final(parser).elements@ == old(parser).elements@,
        final(parser).pos <= final(parser).elements@.len(),
        final(parser).pos == format_args_from(old(parser).elements@, old(parser).pos as int, *f).unwrap().3,
        format_args_result(old(parser).elements@, old(parser).pos as int, *f, scope, r),
{
    let ghost e = parser.elements@;
    let ghost pos0 = parser.pos as int;
    proof {
        if pos0 < e.len() {
            lemma_stop_index(e, pos0 + 1);
        }
    }
    let (a, b) = match parser.next_expr() {
        Some(span) => span,
        None => {
            proof {
                assert(false);
            }
            (0, 0)
        },
    };
    let format = match find_span(&f.strings, a, b) {
        Some(s) => s.clone(),
        None => {
            proof {
                assert(false);
            }
            String::new()
        },
    };
    let (exprs, named) = parse_format_args_params(parser, f);
    let segments = match parse_format_string(format.as_str()) {
        Some(v) => v,
        None => {
            proof {
                assert(false);
            }
            Vec::new()
        },
    };
    proof {
        let segs = parse_spec(format@, 0).unwrap();
        assert(segs == segment_views(segments@));
        assert forall|k: int| 0 <= k < segments@.len() implies segment_emittable(
            (#[trigger] segments@[k])@,
            exprs@.len(),
        ) by {
            assert(segs[k] == segments@[k]@);
        }
    }
    let r = emit_format_args_to_string(&segments, &exprs, &named, scope);
    proof {
        let segs = parse_spec(format@, 0).unwrap();
        assert forall|k: int| 0 <= k < segs.len() implies emitted_segment(
            #[trigger] segs[k],
            r.segments@[k],
            exprs@,
            named@,
            scope,
        ) by {
            assert(segs[k] == segments@[k]@);
        }
    }
    r
}

/// The level of a logging macro.
#[derive(Clone, Copy)]
pub enum LogLevel {
    Trace,
    Debug,
    Info,
    Warn,
    Error,
}

/// The name of a logging level.
pub open spec fn level_text(l: LogLevel) -> Seq<char> {
    match l {
        LogLevel::Trace => "trace"@,
        LogLevel::Debug => "debug"@,
        LogLevel::Info => "info"@,
        LogLevel::Warn => "warn"@,
        LogLevel::Error => "error"@,
    }
}

/// What an inlined macro expands to, lowered: statements with an optional
/// tail, an expression, or something else.
pub enum Expansion {
    Stmts { statements: ChildrenContainer<Stmt>, tail_expr: Option<Box<Expr>> },
    Expr(Expr),
    Other,
}

/// Which macro a call names: one to inline, with its expansion, or one of
/// the macros given their own translation.
pub enum MacroKind {
    Inline(Expansion),
    Unreachable,
    Panic,
    Vec,
    Pin,
    FormatArgs,
    Log(LogLevel),
    Assert,
    Cfg,
    LazyStatic,
    TryJoin,
    Unsupported,
}

/// A macro call: the macro expression and call nodes, the macro it names,
/// the children of its token tree and the tree's text, and what its
/// argument spans stand for.
pub struct MacroCallFacts {
    pub macro_expr: AstRef,
    pub macro_call: AstRef,
    pub kind: MacroKind,
    pub tokens: Vec<TokenTreeElement>,
    pub tt_text: String,
    pub args: ArgFacts,
}

/// The elements that reading starts from, the opening delimiter first.
pub open spec fn call_elements(f: MacroCallFacts) -> Seq<TokenTreeElement> {
    without_whitespace(f.tokens@)
}

/// Whether the token tree can be read: it starts with a token.
pub open spec fn readable(f: MacroCallFacts) -> bool {
    call_elements(f).len() > 0 && call_elements(f)[0] is Token
}

/// The `key = value;` pairs of a logging macro, skipped from `pos` up to
/// its format string; `None` where a pair is malformed or the format string
/// never comes.
pub open spec fn skip_kv(e: Seq<TokenTreeElement>, pos: int, f: ArgFacts) -> Option<int>
    decreases e.len() - pos,
{
    if token_at(e, pos, TokenKind::StringLit) {
        Some(pos)
    } else if token_at(e, pos, TokenKind::Ident) && token_at(e, pos + 1, TokenKind::Eq) {
        match next_expr_spec(e, pos + 2) {
            None => None,
            Some((a, b, p)) => {
                proof {
                    lemma_stop_index(e, pos + 3);
                }
                if expr_at(f, a, b) is Some && token_at(e, p, TokenKind::Semicolon) {
                    skip_kv(e, p + 1, f)
                } else {
                    None
                }
            },
        }
    } else {
        None
    }
}

/// The further elements of a `vec!` list from `pos`: while a comma follows
/// and then an argument.
pub open spec fn list_rest(e: Seq<TokenTreeElement>, pos: int, f: ArgFacts) -> Option<Seq<Expr>>
    decreases e.len() - pos,
{
    if !token_at(e, pos, TokenKind::Comma) {
        Some(Seq::empty())
    } else {
        match next_expr_spec(e, pos + 1) {
            None => Some(Seq::empty()),
            Some((a, b, p)) => {
                proof {
                    lemma_stop_index(e, pos + 2);
                }
                match (expr_at(f, a, b), list_rest(e, p, f)) {
                    (Some(x), Some(xs)) => Some(seq![x] + xs),
                    _ => None,
                }
            },
        }
    }
}

/// The elements of a `vec!` call: none for an empty call; else the first
/// argument, followed by a comma or the end, and then, while a comma
/// follows, the further arguments (after a comma that follows the first
/// one, a second comma is needed before the next). `None` for `vec![x; n]`
/// and other forms.
pub open spec fn vec_elements(e: Seq<TokenTreeElement>, f: ArgFacts) -> Option<Seq<Expr>> {
    match next_expr_spec(e, 1) {
        None => Some(Seq::empty()),
        Some((a, b, p)) => if token_at(e, p, TokenKind::Semicolon) {
            None
        } else if token_at(e, p, TokenKind::Comma) || at_end(e, p) {
            let q = if token_at(e, p, TokenKind::Comma) { p + 1 } else { p };
            match (expr_at(f, a, b), list_rest(e, q, f)) {
                (Some(x), Some(xs)) => Some(seq![x] + xs),
                _ => None,
            }
        } else {
            None
        },
    }
}

/// The arguments of a `try_join!` call from `pos`, each followed by a comma
/// or the end.
pub open spec fn join_args(e: Seq<TokenTreeElement>, pos: int, f: ArgFacts) -> Option<Seq<Expr>>
    decreases e.len() - pos,
{
    if at_end(e, pos) {
        Some(Seq::empty())
    } else {
        match next_expr_spec(e, pos) {
            None => None,
            Some((a, b, p)) => {
                proof {
                    lemma_stop_index(e, pos + 1);
                }
                match expr_at(f, a, b) {
                    None => None,
                    Some(x) => if token_at(e, p, TokenKind::Comma) {
                        match join_args(e, p + 1, f) {
                            Some(xs) => Some(seq![x] + xs),
                            None => None,
                        }
                    } else if at_end(e, p) {
                        Some(seq![x])
                    } else {
                        None
                    },
                }
            },
        }
    }
}

/// The position of the message of an `assert!` call: after the condition
/// and a comma, if one follows.
pub open spec fn assert_message_pos(e: Seq<TokenTreeElement>) -> int {
    let p = next_expr_spec(e, 1).unwrap().2;
    if token_at(e, p, TokenKind::Comma) { p + 1 } else { p }
}

/// Whether the call can be translated (where it cannot, the generator
/// stops).
pub open spec fn macro_ok(f: MacroCallFacts) -> bool {
    let e = call_elements(f);
    match f.kind {
        MacroKind::Inline(x) => !(x is Other),
        MacroKind::Unreachable | MacroKind::Panic | MacroKind::LazyStatic => true,
        MacroKind::Vec => readable(f) && vec_elements(e, f.args) is Some,
        MacroKind::Pin => readable(f) && (next_expr_spec(e, 1) matches Some((a, b, _)) && expr_at(f.args, a, b) is Some),
        MacroKind::FormatArgs => readable(f) && format_args_ok(e, 1, f.args),
        MacroKind::Log(_) => readable(f) && (skip_kv(e, 1, f.args) matches Some(p) && format_args_ok(e, p, f.args)),
        MacroKind::Assert => readable(f) && (next_expr_spec(e, 1) matches Some((a, b, _)) && expr_at(f.args, a, b) is Some
            && format_args_ok(e, assert_message_pos(e), f.args)),
        MacroKind::Cfg => f.tt_text@ == "(windows)"@,
        MacroKind::TryJoin => readable(f) && join_args(e, 1, f.args) is Some,
        MacroKind::Unsupported => false,
    }
}

/// Whether `r` is C# code `text` written out, not marked divergent.
pub open spec fn is_raw(r: Expr, text: Seq<char>) -> bool {
    r matches Expr::RawCodeExpr(rc) && rc.code@ == (CodeState { buf: text, indent: 0 }) && !rc.divergent
        && rc.node_info is NoAst
}

/// Whether `r` is a call of the C# code `callee` with the arguments `args`
/// and node `info`.
pub open spec fn is_call(r: Expr, callee: Seq<char>, args: Seq<Expr>, info: NodeInfo<AstRef>) -> bool {
    r matches Expr::CallExpr(c) && is_raw(*c.expr, callee) && c.arg_list.args@ == args
        && c.arg_list.node_info is NoAst && c.node_info == info
}

/// Whether `r` is the call of the logger at level `l` for the logging
/// macro call `f`: its key-value pairs skipped, its message as an
/// interpolated string.
pub open spec fn log_result(f: MacroCallFacts, l: LogLevel, r: Expr) -> bool {
    let e = call_elements(f);
    r matches Expr::CallExpr(c) && is_raw(*c.expr, "Logging."@ + level_text(l)) && c.arg_list.args@.len() == 1
        && c.arg_list.node_info is NoAst && c.node_info == NodeInfo::Ast(f.macro_expr) && (
    c.arg_list.args@[0] matches Expr::FormatArgsExpr(fa) && format_args_result(
        e,
        skip_kv(e, 1, f.args).unwrap(),
        f.args,
        f.macro_call,
        fa,
    ))
}

/// Whether `r` is the translation of the call: the inlined expansion; a
/// thrown panic; the list of a `vec!`; the pinned expression; the
/// interpolated string of a formatting macro, also as the argument of a
/// logging call or, in a closure, of an assertion; the check for Windows;
/// a placeholder; or the awaited joint task of `try_join!`.
pub open spec fn macro_result(f: MacroCallFacts, r: Expr) -> bool {
    let e = call_elements(f);
    let info = NodeInfo::Ast(f.macro_expr);
    match f.kind {
        MacroKind::Inline(Expansion::Stmts { statements, tail_expr }) => r == Expr::MacroStmts(
            MacroStmts { statements, tail_expr, node_info: info },
        ),
        MacroKind::Inline(Expansion::Expr(x)) => r == x,
        MacroKind::Inline(Expansion::Other) => false,
        MacroKind::Unreachable => is_raw(r, "throw new PanicException(\"unreachable\")"@),
        MacroKind::Panic => is_raw(r, "throw new PanicException(\"panic\")"@),
        MacroKind::Vec => r matches Expr::VecListExpr(v) && v.elements@ == vec_elements(e, f.args).unwrap()
            && v.node_info == info,
        MacroKind::Pin => {
            let (a, b, _) = next_expr_spec(e, 1).unwrap();
            r == expr_at(f.args, a, b).unwrap()
        },
        MacroKind::FormatArgs => r matches Expr::FormatArgsExpr(fa) && format_args_result(e, 1, f.args, f.macro_call, fa),
        MacroKind::Log(l) => log_result(f, l, r),
        MacroKind::Assert => {
            let (a, b, _) = next_expr_spec(e, 1).unwrap();
            r matches Expr::CallExpr(c) && is_raw(*c.expr, "Asserts.assert"@) && c.arg_list.args@.len() == 2
                && c.arg_list.args@[0] == expr_at(f.args, a, b).unwrap() && c.arg_list.node_info is NoAst
                && c.node_info == info && (c.arg_list.args@[1] matches Expr::ClosureExpr(cl) && !cl.async_token
                && cl.param_list.self_param is None && cl.param_list.params@.len() == 0
                && cl.param_list.node_info is NoAst && cl.node_info is NoAst && (*cl.body matches Expr::FormatArgsExpr(
                fa,
            ) && format_args_result(e, assert_message_pos(e), f.args, f.macro_call, fa)))
        },
        MacroKind::Cfg => is_call(r, "Cfg.IsWindows"@, Seq::empty(), info),
        MacroKind::LazyStatic => is_raw(r, "/* lazy_static placeholder */"@),
        MacroKind::TryJoin => r matches Expr::AwaitExpr(aw) && aw.node_info == info && is_call(
            *aw.expr,
            "RustTask.TryJoin"@,
            join_args(e, 1, f.args).unwrap(),
            NodeInfo::NoAst,
        ),
        MacroKind::Unsupported => false,
    }
}

/// C# code `text` written out, with no node.
fn raw_code(text: &str) -> (r: Expr)
    ensures
        is_raw(r, text@),
{
    let mut code = Code::new();
    code.w(text);
    Expr::RawCodeExpr(RawCodeExpr { code, divergent: false, node_info: NodeInfo::NoAst })
}

/// A call of the C# code `callee` with `args`.
fn call(callee: &str, args: Vec<Expr>, info: NodeInfo<AstRef>) -> (r: Expr)
    ensures
        is_call(r, callee@, args@, info),
{
    Expr::CallExpr(CallExpr {
        expr: Box::new(raw_code(callee)),
        arg_list: ArgList { args: ChildrenContainer::from_vec(args), node_info: NodeInfo::NoAst },
        node_info: info,
    })
}

/// Skips the `key = value;` pairs of a logging macro (see `skip_kv`).
fn skip_key_values(parser: &mut MacroParser, f: &ArgFacts)
    requires
        skip_kv(old(parser).elements@, old(parser).pos as int, *f) is Some,
        old(parser).pos <= old(parser).elements@.len(),
    ensures
        final(parser).elements@ == old(parser).elements@,
        final(parser).pos == skip_kv(old(parser).elements@, old(parser).pos as int, *f).unwrap(),
        final(parser).pos <= final(parser).elements@.len(),
{
    let ghost e = parser.elements@;
    let ghost target = skip_kv(e, parser.pos as int, *f).unwrap();
    while !is_string_at(parser)
        invariant
            e == parser.elements@,
            parser.pos <= e.len(),
            skip_kv(e, parser.pos as int, *f) == Some(target),
        decreases e.len() - parser.pos,
    {
        let ghost pos0 = parser.pos as int;
        let _ident = parser.next();
        let _eq = parser.next();
        proof {
            assert(token_at(e, pos0, TokenKind::Ident) && token_at(e, pos0 + 1, TokenKind::Eq));
            lemma_stop_index(e, pos0 + 3);
        }
        let _value = parser.next_expr();
        let semi = parser.take_token(TokenKind::Semicolon);
        assert(semi);
    }
}

/// Whether the parser is at a string literal token.
fn is_string_at(parser: &MacroParser) -> (r: bool)
    ensures
        r == token_at(parser.elements@, parser.pos as int, TokenKind::StringLit),
{
    if parser.pos < parser.elements.len() {
        match &parser.elements[parser.pos] {
            TokenTreeElement::Token { kind, .. } => *kind == TokenKind::StringLit,
            TokenTreeElement::Node { .. } => false,
        }
    } else {
        false
    }
}

/// Reads the further elements of a `vec!` list (see `list_rest`).
fn read_list_rest(parser: &mut MacroParser, f: &ArgFacts, out: &mut Vec<Expr>)
    requires
        list_rest(old(parser).elements@, old(parser).pos as int, *f) is Some,
        old(parser).pos <= old(parser).elements@.len(),
    ensures
        final(parser).elements@ == old(parser).elements@,
        final(out)@ == old(out)@ + list_rest(old(parser).elements@, old(parser).pos as int, *f).unwrap(),
{
    let ghost e = parser.elements@;
    let ghost total = old(out)@ + list_rest(e, parser.pos as int, *f).unwrap();
    let mut done = false;
    while !done
        invariant
            e == parser.elements@,
            parser.pos <= e.len(),
            !done ==> (list_rest(e, parser.pos as int, *f) matches Some(xs) && total == out@ + xs),
            done ==> total == out@,
        decreases (if done { 0int } else { 1int }) + 2 * (e.len() - parser.pos),
    {
        let ghost pos0 = parser.pos as int;
        if !parser.take_token(TokenKind::Comma) {
            assert(out@ + Seq::<Expr>::empty() =~= out@);
            done = true;
        } else {
            proof {
                if pos0 + 1 < e.len() {
                    lemma_stop_index(e, pos0 + 2);
                }
            }
            match parser.next_expr() {
                Some((a, b)) => {
                    let x = lower(f, a, b);
                    let ghost before = out@;
                    out.push(x);
                    assert(before + list_rest(e, pos0, *f).unwrap() =~= out@ + list_rest(e, parser.pos as int, *f).unwrap());
                },
                None => {
                    assert(out@ + Seq::<Expr>::empty() =~= out@);
                    done = true;
                },
            }
        }
    }
}

/// Reads the arguments of a `try_join!` call (see `join_args`).
fn read_join_args(parser: &mut MacroParser, f: &ArgFacts) -> (r: Vec<Expr>)
    requires
        join_args(old(parser).elements@, old(parser).pos as int, *f) is Some,
        old(parser).pos <= old(parser).elements@.len(),
    ensures
        r@ == join_args(old(parser).elements@, old(parser).pos as int, *f).unwrap(),
{
    let ghost e = parser.elements@;
    let ghost total = join_args(e, parser.pos as int, *f).unwrap();
    let mut exprs: Vec<Expr> = Vec::new();
    assert(exprs@ + total =~= total);
    while !parser.is_end()
        invariant
            e == parser.elements@,
            parser.pos <= e.len(),
            join_args(e, parser.pos as int, *f) matches Some(xs) && total == exprs@ + xs,
        decreases e.len() - parser.pos,
    {
        let ghost pos0 = parser.pos as int;
        proof {
            lemma_stop_index(e, pos0 + 1);
        }
        match parser.next_expr() {
            Some((a, b)) => {
                let x = lower(f, a, b);
                let ghost before = exprs@;
                let ghost p = parser.pos as int;
                exprs.push(x);
                if !parser.take_token(TokenKind::Comma) {
                    assert(at_end(e, p));
                    assert(join_args(e, p, *f) == Some(Seq::<Expr>::empty()));
                    assert(exprs@ + Seq::<Expr>::empty() =~= before + join_args(e, pos0, *f).unwrap());
                } else {
                    assert(exprs@ + join_args(e, p + 1, *f).unwrap() =~= before + join_args(e, pos0, *f).unwrap());
                }
            },
            None => {
                proof {
                    assert(false);
                }
            },
        }
    }
    assert(join_args(e, parser.pos as int, *f) == Some(Seq::<Expr>::empty()));
    assert(exprs@ + Seq::<Expr>::empty() =~= exprs@);
    exprs
}

/// The call of the logger at `level` for the logging macro call `f` (see
/// `log_result`).
fn log_macro(level: LogLevel, f: &MacroCallFacts) -> (r: Expr)
    requires
        readable(*f),
        skip_kv(call_elements(*f), 1, f.args) matches Some(p) && format_args_ok(call_elements(*f), p, f.args),
    ensures
        log_result(*f, level, r),
{
    let mut parser = MacroParser::new(&f.tokens);
    skip_key_values(&mut parser, &f.args);
    let fa = parse_rest_as_format_args(&mut parser, &f.args, f.macro_call);
    let callee = match level {
        LogLevel::Trace => "Logging.trace",
        LogLevel::Debug => "Logging.debug",
        LogLevel::Info => "Logging.info",
        LogLevel::Warn => "Logging.warn",
        LogLevel::Error => "Logging.error",
    };
    proof {
        reveal_strlit("Logging.");
        reveal_strlit("Logging.trace");
        reveal_strlit("Logging.debug");
        reveal_strlit("Logging.info");
        reveal_strlit("Logging.warn");
        reveal_strlit("Logging.error");
        reveal_strlit("trace");
        reveal_strlit("debug");
        reveal_strlit("info");
        reveal_strlit("warn");
        reveal_strlit("error");
        assert(callee@ =~= "Logging."@ + level_text(level));
    }
    call(callee, vec![Expr::FormatArgsExpr(fa)], NodeInfo::Ast(f.macro_expr))
}

/// The expression that stands for a macro call (see `macro_result`).
#[verifier::rlimit(50)]
pub fn emit_expr_macro(f: &MacroCallFacts) -> (r: Expr)
    requires
        macro_ok(*f),
    ensures
        macro_result(*f, r),
{
    let info = NodeInfo::Ast(f.macro_expr);
    match &f.kind {
        MacroKind::Inline(x) => match x {
            Expansion::Stmts { statements, tail_expr } => {
                let tail = match tail_expr {
                    Some(t) => Some(Box::new(clone_expr(&**t))),
                    None => None,
                };
                Expr::MacroStmts(MacroStmts { statements: clone_stmts(statements), tail_expr: tail, node_info: info })
            },
            Expansion::Expr(e) => clone_expr(e),
            Expansion::Other => {
                proof {
                    assert(false);
                }
                raw_code("")
            },
        },
        MacroKind::Unreachable => raw_code("throw new PanicException(\"unreachable\")"),
        MacroKind::Panic => raw_code("throw new PanicException(\"panic\")"),
        MacroKind::Vec => {
            let mut parser = MacroParser::new(&f.tokens);
            let ghost e = parser.elements@;
            proof {
                if e.len() >= 2 {
                    lemma_stop_index(e, 2);
                }
            }
            match parser.next_expr() {
                Some((a, b)) => {
                    if parser.take_token(TokenKind::Semicolon) {
                        proof {
                            assert(false);
                        }
                        raw_code("")
                    } else if parser.take_token(TokenKind::Comma) || parser.is_end() {
                        let mut args: Vec<Expr> = Vec::new();
                        args.push(lower(&f.args, a, b));
                        read_list_rest(&mut parser, &f.args, &mut args);
                        Expr::VecListExpr(VecListExpr { elements: ChildrenContainer::from_vec(args), node_info: info })
                    } else {
                        proof {
                            assert(false);
                        }
                        raw_code("")
                    }
                },
                None => Expr::VecListExpr(VecListExpr { elements: ChildrenContainer::new(), node_info: info }),
            }
        },
        MacroKind::Pin => {
            let mut parser = MacroParser::new(&f.tokens);
            match parser.next_expr() {
                Some((a, b)) => lower(&f.args, a, b),
                None => {
                    proof {
                        assert(false);
                    }
                    raw_code("")
                },
            }
        },
        MacroKind::FormatArgs => {
            let mut parser = MacroParser::new(&f.tokens);
            Expr::FormatArgsExpr(parse_rest_as_format_args(&mut parser, &f.args, f.macro_call))
        },
        MacroKind::Log(level) => log_macro(*level, f),
        MacroKind::Assert => {
            let mut parser = MacroParser::new(&f.tokens);
            let ghost e = parser.elements@;
            proof {
                if e.len() >= 2 {
                    lemma_stop_index(e, 2);
                }
            }
            let (a, b) = match parser.next_expr() {
                Some(span) => span,
                None => {
                    proof {
                        assert(false);
                    }
                    (0, 0)
                },
            };
            let condition = lower(&f.args, a, b);
            parser.take_token(TokenKind::Comma);
            let message = parse_rest_as_format_args(&mut parser, &f.args, f.macro_call);
            let closure = Expr::ClosureExpr(ClosureExpr {
                async_token: false,
                param_list: ParamList { self_param: None, params: ChildrenContainer::new(), node_info: NodeInfo::NoAst },
                body: Box::new(Expr::FormatArgsExpr(message)),
                node_info: NodeInfo::NoAst,
            });
            call("Asserts.assert", vec![condition, closure], info)
        },
        MacroKind::Cfg => call("Cfg.IsWindows", Vec::new(), info),
        MacroKind::LazyStatic => raw_code("/* lazy_static placeholder */"),
        MacroKind::TryJoin => {
            let mut parser = MacroParser::new(&f.tokens);
            let exprs = read_join_args(&mut parser, &f.args);
            let joined = call("RustTask.TryJoin", exprs, NodeInfo::NoAst);
            Expr::AwaitExpr(AwaitExpr { expr: Box::new(joined), node_info: info })
        },
        MacroKind::Unsupported => {
            proof {
                assert(false);
            }
            raw_code("")
        },
    }
}

} // verus!
