//! Indented C# code output buffer.
//!
//! Indentation changes are recorded in the buffer as control characters
//! right after a newline and turned into leading spaces by `finish`.

use vstd::prelude::*;
use crate::text::{chars_of, decimal, ends_with, push_char, push_decimal, push_str};
use crate::writer::indentation;

verus! {

/// The control character that marks one more indentation step.
pub open spec fn inc_indent() -> char {
    '\u{11}'
}

/// The control character that marks one less indentation step.
pub open spec fn dec_indent() -> char {
    '\u{12}'
}

/// Whether `c` is one of the two indentation marks.
pub open spec fn is_special(c: char) -> bool {
    c == inc_indent() || c == dec_indent()
}

/// The last character of `s` that is not an indentation mark.
pub open spec fn last_non_special(s: Seq<char>) -> Option<char>
    decreases s.len(),
{
    if s.len() == 0 {
        None
    } else if !is_special(s.last()) {
        Some(s.last())
    } else {
        last_non_special(s.drop_last())
    }
}

/// Whether an indentation mark may be written after `s`: the last character
/// that is not itself a mark is a newline.
pub open spec fn at_line_boundary(s: Seq<char>) -> bool {
    last_non_special(s) == Some('\n')
}

/// What a `Code` holds: the buffer with its marks, and the indentation level.
pub struct CodeState {
    pub buf: Seq<char>,
    pub indent: nat,
}

impl CodeState {
    /// The state after appending `t` to the buffer.
    pub open spec fn push_text(self, t: Seq<char>) -> CodeState {
        CodeState { buf: self.buf + t, indent: self.indent }
    }
}

/// The state after `blank_line`.
pub open spec fn blank_line_spec(st: CodeState) -> CodeState {
    if "\n\n"@.is_suffix_of(st.buf) {
        st
    } else {
        st.push_text(seq!['\n'])
    }
}

/// After a line break, a second blank line changes nothing: `blank_line`
/// never produces two blank lines in a row.
pub proof fn lemma_blank_line_idempotent(st: CodeState)
    requires
        st.buf.len() > 0,
        st.buf.last() == '\n',
    ensures
        blank_line_spec(blank_line_spec(st)) == blank_line_spec(st),
{
    reveal_strlit("\n\n");
    let once = blank_line_spec(st);
    assert("\n\n"@.is_suffix_of(once.buf)) by {
        if !"\n\n"@.is_suffix_of(st.buf) {
            assert(once.buf =~= st.buf.push('\n'));
            assert(once.buf.subrange(once.buf.len() - 2, once.buf.len() as int) =~= "\n\n"@);
        }
    }
}

/// Whether `s` holds no indentation mark.
pub open spec fn no_marks(s: Seq<char>) -> bool {
    forall|i: int| 0 <= i < s.len() ==> !is_special(#[trigger] s[i])
}

/// Code written without indentation marks finishes as it was written, with
/// a newline added at the end if it lacked one.
pub proof fn lemma_render_unindented(s: Seq<char>)
    requires
        no_marks(s),
    ensures
        render(s, 0) == (if s.len() == 0 || s.last() == '\n' { s } else { s.push('\n') }),
    decreases s.len(),
{
    if s.len() > 0 {
        lemma_newline_index_bound(s);
        let j = newline_index(s);
        let line = s.take(j as int);
        assert(indent_prefix(0) =~= Seq::<char>::empty());
        if j < s.len() {
            let rest = s.skip(j as int + 1);
            assert(render(s, 0) =~= line + seq!['\n'] + render_marks(rest, 0));
            assert(no_marks(rest)) by {
                assert forall|i: int| 0 <= i < rest.len() implies !is_special(#[trigger] rest[i]) by {
                    assert(rest[i] == s[i + j + 1]);
                }
            }
            if rest.len() > 0 {
                assert(!is_special(rest[0]));
            }
            assert(render_marks(rest, 0) == render(rest, 0));
            lemma_render_unindented(rest);
            assert(s =~= line + seq!['\n'] + rest);
            if rest.len() > 0 {
                assert(rest.last() == s.last());
                assert((line + seq!['\n'] + rest).push('\n') =~= line + seq!['\n'] + rest.push('\n'));
            }
        } else {
            assert(line =~= s);
            assert(s.last() != '\n');
            assert(render(Seq::<char>::empty(), 0) =~= Seq::<char>::empty());
            assert(render_marks(Seq::<char>::empty(), 0) =~= Seq::<char>::empty());
            assert(render(s, 0) =~= line + seq!['\n']);
        }
    }
}

/// Indented C# code output buffer.
#[derive(PartialEq, Eq)]
pub struct Code {
    buf: String,
    indent: usize,
}

impl View for Code {
    type V = CodeState;

    closed spec fn view(&self) -> CodeState {
        CodeState { buf: self.buf@, indent: self.indent as nat }
    }
}

/// The index of the first newline in `s`, or its length if it has none.
pub open spec fn newline_index(s: Seq<char>) -> nat
    decreases s.len(),
{
    if s.len() == 0 {
        0
    } else if s[0] == '\n' {
        0
    } else {
        1 + newline_index(s.drop_first())
    }
}

pub proof fn lemma_newline_index_bound(s: Seq<char>)
    ensures
        newline_index(s) <= s.len(),
        newline_index(s) < s.len() ==> s[newline_index(s) as int] == '\n',
        forall|k: int| 0 <= k < newline_index(s) ==> s[k] != '\n',
    decreases s.len(),
{
    if s.len() > 0 && s[0] != '\n' {
        lemma_newline_index_bound(s.drop_first());
        assert forall|k: int| 0 <= k < newline_index(s) implies s[k] != '\n' by {
            if k > 0 {
                assert(s[k] == s.drop_first()[k - 1]);
            }
        }
    }
}

proof fn lemma_newline_index_at(s: Seq<char>, k: nat)
    requires
        k <= s.len(),
        forall|j: int| 0 <= j < k ==> s[j] != '\n',
        k == s.len() || s[k as int] == '\n',
    ensures
        newline_index(s) == k,
    decreases k,
{
    if k > 0 {
        assert forall|j: int| 0 <= j < k - 1 implies s.drop_first()[j] != '\n' by {
            assert(s.drop_first()[j] == s[j + 1]);
        }
        lemma_newline_index_at(s.drop_first(), (k - 1) as nat);
    }
}

/// The change of indentation that mark `c` stands for.
pub open spec fn mark_delta(c: char) -> int {
    if c == inc_indent() { 1 } else { -1 }
}

/// The indentation prefix for a line at `level`; none for a level below one.
pub open spec fn indent_prefix(level: int) -> Seq<char> {
    if level > 0 { indentation(level as nat) } else { Seq::empty() }
}

/// The rendering of `s` as it stands after a line break: leading marks
/// change the level, then the rest is rendered.
pub open spec fn render_marks(s: Seq<char>, level: int) -> Seq<char>
    decreases s.len(), 1nat,
{
    if s.len() > 0 && is_special(s[0]) {
        render_marks(s.drop_first(), level + mark_delta(s[0]))
    } else {
        render(s, level)
    }
}

/// The rendering of buffer text `s` at indentation `level`: each line is
/// written with four spaces per level before it (an empty line gets none)
/// and ends with a newline; the marks right after a line break change the
/// level for the following lines.
pub open spec fn render(s: Seq<char>, level: int) -> Seq<char>
    decreases s.len(), 0nat,
{
    if s.len() == 0 {
        Seq::empty()
    } else {
        let j = newline_index(s);
        proof {
            lemma_newline_index_bound(s);
        }
        let line = s.take(j as int);
        let rest = if j < s.len() { s.skip(j as int + 1) } else { Seq::empty() };
        (if line.len() > 0 { indent_prefix(level) } else { Seq::empty() }) + line + seq!['\n']
            + render_marks(rest, level)
    }
}

impl Code {
    fn special(c: &char) -> (b: bool)
        ensures
            b == is_special(*c),
    {
        *c == '\u{11}' || *c == '\u{12}'
    }

    pub fn new() -> (r: Self)
        ensures
            r@ == (CodeState { buf: Seq::empty(), indent: 0 }),
    {
        Code { buf: String::new(), indent: 0 }
    }

    pub fn is_empty(&self) -> (b: bool)
        ensures
            b == (self@.buf.len() == 0),
    {
        self.buf.as_str().is_empty()
    }

    /// Write a string without a newline.
    pub fn w<T: WriteToCode>(&mut self, s: T) -> (r: &mut Self)
        requires
            s.code_ok(),
        ensures
            r@ == old(self)@.push_text(s.code_text()),
            *final(self) == *final(r),
    {
        s.append(self);
        self
    }

    /// Write a value and a newline.
    pub fn wln<T: WriteToCode>(&mut self, s: T) -> (r: &mut Self)
        requires
            s.code_ok(),
        ensures
            r@ == old(self)@.push_text(s.code_text() + "\n"@),
            *final(self) == *final(r),
    {
        s.append(self);
        push_str(&mut self.buf, "\n");
        assert(self@.buf =~= old(self)@.buf + (s.code_text() + "\n"@));
        self
    }

    fn write_str(&mut self, s: &str) -> (r: &mut Self)
        ensures
            r@ == old(self)@.push_text(s@),
            *final(self) == *final(r),
    {
        push_str(&mut self.buf, s);
        self
    }

    fn write_inner(&mut self, s: &Self) -> (r: &mut Self)
        requires
            s@.indent == 0,
        ensures
            r@ == old(self)@.push_text(s@.buf),
            *final(self) == *final(r),
    {
        push_str(&mut self.buf, s.buf.as_str());
        self
    }

    /// Mark one more indentation step for the following lines. Only at the
    /// start of a line: the last character other than a mark is a newline.
    pub fn indent(&mut self)
        requires
            at_line_boundary(old(self)@.buf),
            old(self)@.indent < usize::MAX,
        ensures
            final(self)@ == (CodeState { buf: old(self)@.buf.push(inc_indent()), indent: old(self)@.indent + 1 }),
    {
        push_char(&mut self.buf, '\u{11}');
        self.indent = self.indent + 1;
    }

    /// Mark one less indentation step for the following lines. Only at the
    /// start of a line: the last character other than a mark is a newline.
    pub fn dedent(&mut self)
        requires
            at_line_boundary(old(self)@.buf),
        ensures
            final(self)@ == (CodeState {
                buf: old(self)@.buf.push(dec_indent()),
                indent: if old(self)@.indent > 0 { (old(self)@.indent - 1) as nat } else { 0 },
            }),
    {
        push_char(&mut self.buf, '\u{12}');
        if self.indent > 0 {
            self.indent = self.indent - 1;
        }
    }

    /// Start a blank line, unless the buffer already ends with one: never
    /// two blank lines in a row.
    pub fn blank_line(&mut self)
        ensures
            final(self)@ == blank_line_spec(old(self)@),
    {
        if !ends_with(self.buf.as_str(), "\n\n") {
            push_char(&mut self.buf, '\n');
            assert(self@.buf =~= old(self)@.buf + seq!['\n']);
        }
    }

    /// Write `{` on its own line and indent the following lines.
    pub fn open_brace(&mut self)
        requires
            old(self)@.indent < usize::MAX,
        ensures
            final(self)@ == (CodeState {
                buf: old(self)@.buf + "{\n"@ + seq![inc_indent()],
                indent: old(self)@.indent + 1,
            }),
    {
        self.wln("{");
        proof {
            reveal_strlit("{");
            reveal_strlit("\n");
            reveal_strlit("{\n");
            assert(self@.buf.last() == '\n');
        }
        self.indent();
        assert(self@.buf =~= old(self)@.buf + "{\n"@ + seq![inc_indent()]);
    }

    /// Dedent and write `}` on its own line. Only at the start of a line.
    pub fn close_brace(&mut self)
        requires
            at_line_boundary(old(self)@.buf),
        ensures
            final(self)@ == (CodeState {
                buf: old(self)@.buf + seq![dec_indent()] + "}\n"@,
                indent: if old(self)@.indent > 0 { (old(self)@.indent - 1) as nat } else { 0 },
            }),
    {
        self.dedent();
        self.wln("}");
        proof {
            reveal_strlit("}");
            reveal_strlit("\n");
            reveal_strlit("}\n");
        }
        assert(self@.buf =~= old(self)@.buf + seq![dec_indent()] + "}\n"@);
    }

    /// The code with its marks turned into indentation.
    pub fn finish(self) -> (r: String)
        ensures
            r@ == render(self@.buf, 0),
    {
        let cs = chars_of(self.buf.as_str());
        let n = cs.len();
        let mut result = String::new();
        let mut level: i128 = 0;
        let mut i: usize = 0;
        assert(cs@.skip(0) =~= cs@);
        while i < n
            invariant
                n == cs@.len(),
                cs@ == self@.buf,
                i <= n,
                -(i as int) <= level <= i as int,
                result@ + render(cs@.skip(i as int), level as int) == render(self@.buf, 0),
            decreases n - i,
        {
            let ghost s = cs@.skip(i as int);
            let ghost i_start = i;
            // The line: up to the next newline.
            let mut j = i;
            while j < n && cs[j] != '\n'
                invariant
                    i <= j <= n,
                    n == cs@.len(),
                    forall|k: int| i <= k < j ==> cs@[k] != '\n',
                decreases n - j,
            {
                j = j + 1;
            }
            proof {
                assert forall|k: int| 0 <= k < j - i implies s[k] != '\n' by {
                    assert(s[k] == cs@[i + k]);
                }
                lemma_newline_index_at(s, (j - i) as nat);
            }
            let ghost line = s.take((j - i) as int);
            let ghost rest = if j - i < s.len() { s.skip(j - i + 1) } else { Seq::<char>::empty() };
            let ghost before = result@;
            if j > i && level > 0 {
                let mut k: i128 = 0;
                while k < level
                    invariant
                        0 <= k <= level,
                        result@ == before + indentation(k as nat),
                    decreases level - k,
                {
                    push_str(&mut result, "    ");
                    k = k + 1;
                }
            }
            crate::text::push_chars(&mut result, cs.as_slice(), i, j);
            push_char(&mut result, '\n');
            assert(cs@.subrange(i as int, j as int) =~= line);
            assert(result@ =~= before + ((if line.len() > 0 { indent_prefix(level as int) } else { Seq::empty() }) + line + seq!['\n']));
            if j < n {
                i = j + 1;
                assert(rest =~= cs@.skip(i as int));
            } else {
                i = n;
                assert(rest =~= cs@.skip(i as int));
            }
            // The marks after the line break.
            while i < n && Self::special(&cs[i])
                invariant
                    i <= n,
                    i_start < i,
                    n == cs@.len(),
                    -(i as int) <= level <= i as int,
                    result@ + render_marks(cs@.skip(i as int), level as int) == render(self@.buf, 0),
                decreases n - i,
            {
                assert(cs@.skip(i as int).drop_first() =~= cs@.skip(i + 1));
                if cs[i] == '\u{11}' {
                    level = level + 1;
                } else {
                    level = level - 1;
                }
                i = i + 1;
            }
        }
        assert(cs@.skip(i as int) =~= Seq::<char>::empty());
        assert(result@ =~= render(self@.buf, 0));
        result
    }
}

/// Formatting arguments of `format_args!` (`core::fmt::Arguments`).
#[verifier::external_type_specification]
#[verifier::external_body]
pub struct ExArguments<'a>(core::fmt::Arguments<'a>);

impl Code {
    /// Write formatted text through `String`'s `std::fmt::Write::write_fmt`,
    /// and hand back its result, an error where a formatting impl of the
    /// arguments reports one. What is appended is what the arguments'
    /// `Display` and `Debug` impls produce, of which nothing is stated here;
    /// on either outcome the buffer only grows (on an error by what was
    /// written before it) and the indentation level stays.
    #[verifier::external_body]
    pub fn write_fmt(&mut self, args: core::fmt::Arguments<'_>) -> (r: core::fmt::Result)
        ensures
            old(self)@.buf.is_prefix_of(final(self)@.buf),
            final(self)@.indent == old(self)@.indent,
    {
        std::fmt::Write::write_fmt(&mut self.buf, args)
    }
}

/// The error of a formatting operation (`core::fmt::Error`).
#[verifier::external_type_specification]
#[verifier::external_body]
pub struct ExFmtError(core::fmt::Error);

impl std::fmt::Write for Code {
    fn write_str(&mut self, s: &str) -> std::fmt::Result {
        self.w(s);
        Ok(())
    }
}

/// A value that can be written into a `Code` buffer.
pub trait WriteToCode {
    /// The text that appending the value adds to the buffer.
    spec fn code_text(&self) -> Seq<char>;

    /// Whether the value can be appended.
    spec fn code_ok(&self) -> bool;

    fn append(&self, out: &mut Code)
        requires
            self.code_ok(),
        ensures
            final(out)@ == old(out)@.push_text(self.code_text());
}

impl WriteToCode for str {
    open spec fn code_text(&self) -> Seq<char> {
        self@
    }

    open spec fn code_ok(&self) -> bool {
        true
    }

    fn append(&self, out: &mut Code) {
        out.write_str(self);
    }
}

impl<'a, T: WriteToCode + ?Sized> WriteToCode for &'a T {
    open spec fn code_text(&self) -> Seq<char> {
        (**self).code_text()
    }

    open spec fn code_ok(&self) -> bool {
        (**self).code_ok()
    }

    fn append(&self, out: &mut Code) {
        (**self).append(out);
    }
}

impl<T: WriteToCode> WriteToCode for Option<T> {
    open spec fn code_text(&self) -> Seq<char> {
        match self {
            Some(value) => value.code_text(),
            None => Seq::empty(),
        }
    }

    open spec fn code_ok(&self) -> bool {
        match self {
            Some(value) => value.code_ok(),
            None => true,
        }
    }

    fn append(&self, out: &mut Code) {
        if let Some(value) = self {
            value.append(out);
        }
    }
}

impl WriteToCode for String {
    open spec fn code_text(&self) -> Seq<char> {
        self@
    }

    open spec fn code_ok(&self) -> bool {
        true
    }

    fn append(&self, out: &mut Code) {
        out.write_str(self.as_str());
    }
}

impl WriteToCode for char {
    open spec fn code_text(&self) -> Seq<char> {
        seq![*self]
    }

    open spec fn code_ok(&self) -> bool {
        true
    }

    fn append(&self, out: &mut Code) {
        push_char(&mut out.buf, *self);
        assert(out@.buf =~= old(out)@.buf + seq![*self]);
    }
}

impl WriteToCode for Code {
    open spec fn code_text(&self) -> Seq<char> {
        self@.buf
    }

    /// A code with open indentation cannot be embedded.
    open spec fn code_ok(&self) -> bool {
        self@.indent == 0
    }

    fn append(&self, out: &mut Code) {
        out.write_inner(self);
    }
}

impl WriteToCode for u8 {
    open spec fn code_text(&self) -> Seq<char> {
        decimal(*self as nat)
    }

    open spec fn code_ok(&self) -> bool {
        true
    }

    fn append(&self, out: &mut Code) {
        push_decimal(&mut out.buf, *self as u128);
    }
}

impl WriteToCode for u16 {
    open spec fn code_text(&self) -> Seq<char> {
        decimal(*self as nat)
    }

    open spec fn code_ok(&self) -> bool {
        true
    }

    fn append(&self, out: &mut Code) {
        push_decimal(&mut out.buf, *self as u128);
    }
}

impl WriteToCode for u32 {
    open spec fn code_text(&self) -> Seq<char> {
        decimal(*self as nat)
    }

    open spec fn code_ok(&self) -> bool {
        true
    }

    fn append(&self, out: &mut Code) {
        push_decimal(&mut out.buf, *self as u128);
    }
}

impl WriteToCode for u64 {
    open spec fn code_text(&self) -> Seq<char> {
        decimal(*self as nat)
    }

    open spec fn code_ok(&self) -> bool {
        true
    }

    fn append(&self, out: &mut Code) {
        push_decimal(&mut out.buf, *self as u128);
    }
}

impl WriteToCode for usize {
    open spec fn code_text(&self) -> Seq<char> {
        decimal(*self as nat)
    }

    open spec fn code_ok(&self) -> bool {
        true
    }

    fn append(&self, out: &mut Code) {
        push_decimal(&mut out.buf, *self as u128);
    }
}

impl Clone for Code {
    fn clone(&self) -> (r: Self)
        ensures
            r@ == self@,
            r == *self,
    {
        Code { buf: self.buf.clone(), indent: self.indent }
    }
}

impl Default for Code {
    fn default() -> (r: Self)
        ensures
            r@ == (CodeState { buf: Seq::empty(), indent: 0 }),
    {
        Code::new()
    }
}

impl<'a> From<&'a str> for Code {
    fn from(value: &'a str) -> (r: Self)
        ensures
            r@ == (CodeState { buf: value@, indent: 0 }),
    {
        let mut result = Code::new();
        result.w(value);
        result
    }
}

impl<'a> vstd::std_specs::convert::FromSpecImpl<&'a str> for Code {
    /// A `Code` value is described by its view alone, so no value-level
    /// conversion is claimed; `from` states the view it produces.
    open spec fn obeys_from_spec() -> bool {
        false
    }

    open spec fn from_spec(v: &'a str) -> Code {
        arbitrary()
    }
}

impl vstd::std_specs::convert::FromSpecImpl<String> for Code {
    /// A `Code` value is described by its view alone, so no value-level
    /// conversion is claimed; `from` states the view it produces.
    open spec fn obeys_from_spec() -> bool {
        false
    }

    open spec fn from_spec(v: String) -> Code {
        arbitrary()
    }
}

impl From<String> for Code {
    fn from(value: String) -> (r: Self)
        ensures
            r@ == (CodeState { buf: value@, indent: 0 }),
    {
        let mut result = Code::new();
        result.w(&value);
        result
    }
}

} // verus!
