//! A simple indented C# source-code writer.
//!
//! All generated code goes through `CsWriter` so that indentation is always
//! consistent and the caller never has to manage whitespace manually.

use vstd::prelude::*;
use crate::text::{lines, lines_spec, push_char, push_str, views};

verus! {

/// The indentation of `level` steps, four spaces each.
pub open spec fn indentation(level: nat) -> Seq<char>
    decreases level,
{
    if level == 0 {
        Seq::empty()
    } else {
        indentation((level - 1) as nat) + "    "@
    }
}

/// What a `CsWriter` holds: the text written so far, the indentation level,
/// and whether nothing has been written since the last newline.
pub struct WriterState {
    pub text: Seq<char>,
    pub level: nat,
    pub at_line_start: bool,
}

impl WriterState {
    /// The state after writing `t` without newline: the indentation is
    /// written first when `t` starts a line; an empty `t` changes nothing.
    pub open spec fn write(self, t: Seq<char>) -> WriterState {
        if t.len() == 0 {
            self
        } else {
            WriterState {
                text: self.text + (if self.at_line_start { indentation(self.level) } else { Seq::empty() }) + t,
                level: self.level,
                at_line_start: false,
            }
        }
    }

    /// The state after a newline.
    pub open spec fn newline(self) -> WriterState {
        WriterState { text: self.text.push('\n'), level: self.level, at_line_start: true }
    }

    /// The state after writing `t` and a newline.
    pub open spec fn write_line(self, t: Seq<char>) -> WriterState {
        self.write(t).newline()
    }

    /// The state after writing each of `ls` as a line, prefixed with `prefix`.
    pub open spec fn write_lines(self, prefix: Seq<char>, ls: Seq<Seq<char>>) -> WriterState
        decreases ls.len(),
    {
        if ls.len() == 0 {
            self
        } else {
            self.write_line(prefix + ls[0]).write_lines(prefix, ls.drop_first())
        }
    }

    /// The state one indentation step deeper.
    pub open spec fn indent(self) -> WriterState {
        WriterState { level: self.level + 1, ..self }
    }

    /// The state one indentation step shallower.
    pub open spec fn dedent(self) -> WriterState {
        WriterState { level: (self.level - 1) as nat, ..self }
    }
}

/// Writing `a` and then `b` without newline is writing `a + b`: the
/// indentation is written once, before the first character of the line.
pub proof fn lemma_write_concat(st: WriterState, a: Seq<char>, b: Seq<char>)
    ensures
        st.write(a).write(b) == st.write(a + b),
{
    if a.len() == 0 {
        assert(a + b =~= b);
    } else if b.len() == 0 {
        assert(a + b =~= a);
    } else {
        let i = if st.at_line_start { indentation(st.level) } else { Seq::empty() };
        assert(st.text + i + a + b =~= st.text + i + (a + b));
    }
}

/// The writer only appends: every operation keeps what was written before
/// as a prefix of the text.
pub proof fn lemma_text_only_grows(st: WriterState, t: Seq<char>)
    ensures
        st.text.is_prefix_of(st.write(t).text),
        st.text.is_prefix_of(st.newline().text),
        st.text.is_prefix_of(st.write_line(t).text),
        st.indent().text == st.text,
        st.dedent().text == st.text,
{
    let w = st.write(t);
    assert(st.text.is_prefix_of(w.text)) by {
        if t.len() > 0 {
            let i = if st.at_line_start { indentation(st.level) } else { Seq::empty() };
            assert(w.text =~= st.text + (i + t));
        }
    }
    assert(w.text.is_prefix_of(w.newline().text));
    assert(st.text.is_prefix_of(st.newline().text));
}

/// A brace pair restores the indentation level, and a line written between
/// the braces stands one level deeper.
pub proof fn lemma_braces_balance(st: WriterState, line: Seq<char>)
    requires
        st.at_line_start,
        line.len() > 0,
    ensures
        st.write_line("{"@).indent().write_line(line).dedent().write_line("}"@).level == st.level,
        st.write_line("{"@).indent().write_line(line).dedent().write_line("}"@).text
            == st.text + indentation(st.level) + "{"@ + seq!['\n']
                + indentation(st.level + 1) + line + seq!['\n']
                + indentation(st.level) + "}"@ + seq!['\n'],
{
    reveal_strlit("{");
    reveal_strlit("}");
    let s1 = st.write_line("{"@);
    let s2 = s1.indent().write_line(line);
    let s3 = s2.dedent().write_line("}"@);
    assert(s1.text =~= st.text + indentation(st.level) + "{"@ + seq!['\n']);
    assert(s2.text =~= s1.text + indentation(st.level + 1) + line + seq!['\n']);
    assert(s3.text =~= s2.text + indentation(st.level) + "}"@ + seq!['\n']);
}

/// A writer of C# source text with an indentation level.
pub struct CsWriter {
    output: String,
    indent_level: usize,
    /// True when the current line is empty (nothing has been written since
    /// the last newline); the indentation prefix is then written lazily.
    at_line_start: bool,
}

impl View for CsWriter {
    type V = WriterState;

    closed spec fn view(&self) -> WriterState {
        WriterState {
            text: self.output@,
            level: self.indent_level as nat,
            at_line_start: self.at_line_start,
        }
    }
}

impl CsWriter {
    /// Create a new writer with 4-space indentation.
    pub fn new() -> (w: Self)
        ensures
            w@ == (WriterState { text: Seq::empty(), level: 0, at_line_start: true }),
    {
        CsWriter { output: String::new(), indent_level: 0, at_line_start: true }
    }

    /// Increase the indentation level by one step.
    pub fn indent(&mut self)
        requires
            old(self)@.level < usize::MAX,
        ensures
            final(self)@ == old(self)@.indent(),
    {
        self.indent_level = self.indent_level + 1;
    }

    /// Decrease the indentation level by one step. There must be one to
    /// remove: `dedent()` may not be called more times than `indent()`.
    pub fn dedent(&mut self)
        requires
            old(self)@.level > 0,
        ensures
            final(self)@ == old(self)@.dedent(),
    {
        self.indent_level = self.indent_level - 1;
    }

    /// Write `text` directly (no trailing newline); the indentation comes
    /// first when `text` starts a line.
    pub fn write(&mut self, text: &str)
        ensures
            final(self)@ == old(self)@.write(text@),
    {
        if text.is_empty() {
            return;
        }
        if self.at_line_start {
            let mut i: usize = 0;
            while i < self.indent_level
                invariant
                    i <= self.indent_level,
                    self.indent_level == old(self).indent_level,
                    self.at_line_start == old(self).at_line_start,
                    self.output@ == old(self).output@ + indentation(i as nat),
                decreases self.indent_level - i,
            {
                push_str(&mut self.output, "    ");
                i = i + 1;
            }
            self.at_line_start = false;
        }
        push_str(&mut self.output, text);
    }

    /// Write `line` followed by a newline.
    pub fn write_line(&mut self, line: &str)
        ensures
            final(self)@ == old(self)@.write_line(line@),
    {
        self.write(line);
        push_char(&mut self.output, '\n');
        self.at_line_start = true;
    }

    /// Write an empty line (just a newline).
    pub fn blank_line(&mut self)
        ensures
            final(self)@ == old(self)@.newline(),
    {
        push_char(&mut self.output, '\n');
        self.at_line_start = true;
    }

    /// Write `{` on its own line and increase indentation.
    pub fn open_brace(&mut self)
        requires
            old(self)@.level < usize::MAX,
        ensures
            final(self)@ == old(self)@.write_line("{"@).indent(),
    {
        self.write_line("{");
        self.indent();
    }

    /// Decrease indentation and write `}` on its own line.
    pub fn close_brace(&mut self)
        requires
            old(self)@.level > 0,
        ensures
            final(self)@ == old(self)@.dedent().write_line("}"@),
    {
        self.dedent();
        self.write_line("}");
    }

    /// Write a single-line comment: `// ` and `comment`.
    pub fn write_comment(&mut self, comment: &str)
        ensures
            final(self)@ == old(self)@.write_line("// "@ + comment@),
    {
        let mut line = crate::text::to_string("// ");
        push_str(&mut line, comment);
        self.write_line(line.as_str());
    }

    /// Write a `/// <summary>…</summary>` XML-doc comment, one `/// ` line per
    /// line of `summary`.
    pub fn write_xml_doc(&mut self, summary: &str)
        ensures
            final(self)@ == old(self)@.write_line("/// <summary>"@)
                .write_lines("/// "@, lines_spec(summary@))
                .write_line("/// </summary>"@),
    {
        self.write_line("/// <summary>");
        let ls = lines(summary);
        let ghost start = self@;
        assert(views(ls@).skip(0) =~= views(ls@));
        let mut i: usize = 0;
        while i < ls.len()
            invariant
                i <= ls@.len(),
                views(ls@) == lines_spec(summary@),
                start.write_lines("/// "@, views(ls@)) == self@.write_lines("/// "@, views(ls@).skip(i as int)),
            decreases ls@.len() - i,
        {
            let mut line = crate::text::to_string("/// ");
            push_str(&mut line, ls[i].as_str());
            let ghost rest = views(ls@).skip(i as int);
            assert(rest[0] == ls@[i as int]@);
            assert(rest.drop_first() =~= views(ls@).skip(i + 1));
            self.write_line(line.as_str());
            i = i + 1;
        }
        assert(views(ls@).skip(i as int) =~= Seq::<Seq<char>>::empty());
        self.write_line("/// </summary>");
    }

    /// Consume the writer and return the generated source.
    pub fn finish(self) -> (r: String)
        ensures
            r@ == self@.text,
    {
        self.output
    }

    /// The current output, without consuming the writer.
    pub fn as_str(&self) -> (r: &str)
        ensures
            r@ == self@.text,
    {
        self.output.as_str()
    }
}

impl Default for CsWriter {
    fn default() -> (w: Self)
        ensures
            w@ == (WriterState { text: Seq::empty(), level: 0, at_line_start: true }),
    {
        Self::new()
    }
}

} // verus!
