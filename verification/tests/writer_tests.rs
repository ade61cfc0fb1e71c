use rust_to_cs_compiler::writer::CsWriter;

#[test]
fn empty_writer_produces_empty_string() {
    let w = CsWriter::new();
    assert_eq!(w.finish(), "");
}

#[test]
fn write_line_adds_newline() {
    let mut w = CsWriter::new();
    w.write_line("hello");
    assert_eq!(w.finish(), "hello\n");
}

#[test]
fn indent_adds_spaces() {
    let mut w = CsWriter::new();
    w.indent();
    w.write_line("indented");
    assert_eq!(w.finish(), "    indented\n");
}

#[test]
fn dedent_removes_spaces() {
    let mut w = CsWriter::new();
    w.indent();
    w.indent();
    w.write_line("deep");
    w.dedent();
    w.write_line("shallow");
    assert_eq!(w.finish(), "        deep\n    shallow\n");
}

#[test]
fn open_close_brace_indents() {
    let mut w = CsWriter::new();
    w.write_line("class Foo");
    w.open_brace();
    w.write_line("int x;");
    w.close_brace();
    assert_eq!(w.finish(), "class Foo\n{\n    int x;\n}\n");
}

#[test]
fn blank_line_inserts_empty_line() {
    let mut w = CsWriter::new();
    w.write_line("a");
    w.blank_line();
    w.write_line("b");
    assert_eq!(w.finish(), "a\n\nb\n");
}

#[test]
fn write_without_newline_no_double_indent() {
    let mut w = CsWriter::new();
    w.indent();
    w.write("int");
    w.write(" x");
    w.write_line(";");
    assert_eq!(w.finish(), "    int x;\n");
}

#[test]
fn write_comment_format() {
    let mut w = CsWriter::new();
    w.write_comment("hello world");
    assert_eq!(w.finish(), "// hello world\n");
}

#[test]
fn write_xml_doc_format() {
    let mut w = CsWriter::new();
    w.write_xml_doc("A class.");
    assert_eq!(w.finish(), "/// <summary>\n/// A class.\n/// </summary>\n");
}

#[test]
fn write_xml_doc_multiline_and_crlf() {
    let mut w = CsWriter::new();
    w.indent();
    w.write_xml_doc("first\r\nsecond\n");
    assert_eq!(
        w.finish(),
        "    /// <summary>\n    /// first\n    /// second\n    /// </summary>\n"
    );
}

#[test]
fn write_xml_doc_empty_summary() {
    let mut w = CsWriter::new();
    w.write_xml_doc("");
    assert_eq!(w.finish(), "/// <summary>\n/// </summary>\n");
}

#[test]
fn empty_write_does_not_indent() {
    let mut w = CsWriter::new();
    w.indent();
    w.write("");
    w.write_line("");
    assert_eq!(w.as_str(), "\n");
}

#[test]
fn default_writer_is_empty() {
    let w = CsWriter::default();
    assert_eq!(w.as_str(), "");
}
