use roff::Roff;
use roff::Troffable;

#[test]
fn string_renders_as_itself() {
    let s = String::from("hello");
    assert_eq!(s.render(), "hello");
}

#[test]
fn str_renders_as_itself() {
    let s = "hello";
    assert_eq!(s.render(), "hello");
}

#[test]
fn sequence_render_concatenates() {
    let items = vec!["a", "b", "c"];
    assert_eq!(
        items.render(),
        format!("{}{}{}", "a".render(), "b".render(), "c".render())
    );
    assert_eq!(items.render(), "abc");
    let slice: &[&str] = &items[..];
    assert_eq!(slice.render(), "abc");
}

#[test]
fn sequence_render_empty() {
    let items: Vec<String> = Vec::new();
    assert_eq!(items.render(), "");
}

#[test]
fn nested_sequence_render() {
    let inner1 = vec![String::from("ab"), String::from("cd")];
    let inner2 = vec![String::from("e")];
    let outer = vec![inner1, inner2];
    assert_eq!(outer.render(), "abcde");
}

#[test]
fn document_header_line() {
    let doc = Roff::new("mytool", 1, "v1", "2024", "User Commands");
    let out = doc.render();
    let first_line = out.lines().next().unwrap();
    assert_eq!(first_line, ".TH \"MYTOOL\" \"1\" \"V1\" \"2024\" \"USER COMMANDS\"");
}

#[test]
fn document_without_sections_is_header_only() {
    let doc = Roff::new("mytool", 1, "v1", "2024", "User Commands");
    assert_eq!(doc.render(), ".TH \"MYTOOL\" \"1\" \"V1\" \"2024\" \"USER COMMANDS\"\n");
}

#[test]
fn document_sections_in_order() {
    let doc = Roff::new("t", 1, "f", "c", "h")
        .section("one", &["a"])
        .section("two", &["b"])
        .section("three", &["c"]);
    let out = doc.render();
    assert_eq!(out, ".TH \"T\" \"1\" \"F\" \"C\" \"H\"\n.SH ONE\na\n.SH TWO\nb\n.SH THREE\nc\n");
    let i1 = out.find(".SH ONE").unwrap();
    let i2 = out.find(".SH TWO").unwrap();
    let i3 = out.find(".SH THREE").unwrap();
    assert!(i1 < i2 && i2 < i3);
}

#[test]
fn document_escapes_section_bodies() {
    let doc = Roff::new("t", 1, "f", "c", "h").section("opts", &["a-b"]);
    let out = doc.render();
    assert_eq!(out, ".TH \"T\" \"1\" \"F\" \"C\" \"H\"\n.SH OPTS\na\\-b\n");
}

#[test]
fn document_does_not_escape_section_headings() {
    let doc = Roff::new("t", 1, "f", "c", "h").section("x-y", &["a-b"]);
    let out = doc.render();
    assert_eq!(out, ".TH \"T\" \"1\" \"F\" \"C\" \"H\"\n.SH X-Y\na\\-b\n");
}

#[test]
fn document_header_fields_are_not_escaped() {
    let doc = Roff::new("my-tool", 2, "v-1", "c", "h");
    let out = doc.render();
    assert_eq!(out, ".TH \"MY-TOOL\" \"2\" \"V-1\" \"C\" \"H\"\n");
}

#[test]
fn document_negative_section_number() {
    let doc = Roff::new("t", -3, "f", "c", "h");
    let out = doc.render();
    assert_eq!(out, ".TH \"T\" \"-3\" \"F\" \"C\" \"H\"\n");
}

#[test]
fn document_multi_digit_section_number() {
    let doc = Roff::new("t", 127, "f", "c", "h");
    let out = doc.render();
    assert_eq!(out, ".TH \"T\" \"127\" \"F\" \"C\" \"H\"\n");
    let doc = Roff::new("t", -128, "f", "c", "h");
    assert_eq!(doc.render(), ".TH \"T\" \"-128\" \"F\" \"C\" \"H\"\n");
}

#[test]
fn document_section_with_empty_content() {
    let doc = Roff::new("t", 1, "f", "c", "h").section("empty", &[] as &[&str]);
    assert_eq!(doc.render(), ".TH \"T\" \"1\" \"F\" \"C\" \"H\"\n.SH EMPTY\n\n");
}

#[test]
fn render_twice_identical() {
    let doc = Roff::new("tool", 8, "foot", "now", "head")
        .section("a-b", &["body-text"])
        .section("next", &["more"]);
    let first = doc.render();
    let second = doc.render();
    assert_eq!(first, second);
}
