use roff::bold;
use roff::escape;
use roff::italic;
use roff::lf;
use roff::li;
use roff::list;
use roff::nf;
use roff::p;
use roff::s;
use roff::ul;

#[test]
fn escape_replaces_hyphens() {
    assert_eq!(escape("a-b"), "a\\-b");
    assert_eq!(escape("-a-"), "\\-a\\-");
}

#[test]
fn escape_empty() {
    assert_eq!(escape(""), "");
}

#[test]
fn escape_without_hyphen_is_identity() {
    assert_eq!(escape("plain text"), "plain text");
}

#[test]
fn escape_only_hyphens() {
    assert_eq!(escape("---"), "\\-\\-\\-");
}

#[test]
fn escape_keeps_backslashes() {
    assert_eq!(escape("\\fB-\\fP"), "\\fB\\-\\fP");
}

#[test]
fn bold_wraps_text() {
    assert_eq!(bold("text"), "\\fBtext\\fP");
}

#[test]
fn bold_empty() {
    assert_eq!(bold(""), "\\fB\\fP");
}

#[test]
fn italic_wraps_text() {
    assert_eq!(italic("text"), "\\fItext\\fP");
}

#[test]
fn list_exact_output() {
    assert_eq!(list(&["head"], &["body"]), ".TP\nhead\nbody");
}

#[test]
fn list_concatenates_items() {
    assert_eq!(list(&["h1", "h2"], &["b1", "b2"]), ".TP\nh1h2\nb1b2");
}

#[test]
fn lf_exact_output() {
    assert_eq!(lf(&["text"]), "\ntext\\fR\n.\n.br");
}

#[test]
fn p_exact_output() {
    assert_eq!(p(&["text"]), "\ntext\n.P");
}

#[test]
fn s_exact_output() {
    assert_eq!(s(&["text"]), "\ntext\n.");
}

#[test]
fn ul_exact_output() {
    assert_eq!(ul(&["items"]), "\nitems\n.IP \"\" 0\n.");
}

#[test]
fn li_exact_output() {
    assert_eq!(li(3, &["item"]), "\n.IP \"\\(bu\" 3\nitem\n.");
}

#[test]
fn li_zero_indent() {
    assert_eq!(li(0, &["item"]), "\n.IP \"\\(bu\" 0\nitem\n.");
}

#[test]
fn nf_exact_output() {
    assert_eq!(nf(4, &["code"]), "\n.IP \"\" 4\n.\n.nf\ncode\n.\n.fi\n.\n.IP \"\" 0\n.\n");
}

#[test]
fn nf_large_indent() {
    assert_eq!(nf(120, &["x"]), "\n.IP \"\" 120\n.\n.nf\nx\n.\n.fi\n.\n.IP \"\" 0\n.\n");
}

#[test]
fn blocks_with_empty_content() {
    let none: &[&str] = &[];
    assert_eq!(p(none), "\n\n.P");
    assert_eq!(s(none), "\n\n.");
    assert_eq!(ul(none), "\n\n.IP \"\" 0\n.");
    assert_eq!(nf(2, none), "\n.IP \"\" 2\n.\n.nf\n\n.\n.fi\n.\n.IP \"\" 0\n.\n");
}
