//! Inline and block constructors: each wraps rendered content in a
//! fixed roff markup template.

use vstd::prelude::*;
use vstd::string::StringExecFns;

use crate::num::dec_nat;
use crate::num::fmt_usize;
use crate::render_items;
use crate::troff_seq;
use crate::Troffable;

verus! {

/// The bold fragment for a text: `\fB`, the text, `\fP`.
pub open spec fn bold_seq(s: Seq<char>) -> Seq<char> {
    "\\fB"@ + s + "\\fP"@
}

/// The italic fragment for a text: `\fI`, the text, `\fP`.
pub open spec fn italic_seq(s: Seq<char>) -> Seq<char> {
    "\\fI"@ + s + "\\fP"@
}

/// The definition-list entry for a rendered header and body: a `.TP`
/// directive line, the header line, then the body.
pub open spec fn list_seq(header: Seq<char>, content: Seq<char>) -> Seq<char> {
    ".TP\n"@ + header + seq!['\n'] + content
}

/// The forced line break around a rendered body: a leading blank line,
/// the body, a font reset, a bare terminator and a `.br` directive.
pub open spec fn lf_seq(content: Seq<char>) -> Seq<char> {
    seq!['\n'] + content + "\\fR\n.\n.br"@
}

/// The paragraph around a rendered body: a leading blank line, the
/// body, then a `.P` directive.
pub open spec fn p_seq(content: Seq<char>) -> Seq<char> {
    seq!['\n'] + content + "\n.P"@
}

/// The plain block around a rendered body: a leading blank line, the
/// body, then a bare terminator.
pub open spec fn s_seq(content: Seq<char>) -> Seq<char> {
    seq!['\n'] + content + "\n."@
}

/// The unordered-list wrapper around a rendered body: a leading blank
/// line, the body, an indent reset to 0 and a bare terminator.
pub open spec fn ul_seq(content: Seq<char>) -> Seq<char> {
    seq!['\n'] + content + "\n.IP \"\" 0\n."@
}

/// The bullet item at an indent width: a leading blank line, a bullet
/// indent directive with the width in decimal, the rendered body and a
/// bare terminator.
pub open spec fn li_seq(indent: nat, content: Seq<char>) -> Seq<char> {
    "\n.IP \"\\(bu\" "@ + dec_nat(indent) + seq!['\n'] + content + "\n."@
}

/// The preformatted block at an indent width: an indent directive with
/// the width in decimal, no-fill mode on, the rendered body, fill mode
/// back on and the indent reset to 0.
pub open spec fn nf_seq(indent: nat, content: Seq<char>) -> Seq<char> {
    "\n.IP \"\" "@ + dec_nat(indent) + "\n.\n.nf\n"@ + content + "\n.\n.fi\n.\n.IP \"\" 0\n.\n"@
}

/// Wraps the text in bold font switches.
pub fn bold(input: &str) -> (r: String)
    ensures
        r@ == bold_seq(input@),
{
    let mut r = String::from_str("\\fB");
    r.append(input);
    r.append("\\fP");
    proof {
        assert(r@ =~= bold_seq(input@));
    }
    r
}

/// Wraps the text in italic font switches.
pub fn italic(input: &str) -> (r: String)
    ensures
        r@ == italic_seq(input@),
{
    let mut r = String::from_str("\\fI");
    r.append(input);
    r.append("\\fP");
    proof {
        assert(r@ =~= italic_seq(input@));
    }
    r
}

/// Builds a definition-list entry: a header line followed by an
/// indented body, both rendered from their items.
pub fn list<C1: Troffable, C2: Troffable>(header: &[C1], content: &[C2]) -> (r: String)
    ensures
        r@ == list_seq(troff_seq(header@), troff_seq(content@)),
{
    let mut r = String::from_str(".TP\n");
    r.append(render_items(header).as_str());
    r.append("\n");
    r.append(render_items(content).as_str());
    proof {
        reveal_strlit("\n");
        assert(r@ =~= list_seq(troff_seq(header@), troff_seq(content@)));
    }
    r
}

/// Forces a line break after the rendered content, resetting the font.
pub fn lf<C1: Troffable>(content: &[C1]) -> (r: String)
    ensures
        r@ == lf_seq(troff_seq(content@)),
{
    let mut r = String::from_str("\n");
    r.append(render_items(content).as_str());
    r.append("\\fR\n.\n.br");
    proof {
        reveal_strlit("\n");
        assert(r@ =~= lf_seq(troff_seq(content@)));
    }
    r
}

/// Starts a new paragraph holding the rendered content.
pub fn p<C1: Troffable>(content: &[C1]) -> (r: String)
    ensures
        r@ == p_seq(troff_seq(content@)),
{
    let mut r = String::from_str("\n");
    r.append(render_items(content).as_str());
    r.append("\n.P");
    proof {
        reveal_strlit("\n");
        assert(r@ =~= p_seq(troff_seq(content@)));
    }
    r
}

/// Builds a plain block with no paragraph semantics.
pub fn s<C1: Troffable>(content: &[C1]) -> (r: String)
    ensures
        r@ == s_seq(troff_seq(content@)),
{
    let mut r = String::from_str("\n");
    r.append(render_items(content).as_str());
    r.append("\n.");
    proof {
        reveal_strlit("\n");
        assert(r@ =~= s_seq(troff_seq(content@)));
    }
    r
}

/// Builds an unordered-list wrapper; follow it with [`li`] items.
pub fn ul<C1: Troffable>(content: &[C1]) -> (r: String)
    ensures
        r@ == ul_seq(troff_seq(content@)),
{
    let mut r = String::from_str("\n");
    r.append(render_items(content).as_str());
    r.append("\n.IP \"\" 0\n.");
    proof {
        reveal_strlit("\n");
        assert(r@ =~= ul_seq(troff_seq(content@)));
    }
    r
}

/// Builds a single bullet item at the given indent width.
pub fn li<C1: Troffable>(indent: usize, content: &[C1]) -> (r: String)
    ensures
        r@ == li_seq(indent as nat, troff_seq(content@)),
{
    let mut r = String::from_str("\n.IP \"\\(bu\" ");
    r.append(fmt_usize(indent).as_str());
    r.append("\n");
    r.append(render_items(content).as_str());
    r.append("\n.");
    proof {
        reveal_strlit("\n");
        assert(r@ =~= li_seq(indent as nat, troff_seq(content@)));
    }
    r
}

/// Builds a preformatted (no-fill) block at the given indent width.
pub fn nf<C1: Troffable>(indent: usize, content: &[C1]) -> (r: String)
    ensures
        r@ == nf_seq(indent as nat, troff_seq(content@)),
{
    let mut r = String::from_str("\n.IP \"\" ");
    r.append(fmt_usize(indent).as_str());
    r.append("\n.\n.nf\n");
    r.append(render_items(content).as_str());
    r.append("\n.\n.fi\n.\n.IP \"\" 0\n.\n");
    proof {
        assert(r@ =~= nf_seq(indent as nat, troff_seq(content@)));
    }
    r
}

} // verus!
