//! A library for building roff (man page) source text.
//!
//! A document is assembled from sections; each section's body is built
//! from renderable pieces (strings, or sequences of renderable pieces)
//! and from the inline and block constructors in [`markup`].

use vstd::prelude::*;
use vstd::string::StringExecFns;

mod escape;
mod markup;
mod num;
mod text;

pub use escape::count_char;
pub use escape::escape;
pub use escape::escape_char;
pub use escape::escape_seq;
pub use escape::lemma_escape_hyphens;
pub use markup::bold;
pub use markup::bold_seq;
pub use markup::italic;
pub use markup::italic_seq;
pub use markup::lf;
pub use markup::lf_seq;
pub use markup::li;
pub use markup::li_seq;
pub use markup::list;
pub use markup::list_seq;
pub use markup::nf;
pub use markup::nf_seq;
pub use markup::p;
pub use markup::p_seq;
pub use markup::s;
pub use markup::s_seq;
pub use markup::ul;
pub use markup::ul_seq;
pub use num::dec_int;
pub use num::dec_nat;
pub use num::digit_char;
pub use text::upper_of;

verus! {

/// The capability of producing roff source text.
pub trait Troffable {
    /// The roff text this value renders to.
    spec fn troff(&self) -> Seq<char>;

    /// Produces the roff text of this value; rendering reads the value
    /// and never changes it.
    fn render(&self) -> (r: String)
        ensures
            r@ == self.troff(),
    ;
}

/// The rendering of a sequence of renderable values: the concatenation,
/// in order and with no separator, of the rendering of each element.
pub open spec fn troff_seq<C: Troffable>(items: Seq<C>) -> Seq<char>
    decreases items.len(),
{
    if items.len() == 0 {
        Seq::empty()
    } else {
        troff_seq(items.drop_last()) + items.last().troff()
    }
}

/// Rendering distributes over concatenation of sequences: the rendering
/// of `items1 + items2` is the rendering of `items1` followed by the
/// rendering of `items2`, and the empty sequence renders as the empty
/// text.
pub proof fn lemma_troff_seq_concat<C: Troffable>(items1: Seq<C>, items2: Seq<C>)
    ensures
        troff_seq(items1 + items2) == troff_seq(items1) + troff_seq(items2),
        troff_seq(Seq::<C>::empty()) == Seq::<char>::empty(),
    decreases items2.len(),
{
    assert(troff_seq(Seq::<C>::empty()) =~= Seq::<char>::empty());
    if items2.len() == 0 {
        assert(items1 + items2 =~= items1);
        assert(troff_seq(items1) + troff_seq(items2) =~= troff_seq(items1));
    } else {
        lemma_troff_seq_concat(items1, items2.drop_last());
        assert((items1 + items2).drop_last() =~= items1 + items2.drop_last());
        assert((items1 + items2).last() == items2.last());
        assert(troff_seq(items1) + troff_seq(items2) =~= troff_seq(items1) + troff_seq(
            items2.drop_last(),
        ) + items2.last().troff());
    }
}

/// Renders each element of a slice in order and concatenates the
/// results, with no separator.
pub fn render_items<C: Troffable>(items: &[C]) -> (r: String)
    ensures
        r@ == troff_seq(items@),
{
    let mut r = String::new();
    let mut i: usize = 0;
    while i < items.len()
        invariant
            0 <= i <= items@.len(),
            r@ == troff_seq(items@.take(i as int)),
        decreases items@.len() - i,
    {
        let piece = items[i].render();
        r.append(piece.as_str());
        proof {
            assert(items@.take(i + 1).drop_last() =~= items@.take(i as int));
            assert(items@.take(i + 1).last() == items@[i as int]);
        }
        i += 1;
    }
    proof {
        assert(items@.take(items@.len() as int) =~= items@);
    }
    r
}

impl Troffable for String {
    /// A string renders as itself.
    open spec fn troff(&self) -> Seq<char> {
        self@
    }

    fn render(&self) -> (r: String) {
        self.clone()
    }
}

impl<'a> Troffable for &'a str {
    /// A string slice renders as itself.
    open spec fn troff(&self) -> Seq<char> {
        (*self)@
    }

    fn render(&self) -> (r: String) {
        String::from_str(*self)
    }
}

impl<C: Troffable> Troffable for Vec<C> {
    /// A vector renders as the concatenation of its elements'
    /// renderings, in order.
    open spec fn troff(&self) -> Seq<char> {
        troff_seq(self@)
    }

    fn render(&self) -> (r: String) {
        render_items(self.as_slice())
    }
}

impl<'a, C: Troffable> Troffable for &'a [C] {
    /// A slice renders as the concatenation of its elements'
    /// renderings, in order.
    open spec fn troff(&self) -> Seq<char> {
        troff_seq((*self)@)
    }

    fn render(&self) -> (r: String) {
        render_items(*self)
    }
}

/// One titled section of a document; its body is already-rendered text.
#[derive(PartialEq, Eq)]
struct Section {
    pub title: String,
    pub content: String,
}

/// The text a section renders to: its `.SH` heading line with the title
/// upper-cased, then its body.
pub open spec fn section_troff(title: Seq<char>, body: Seq<char>) -> Seq<char> {
    ".SH "@ + upper_of(title) + seq!['\n'] + body
}

impl Troffable for Section {
    closed spec fn troff(&self) -> Seq<char> {
        section_troff(self.title@, self.content@)
    }

    fn render(&self) -> (r: String) {
        let mut r = String::from_str(".SH ");
        r.append(text::uppercase(self.title.as_str()).as_str());
        r.append("\n");
        r.append(self.content.as_str());
        proof {
            reveal_strlit("\n");
            assert(r@ =~= section_troff(self.title@, self.content@));
        }
        r
    }
}

/// The `.TH` header directive line of a document: five quoted fields —
/// title, manual section number, footer, current marker and center
/// header — the four text fields upper-cased, the number in decimal.
pub open spec fn th_line(
    title: Seq<char>,
    section: int,
    footer: Seq<char>,
    current: Seq<char>,
    header: Seq<char>,
) -> Seq<char> {
    ".TH \""@ + upper_of(title) + "\" \""@ + dec_int(section) + "\" \""@ + upper_of(footer)
        + "\" \""@ + upper_of(current) + "\" \""@ + upper_of(header) + "\"\n"@
}

/// The text the sections of a document contribute to its rendering:
/// for each section in order, its `.SH` heading line with the title
/// upper-cased, then the escaped form of its body, then a newline. The
/// escape transform applies to the body alone, never to the heading.
/// Each section is a pair of its title and its already-rendered body.
pub open spec fn body_troff(secs: Seq<(Seq<char>, Seq<char>)>) -> Seq<char>
    decreases secs.len(),
{
    if secs.len() == 0 {
        Seq::empty()
    } else {
        body_troff(secs.drop_last()) + section_troff(
            secs.last().0,
            escape_seq(secs.last().1),
        ) + seq!['\n']
    }
}

/// Appending a section appends exactly that section's output: its
/// heading, its escaped body and a trailing newline. Together with the
/// contract of [`Roff::section`], sections appear in the rendered
/// document in insertion order.
pub proof fn lemma_body_troff_push(secs: Seq<(Seq<char>, Seq<char>)>, sec: (Seq<char>, Seq<char>))
    ensures
        body_troff(secs.push(sec)) == body_troff(secs) + section_troff(sec.0, escape_seq(sec.1))
            + seq!['\n'],
{
    assert(secs.push(sec).drop_last() =~= secs);
    assert(secs.push(sec).last() == sec);
}

/// A roff document: a titled manual page assembled from sections.
#[derive(PartialEq, Eq)]
pub struct Roff {
    title: String,
    section: i8,
    footer: String,
    current: String,
    header: String,
    content: Vec<Section>,
}

impl Roff {
    /// The document's title field.
    pub closed spec fn spec_title(&self) -> Seq<char> {
        self.title@
    }

    /// The document's manual section number.
    pub closed spec fn spec_section(&self) -> int {
        self.section as int
    }

    /// The document's footer field.
    pub closed spec fn spec_footer(&self) -> Seq<char> {
        self.footer@
    }

    /// The document's current-marker field.
    pub closed spec fn spec_current(&self) -> Seq<char> {
        self.current@
    }

    /// The document's center-header field.
    pub closed spec fn spec_header(&self) -> Seq<char> {
        self.header@
    }

    /// The document's sections, in insertion order, each as the pair of
    /// its title and its already-rendered body.
    pub closed spec fn spec_sections(&self) -> Seq<(Seq<char>, Seq<char>)> {
        self.content@.map(|i: int, sec: Section| (sec.title@, sec.content@))
    }

    /// Creates a document with the five scalar fields and no sections.
    pub fn new(title: &str, section: i8, footer: &str, current: &str, header: &str) -> (r: Self)
        ensures
            r.spec_title() == title@,
            r.spec_section() == section as int,
            r.spec_footer() == footer@,
            r.spec_current() == current@,
            r.spec_header() == header@,
            r.spec_sections() == Seq::<(Seq<char>, Seq<char>)>::empty(),
    {
        let r = Roff {
            title: String::from_str(title),
            section,
            footer: String::from_str(footer),
            current: String::from_str(current),
            header: String::from_str(header),
            content: Vec::new(),
        };
        proof {
            assert(r.spec_sections() =~= Seq::<(Seq<char>, Seq<char>)>::empty());
        }
        r
    }

    /// Appends a section: its body is the rendering of `content`, done
    /// now; its title is kept as given (it is upper-cased at render
    /// time). The five scalar fields and the earlier sections are
    /// unchanged, and the new section comes last.
    pub fn section<C: Troffable>(self, title: &str, content: &[C]) -> (r: Self)
        ensures
            r.spec_title() == self.spec_title(),
            r.spec_section() == self.spec_section(),
            r.spec_footer() == self.spec_footer(),
            r.spec_current() == self.spec_current(),
            r.spec_header() == self.spec_header(),
            r.spec_sections() == self.spec_sections().push((title@, troff_seq(content@))),
    {
        let mut r = self;
        let body = render_items(content);
        r.content.push(Section { title: String::from_str(title), content: body });
        proof {
            assert(r.spec_sections() =~= self.spec_sections().push(
                (title@, troff_seq(content@)),
            ));
        }
        r
    }
}

impl Troffable for Roff {
    /// A document renders as its `.TH` header line followed, in
    /// insertion order, by each section's `.SH` heading and escaped
    /// body.
    open spec fn troff(&self) -> Seq<char> {
        th_line(
            self.spec_title(),
            self.spec_section(),
            self.spec_footer(),
            self.spec_current(),
            self.spec_header(),
        ) + body_troff(self.spec_sections())
    }

    fn render(&self) -> (r: String) {
        let mut r = String::from_str(".TH \"");
        r.append(text::uppercase(self.title.as_str()).as_str());
        r.append("\" \"");
        r.append(num::fmt_i8(self.section).as_str());
        r.append("\" \"");
        r.append(text::uppercase(self.footer.as_str()).as_str());
        r.append("\" \"");
        r.append(text::uppercase(self.current.as_str()).as_str());
        r.append("\" \"");
        r.append(text::uppercase(self.header.as_str()).as_str());
        r.append("\"\n");
        let ghost th = th_line(
            self.spec_title(),
            self.spec_section(),
            self.spec_footer(),
            self.spec_current(),
            self.spec_header(),
        );
        proof {
            assert(r@ =~= th);
        }
        let mut i: usize = 0;
        while i < self.content.len()
            invariant
                0 <= i <= self.content@.len(),
                self.spec_sections().len() == self.content@.len(),
                r@ == th + body_troff(self.spec_sections().take(i as int)),
            decreases self.content@.len() - i,
        {
            let sec = &self.content[i];
            r.append(".SH ");
            r.append(text::uppercase(sec.title.as_str()).as_str());
            r.append("\n");
            r.append(escape(sec.content.as_str()).as_str());
            r.append("\n");
            proof {
                reveal_strlit("\n");
                let secs = self.spec_sections();
                assert(secs.take(i + 1).drop_last() =~= secs.take(i as int));
                assert(secs.take(i + 1).last() == secs[i as int]);
                assert(r@ =~= th + body_troff(secs.take(i + 1)));
            }
            i += 1;
        }
        proof {
            assert(self.spec_sections().take(self.content@.len() as int) =~= self.spec_sections());
        }
        r
    }
}

/// Rendering a document is a pure projection: it takes the document by
/// shared reference, mutates nothing, and its output is fixed by the
/// document's fields alone — so rendering the same document twice
/// yields identical text.
pub proof fn lemma_render_repeatable(doc: &Roff, r1: Seq<char>, r2: Seq<char>)
    requires
        r1 == doc.troff(),
        r2 == doc.troff(),
    ensures
        r1 == r2,
{
}

} // verus!
