//! Escaping of literal hyphens for the roff typesetter.

use vstd::prelude::*;
use vstd::string::StrSliceExecFns;

verus! {

/// What one character contributes to the escaped text: a hyphen becomes
/// the two-character sequence `\-`; every other character is kept as is.
pub open spec fn escape_char(c: char) -> Seq<char> {
    if c == '-' {
        seq!['\\', '-']
    } else {
        seq![c]
    }
}

/// The escaped form of a text: each character replaced by its
/// [`escape_char`] expansion, in order.
pub open spec fn escape_seq(s: Seq<char>) -> Seq<char>
    decreases s.len(),
{
    if s.len() == 0 {
        Seq::empty()
    } else {
        escape_seq(s.drop_last()) + escape_char(s.last())
    }
}

/// How often a character occurs in a text.
pub open spec fn count_char(s: Seq<char>, c: char) -> nat
    decreases s.len(),
{
    if s.len() == 0 {
        0
    } else {
        count_char(s.drop_last(), c) + (if s.last() == c {
            1nat
        } else {
            0nat
        })
    }
}

/// Appends one character to a string.
///
/// Relies on `String::push`: it appends the given `char` to the end of
/// the `String`.
#[verifier::external_body]
fn push_char(s: &mut String, c: char)
    ensures
        final(s)@ == old(s)@ + seq![c],
{
    s.push(c);
}

/// Replaces every `-` in the input with `\-`, leaving all other
/// characters untouched.
pub fn escape(input: &str) -> (r: String)
    ensures
        r@ == escape_seq(input@),
{
    let n = input.unicode_len();
    let mut r = String::new();
    let mut i: usize = 0;
    while i < n
        invariant
            n == input@.len(),
            0 <= i <= n,
            r@ == escape_seq(input@.take(i as int)),
        decreases n - i,
    {
        let c = input.get_char(i);
        if c == '-' {
            r.append("\\-");
            proof {
                reveal_strlit("\\-");
                assert("\\-"@ =~= seq!['\\', '-']);
            }
        } else {
            push_char(&mut r, c);
        }
        proof {
            let pre = input@.take(i as int);
            assert(input@.take(i + 1).drop_last() =~= pre);
            assert(input@.take(i + 1).last() == input@[i as int]);
            assert(r@ =~= escape_seq(pre) + escape_char(input@[i as int]));
        }
        i += 1;
    }
    proof {
        assert(input@.take(n as int) =~= input@);
    }
    r
}

/// Escaping leaves no hyphen unescaped: in the escaped text every `-`
/// is immediately preceded by a `\`; no hyphen is lost or invented, so
/// the escaped text holds exactly as many hyphens as the input; and
/// each of them accounts for one new backslash.
pub proof fn lemma_escape_hyphens(s: Seq<char>)
    ensures
        forall|i: int|
            0 <= i < escape_seq(s).len() && #[trigger] escape_seq(s)[i] == '-' ==> 0 < i
                && escape_seq(s)[i - 1] == '\\',
        count_char(escape_seq(s), '-') == count_char(s, '-'),
        count_char(escape_seq(s), '\\') == count_char(s, '\\') + count_char(s, '-'),
    decreases s.len(),
{
    if s.len() == 0 {
    } else {
        let pre = escape_seq(s.drop_last());
        let tail = escape_char(s.last());
        lemma_escape_hyphens(s.drop_last());
        lemma_count_char_add(pre, tail, '-');
        lemma_count_char_add(pre, tail, '\\');
        assert(escape_seq(s) == pre + tail);
        if s.last() == '-' {
            assert(tail =~= seq!['\\'] + seq!['-']);
            lemma_count_char_add(seq!['\\'], seq!['-'], '-');
            lemma_count_char_add(seq!['\\'], seq!['-'], '\\');
            lemma_count_char_singleton('\\', '-');
            lemma_count_char_singleton('-', '-');
            lemma_count_char_singleton('\\', '\\');
            lemma_count_char_singleton('-', '\\');
        } else {
            lemma_count_char_singleton(s.last(), '-');
            lemma_count_char_singleton(s.last(), '\\');
        }
        assert forall|i: int|
            0 <= i < escape_seq(s).len() && #[trigger] escape_seq(s)[i] == '-' implies 0 < i
            && escape_seq(s)[i - 1] == '\\' by {
            if i < pre.len() {
                assert(pre[i] == '-');
                assert(escape_seq(s)[i - 1] == pre[i - 1]);
            } else {
                assert(escape_seq(s)[i] == tail[i - pre.len()]);
            }
        }
    }
}

/// How often a character occurs in a one-character text.
pub proof fn lemma_count_char_singleton(c: char, d: char)
    ensures
        count_char(seq![c], d) == (if c == d {
            1nat
        } else {
            0nat
        }),
{
    assert(seq![c].drop_last() =~= Seq::<char>::empty());
    assert(count_char(Seq::<char>::empty(), d) == 0);
}

/// Occurrence counts add up over concatenation.
pub proof fn lemma_count_char_add(s1: Seq<char>, s2: Seq<char>, c: char)
    ensures
        count_char(s1 + s2, c) == count_char(s1, c) + count_char(s2, c),
    decreases s2.len(),
{
    if s2.len() == 0 {
        assert(s1 + s2 =~= s1);
    } else {
        lemma_count_char_add(s1, s2.drop_last(), c);
        assert((s1 + s2).drop_last() =~= s1 + s2.drop_last());
        assert((s1 + s2).last() == s2.last());
    }
}

} // verus!
