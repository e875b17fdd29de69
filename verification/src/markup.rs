//! Text made safe for markup.

use vstd::prelude::*;

verus! {

/// What stands for `c` in the text of a markup element: an entity for an
/// ampersand and for the two angle brackets, and the character itself
/// otherwise.
pub open spec fn text_entity(c: char) -> Seq<char> {
    if c == '&' {
        seq!['&', 'a', 'm', 'p', ';']
    } else if c == '<' {
        seq!['&', 'l', 't', ';']
    } else if c == '>' {
        seq!['&', 'g', 't', ';']
    } else {
        seq![c]
    }
}

/// `s` as the text of a markup element, each character by [`text_entity`].
pub open spec fn text_escaped(s: Seq<char>) -> Seq<char>
    decreases s.len(),
{
    if s.len() == 0 {
        Seq::empty()
    } else {
        text_escaped(s.drop_last()) + text_entity(s.last())
    }
}

/// Escaped text holds no angle bracket, so it cannot open or close an
/// element.
pub proof fn escaped_text_has_no_bracket(s: Seq<char>)
    ensures
        forall|i: int|
            0 <= i < text_escaped(s).len() ==> (#[trigger] text_escaped(s)[i]) != '<'
                && text_escaped(s)[i] != '>',
    decreases s.len(),
{
    if s.len() > 0 {
        escaped_text_has_no_bracket(s.drop_last());
        let head = text_escaped(s.drop_last());
        let tail = text_entity(s.last());
        assert(text_escaped(s) == head + tail);
        assert(forall|j: int| 0 <= j < tail.len() ==> tail[j] != '<' && tail[j] != '>');
        assert forall|i: int| 0 <= i < text_escaped(s).len() implies (#[trigger] text_escaped(
            s,
        )[i]) != '<' && text_escaped(s)[i] != '>' by {
            if i >= head.len() {
                assert(text_escaped(s)[i] == tail[i - head.len()]);
            } else {
                assert(text_escaped(s)[i] == head[i]);
            }
        }
    }
}

/// Text without an ampersand or an angle bracket is its own escaped form.
pub proof fn plain_text_stays(s: Seq<char>)
    requires
        forall|i: int| 0 <= i < s.len() ==> s[i] != '&' && s[i] != '<' && s[i] != '>',
    ensures
        text_escaped(s) == s,
    decreases s.len(),
{
    if s.len() > 0 {
        plain_text_stays(s.drop_last());
        assert(s.drop_last() + seq![s.last()] =~= s);
    }
}

/// `html_escape::encode_text`: the text with `&amp;`, `&lt;` and `&gt;` in
/// place of `&`, `<` and `>`, and every other character as it was.
#[verifier::external_body]
pub(crate) fn encode_text(s: &str) -> (r: String)
    ensures
        r@ == text_escaped(s@),
{
    html_escape::encode_text(s).into_owned()
}

} // verus!
