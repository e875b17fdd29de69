//! Two small text transformations used when markup is put together.

use vstd::prelude::*;
use vstd::string::*;
use crate::text::{join, join_texts, lines, push_char, replace_char, replace_each, split_lines, texts};

verus! {

/// The entity that stands for a double quote.
pub open spec fn quote_entity() -> Seq<char> {
    seq!['&', 'q', 'u', 'o', 't', ';']
}

/// `s` with every double quote replaced by its entity.
pub open spec fn spec_escape_quote(s: Seq<char>) -> Seq<char> {
    replace_char(s, '"', quote_entity())
}

/// Escapes the double quotes of `s`.
pub fn escape_quote(s: &str) -> (r: String)
    ensures
        r@ == spec_escape_quote(s@),
{
    proof {
        reveal_strlit("&quot;");
        assert("&quot;"@ =~= quote_entity());
    }
    replace_each(s, '"', "&quot;")
}

/// A text without double quotes is its own escaped form.
pub proof fn escape_quote_keeps_plain_text(s: Seq<char>)
    requires
        forall|i: int| 0 <= i < s.len() ==> s[i] != '"',
    ensures
        spec_escape_quote(s) == s,
    decreases s.len(),
{
    if s.len() > 0 {
        escape_quote_keeps_plain_text(s.drop_last());
        assert(s.drop_last().push(s.last()) =~= s);
    }
}

/// Escaped text holds no double quote, so it cannot end an attribute that
/// double quotes enclose.
pub proof fn escaped_text_has_no_quote(s: Seq<char>)
    ensures
        forall|i: int| 0 <= i < spec_escape_quote(s).len() ==> spec_escape_quote(s)[i] != '"',
    decreases s.len(),
{
    if s.len() > 0 {
        escaped_text_has_no_quote(s.drop_last());
        let head = spec_escape_quote(s.drop_last());
        let whole = spec_escape_quote(s);
        if s.last() == '"' {
            assert(whole == head + quote_entity());
            assert forall|i: int| 0 <= i < whole.len() implies whole[i] != '"' by {
                if i >= head.len() {
                    assert(whole[i] == quote_entity()[i - head.len()]);
                } else {
                    assert(whole[i] == head[i]);
                }
            }
        } else {
            assert(whole == head.push(s.last()));
            assert forall|i: int| 0 <= i < whole.len() implies whole[i] != '"' by {
                if i < head.len() {
                    assert(whole[i] == head[i]);
                }
            }
        }
    }
}

/// The blanks put in front of a line at `level`: two for each level, and one
/// at level zero.
pub open spec fn margin(level: nat) -> Seq<char> {
    if level == 0 {
        seq![' ']
    } else {
        Seq::new(2 * level, |i: int| ' ')
    }
}

/// `line` behind its margin; an empty line stays empty.
pub open spec fn indent_line(line: Seq<char>, level: nat) -> Seq<char> {
    if line.len() == 0 {
        line
    } else {
        margin(level) + line
    }
}

/// Every line of `s` indented to `level`, the lines joined by line feeds.
pub open spec fn spec_indent(s: Seq<char>, level: nat) -> Seq<char> {
    join(Seq::new(lines(s).len(), |i: int| indent_line(lines(s)[i], level)), seq!['\n'])
}

/// The margin of `level` as a string.
fn margin_text(level: usize) -> (r: String)
    ensures
        r@ == margin(level as nat),
{
    let mut out = String::new();
    if level == 0 {
        push_char(&mut out, ' ');
        assert(out@ =~= margin(0));
        return out;
    }
    let mut i: usize = 0;
    while i < level
        invariant
            i <= level,
            out@ == Seq::new(2 * (i as nat), |j: int| ' '),
        decreases level - i,
    {
        push_char(&mut out, ' ');
        push_char(&mut out, ' ');
        i = i + 1;
        assert(out@ =~= Seq::new(2 * (i as nat), |j: int| ' '));
    }
    out
}

/// Indents the lines of `s`: each line that is not empty gets two blanks for
/// each level in front (one blank at level zero).
pub fn indent(s: &str, level: usize) -> (r: String)
    ensures
        r@ == spec_indent(s@, level as nat),
{
    let parts = split_lines(s);
    let pad = margin_text(level);
    let mut out: Vec<String> = Vec::new();
    let mut i: usize = 0;
    while i < parts.len()
        invariant
            i <= parts.len(),
            texts(parts@) == lines(s@),
            pad@ == margin(level as nat),
            out.len() == i,
            forall|j: int| 0 <= j < i ==> out@[j]@ == indent_line(lines(s@)[j], level as nat),
        decreases parts.len() - i,
    {
        assert(texts(parts@)[i as int] == parts@[i as int]@);
        let mut line = String::new();
        if !parts[i].as_str().is_empty() {
            line.append(pad.as_str());
            line.append(parts[i].as_str());
        }
        assert(line@ =~= indent_line(lines(s@)[i as int], level as nat));
        out.push(line);
        i = i + 1;
    }
    assert(texts(parts@).len() == parts.len());
    assert(texts(out@) =~= Seq::new(
        lines(s@).len(),
        |i: int| indent_line(lines(s@)[i], level as nat),
    ));
    proof {
        reveal_strlit("\n");
        assert("\n"@ =~= seq!['\n']);
    }
    join_texts(&out, "\n")
}

} // verus!
