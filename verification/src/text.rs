//! Building blocks for text: pushing, joining, splitting into lines,
//! replacing characters and writing numbers in decimal.

use vstd::prelude::*;
use vstd::string::*;

verus! {

/// The views of a vector of strings, in order.
pub open spec fn texts(v: Seq<String>) -> Seq<Seq<char>> {
    Seq::new(v.len(), |i: int| v[i]@)
}

/// `parts` written one after the other with `sep` between neighbours.
pub open spec fn join(parts: Seq<Seq<char>>, sep: Seq<char>) -> Seq<char>
    decreases parts.len(),
{
    if parts.len() == 0 {
        Seq::empty()
    } else if parts.len() == 1 {
        parts[0]
    } else {
        join(parts.drop_last(), sep) + sep + parts.last()
    }
}

/// `s` with every occurrence of `from` replaced by the text `to`.
pub open spec fn replace_char(s: Seq<char>, from: char, to: Seq<char>) -> Seq<char>
    decreases s.len(),
{
    if s.len() == 0 {
        Seq::empty()
    } else if s.last() == from {
        replace_char(s.drop_last(), from, to) + to
    } else {
        replace_char(s.drop_last(), from, to).push(s.last())
    }
}

/// `line` without the carriage return that ends it, if one does.
pub open spec fn strip_cr(line: Seq<char>) -> Seq<char> {
    if line.len() > 0 && line.last() == '\r' {
        line.drop_last()
    } else {
        line
    }
}

/// The lines of `s` that a line feed has closed, and what follows the last
/// line feed.
pub open spec fn scan_lines(s: Seq<char>) -> (Seq<Seq<char>>, Seq<char>)
    decreases s.len(),
{
    if s.len() == 0 {
        (Seq::empty(), Seq::empty())
    } else {
        let (closed, open) = scan_lines(s.drop_last());
        if s.last() == '\n' {
            (closed.push(strip_cr(open)), Seq::empty())
        } else {
            (closed, open.push(s.last()))
        }
    }
}

/// The lines of `s`. A line ends at a line feed, or at a carriage return
/// directly followed by one; neither belongs to the line. Text after the last
/// line feed is a line of its own unless it is empty.
pub open spec fn lines(s: Seq<char>) -> Seq<Seq<char>> {
    let (closed, open) = scan_lines(s);
    if open.len() == 0 {
        closed
    } else {
        closed.push(open)
    }
}

/// The parts of `s` that a separator has closed, and what follows the last
/// separator.
pub open spec fn scan_parts(s: Seq<char>, sep: char) -> (Seq<Seq<char>>, Seq<char>)
    decreases s.len(),
{
    if s.len() == 0 {
        (Seq::empty(), Seq::empty())
    } else {
        let (closed, open) = scan_parts(s.drop_last(), sep);
        if s.last() == sep {
            (closed.push(open), Seq::empty())
        } else {
            (closed, open.push(s.last()))
        }
    }
}

/// The parts of `s` between its separators, in order. There is one part
/// more than there are separators; a part may be empty.
pub open spec fn parts(s: Seq<char>, sep: char) -> Seq<Seq<char>> {
    let (closed, open) = scan_parts(s, sep);
    closed.push(open)
}

/// Whether `s` holds no line feed.
pub open spec fn one_line(s: Seq<char>) -> bool {
    forall|i: int| 0 <= i < s.len() ==> s[i] != '\n'
}

/// A text without a line feed is one line, or none where it is empty. A text
/// with a line feed is its first line, up to the first line feed, followed
/// by the lines of what comes behind that line feed.
pub proof fn lines_by_first_line(first: Seq<char>, rest: Seq<char>)
    requires
        one_line(first),
    ensures
        lines(first) == if first.len() == 0 {
            Seq::<Seq<char>>::empty()
        } else {
            seq![first]
        },
        lines(first + seq!['\n'] + rest) == seq![strip_cr(first)] + lines(rest),
{
    scan_one_line(first);
    scan_behind_first_line(first, rest);
    assert(lines(first + seq!['\n'] + rest) =~= seq![strip_cr(first)] + lines(rest));
    if first.len() > 0 {
        assert(lines(first) =~= seq![first]);
    }
}

/// In a text without a line feed no line is closed.
proof fn scan_one_line(s: Seq<char>)
    requires
        one_line(s),
    ensures
        scan_lines(s) == (Seq::<Seq<char>>::empty(), s),
    decreases s.len(),
{
    if s.len() > 0 {
        scan_one_line(s.drop_last());
        assert(s.drop_last().push(s.last()) =~= s);
    } else {
        assert(s =~= Seq::<char>::empty());
    }
}

/// Behind the first line, the lines that are closed and the text that is
/// still open are those of the rest.
proof fn scan_behind_first_line(first: Seq<char>, rest: Seq<char>)
    requires
        one_line(first),
    ensures
        scan_lines(first + seq!['\n'] + rest) == (
            seq![strip_cr(first)] + scan_lines(rest).0,
            scan_lines(rest).1,
        ),
    decreases rest.len(),
{
    let all = first + seq!['\n'] + rest;
    if rest.len() == 0 {
        scan_one_line(first);
        assert(all.drop_last() =~= first);
        assert(all.last() == '\n');
        assert(seq![strip_cr(first)] + scan_lines(rest).0 =~= Seq::<Seq<char>>::empty().push(
            strip_cr(first),
        ));
    } else {
        scan_behind_first_line(first, rest.drop_last());
        assert(all.drop_last() =~= first + seq!['\n'] + rest.drop_last());
        assert(all.last() == rest.last());
        let (closed, open) = scan_lines(rest.drop_last());
        if rest.last() == '\n' {
            assert(seq![strip_cr(first)] + closed.push(strip_cr(open)) =~= (seq![strip_cr(first)]
                + closed).push(strip_cr(open)));
        }
    }
}

/// The character that stands for the digit `d`, which is below ten.
pub open spec fn digit_char(d: int) -> char {
    if d == 0 {
        '0'
    } else if d == 1 {
        '1'
    } else if d == 2 {
        '2'
    } else if d == 3 {
        '3'
    } else if d == 4 {
        '4'
    } else if d == 5 {
        '5'
    } else if d == 6 {
        '6'
    } else if d == 7 {
        '7'
    } else if d == 8 {
        '8'
    } else {
        '9'
    }
}

/// The decimal notation of `n`, without leading zeros.
pub open spec fn decimal(n: nat) -> Seq<char>
    decreases n,
{
    if n < 10 {
        seq![digit_char(n as int)]
    } else {
        decimal(n / 10).push(digit_char((n % 10) as int))
    }
}

/// Replacing a character by a single other one keeps the length and changes
/// only the places where the character stood.
pub proof fn replace_char_by_char(s: Seq<char>, from: char, to: char)
    ensures
        replace_char(s, from, seq![to]).len() == s.len(),
        forall|i: int|
            0 <= i < s.len() ==> (#[trigger] replace_char(s, from, seq![to])[i]) == (if s[i]
                == from {
                to
            } else {
                s[i]
            }),
    decreases s.len(),
{
    if s.len() > 0 {
        replace_char_by_char(s.drop_last(), from, to);
        if s.last() == from {
            assert(replace_char(s, from, seq![to]) == replace_char(s.drop_last(), from, seq![to])
                + seq![to]);
        } else {
            assert(replace_char(s, from, seq![to]) == replace_char(
                s.drop_last(),
                from,
                seq![to],
            ).push(s.last()));
        }
    }
}

/// `String::push` appends one character and leaves the rest as it was.
#[verifier::external_body]
pub(crate) fn push_char(s: &mut String, c: char)
    ensures
        final(s)@ == old(s)@.push(c),
{
    s.push(c)
}

/// A string that holds `parts` joined by `sep`.
pub fn join_texts(parts: &Vec<String>, sep: &str) -> (r: String)
    ensures
        r@ == join(texts(parts@), sep@),
{
    let mut out = String::new();
    let mut i: usize = 0;
    while i < parts.len()
        invariant
            i <= parts.len(),
            out@ == join(texts(parts@).take(i as int), sep@),
        decreases parts.len() - i,
    {
        let ghost before = texts(parts@).take(i as int);
        let ghost after = texts(parts@).take(i as int + 1);
        assert(after.drop_last() =~= before);
        assert(after.last() == parts@[i as int]@);
        if i > 0 {
            out.append(sep);
        }
        out.append(parts[i].as_str());
        assert(out@ =~= join(after, sep@));
        i = i + 1;
    }
    assert(texts(parts@).take(parts.len() as int) =~= texts(parts@));
    out
}

/// A copy of `s` in which the text `to` stands for every `from`.
pub fn replace_each(s: &str, from: char, to: &str) -> (r: String)
    ensures
        r@ == replace_char(s@, from, to@),
{
    let mut out = String::new();
    for c in it: s.chars()
        invariant
            it.seq() == s@,
            out@ == replace_char(s@.take(it.index() as int), from, to@),
    {
        let ghost k = it.index() as int;
        assert(s@.take(k + 1).drop_last() =~= s@.take(k));
        assert(s@.take(k + 1).last() == c);
        if c == from {
            out.append(to);
        } else {
            push_char(&mut out, c);
        }
    }
    assert(s@.take(s@.len() as int) =~= s@);
    out
}

/// `String::pop` on a string that is not empty: the last character goes, the
/// others stay.
#[verifier::external_body]
pub(crate) fn pop_char(s: &mut String)
    requires
        old(s)@.len() > 0,
    ensures
        final(s)@ == old(s)@.drop_last(),
{
    s.pop();
}

/// The lines of `s`, each as a string of its own.
pub fn split_lines(s: &str) -> (r: Vec<String>)
    ensures
        texts(r@) == lines(s@),
{
    let mut closed: Vec<String> = Vec::new();
    let mut open = String::new();
    let mut last_is_cr = false;
    assert(texts(closed@) =~= scan_lines(s@.take(0)).0);
    for c in it: s.chars()
        invariant
            it.seq() == s@,
            texts(closed@) == scan_lines(s@.take(it.index() as int)).0,
            open@ == scan_lines(s@.take(it.index() as int)).1,
            last_is_cr == (open@.len() > 0 && open@.last() == '\r'),
    {
        let ghost k = it.index() as int;
        assert(s@.take(k + 1).drop_last() =~= s@.take(k));
        assert(s@.take(k + 1).last() == c);
        if c == '\n' {
            if last_is_cr {
                pop_char(&mut open);
            }
            let ghost before = texts(closed@);
            let ghost line = open@;
            closed.push(open);
            assert(texts(closed@) =~= before.push(line));
            open = String::new();
            last_is_cr = false;
        } else {
            push_char(&mut open, c);
            last_is_cr = c == '\r';
        }
    }
    assert(s@.take(s@.len() as int) =~= s@);
    if !open.as_str().is_empty() {
        let ghost before = texts(closed@);
        let ghost line = open@;
        closed.push(open);
        assert(texts(closed@) =~= before.push(line));
    }
    closed
}

/// The parts of `s` between its separators, each as a string of its own.
pub fn split_parts(s: &str, sep: char) -> (r: Vec<String>)
    ensures
        texts(r@) == parts(s@, sep),
{
    let mut closed: Vec<String> = Vec::new();
    let mut open = String::new();
    assert(texts(closed@) =~= scan_parts(s@.take(0), sep).0);
    for c in it: s.chars()
        invariant
            it.seq() == s@,
            texts(closed@) == scan_parts(s@.take(it.index() as int), sep).0,
            open@ == scan_parts(s@.take(it.index() as int), sep).1,
    {
        let ghost k = it.index() as int;
        assert(s@.take(k + 1).drop_last() =~= s@.take(k));
        assert(s@.take(k + 1).last() == c);
        if c == sep {
            let ghost before = texts(closed@);
            let ghost part = open@;
            closed.push(open);
            assert(texts(closed@) =~= before.push(part));
            open = String::new();
        } else {
            push_char(&mut open, c);
        }
    }
    assert(s@.take(s@.len() as int) =~= s@);
    let ghost before = texts(closed@);
    let ghost part = open@;
    closed.push(open);
    assert(texts(closed@) =~= before.push(part));
    closed
}

/// Whether two texts hold the same characters.
pub fn same_text(a: &str, b: &str) -> (r: bool)
    ensures
        r == (a@ == b@),
{
    let x = a.to_owned();
    let y = b.to_owned();
    x == y
}

/// The character for a digit below ten.
fn digit_of(d: usize) -> (c: char)
    requires
        d < 10,
    ensures
        c == digit_char(d as int),
{
    if d == 0 {
        '0'
    } else if d == 1 {
        '1'
    } else if d == 2 {
        '2'
    } else if d == 3 {
        '3'
    } else if d == 4 {
        '4'
    } else if d == 5 {
        '5'
    } else if d == 6 {
        '6'
    } else if d == 7 {
        '7'
    } else if d == 8 {
        '8'
    } else {
        '9'
    }
}

/// `n` written in decimal.
pub fn decimal_text(n: usize) -> (r: String)
    ensures
        r@ == decimal(n as nat),
    decreases n,
{
    if n < 10 {
        let mut out = String::new();
        push_char(&mut out, digit_of(n));
        assert(out@ =~= seq![digit_char(n as int)]);
        out
    } else {
        let mut out = decimal_text(n / 10);
        push_char(&mut out, digit_of(n % 10));
        out
    }
}

} // verus!
