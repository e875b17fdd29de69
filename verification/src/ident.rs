//! Identifiers for manifest items, made from resource paths.

use vstd::prelude::*;
use crate::text::push_char;

verus! {

/// Whether `c` may stand in an identifier: the letters, digits and marks that
/// an XML name admits. A few of them may not start a name; that is accepted.
pub open spec fn id_char(c: char) -> bool {
    let n = c as u32;
    ||| 'A' <= c <= 'Z'
    ||| c == '_'
    ||| 'a' <= c <= 'z'
    ||| 0xC0 <= n <= 0xD6
    ||| 0xD8 <= n <= 0xF6
    ||| 0xF8 <= n <= 0x2FF
    ||| 0x370 <= n <= 0x37D
    ||| 0x37F <= n <= 0x1FFF
    ||| 0x200C <= n <= 0x200D
    ||| 0x2070 <= n <= 0x218F
    ||| 0x2C00 <= n <= 0x2FEF
    ||| 0x3001 <= n <= 0xD7FF
    ||| 0xF900 <= n <= 0xFDCF
    ||| 0xFDF0 <= n <= 0xFFFD
    ||| 0x10000 <= n <= 0xEFFFF
    ||| c == '-'
    ||| c == '.'
    ||| '0' <= c <= '9'
    ||| n == 0xB7
    ||| 0x0300 <= n <= 0x036F
    ||| 0x203F <= n <= 0x2040
}

/// `s` with an underscore in place of every character that may not stand in
/// an identifier.
pub open spec fn spec_to_id(s: Seq<char>) -> Seq<char> {
    Seq::new(
        s.len(),
        |i: int|
            if id_char(s[i]) {
                s[i]
            } else {
                '_'
            },
    )
}

/// Tells whether `c` may stand in an identifier.
pub fn is_id_char(c: char) -> (r: bool)
    ensures
        r == id_char(c),
{
    let n: u32 = c as u32;
    ('A' <= c && c <= 'Z') || c == '_' || ('a' <= c && c <= 'z') || (0xC0 <= n && n <= 0xD6) || (
    0xD8 <= n && n <= 0xF6) || (0xF8 <= n && n <= 0x2FF) || (0x370 <= n && n <= 0x37D) || (0x37F
        <= n && n <= 0x1FFF) || (0x200C <= n && n <= 0x200D) || (0x2070 <= n && n <= 0x218F) || (
    0x2C00 <= n && n <= 0x2FEF) || (0x3001 <= n && n <= 0xD7FF) || (0xF900 <= n && n <= 0xFDCF)
        || (0xFDF0 <= n && n <= 0xFFFD) || (0x10000 <= n && n <= 0xEFFFF) || c == '-' || c == '.'
        || ('0' <= c && c <= '9') || n == 0xB7 || (0x0300 <= n && n <= 0x036F) || (0x203F <= n
        && n <= 0x2040)
}

/// Makes an identifier of `s`: each character that may stand in one is kept,
/// every other becomes an underscore. Two paths may give the same identifier.
pub fn to_id(s: &str) -> (r: String)
    ensures
        r@ == spec_to_id(s@),
{
    let mut out = String::new();
    for c in it: s.chars()
        invariant
            it.seq() == s@,
            out@ == spec_to_id(s@.take(it.index() as int)),
    {
        let ghost k = it.index() as int;
        let ghost before = out@;
        if is_id_char(c) {
            push_char(&mut out, c);
        } else {
            push_char(&mut out, '_');
        }
        assert(out@ =~= spec_to_id(s@.take(k + 1)));
    }
    assert(s@.take(s@.len() as int) =~= s@);
    out
}

/// An identifier is as long as the path it was made from and holds only
/// characters that may stand in one.
pub proof fn identifier_is_clean(s: Seq<char>)
    ensures
        spec_to_id(s).len() == s.len(),
        forall|i: int| 0 <= i < s.len() ==> id_char(#[trigger] spec_to_id(s)[i]),
        spec_to_id(spec_to_id(s)) == spec_to_id(s),
{
    assert(spec_to_id(spec_to_id(s)) =~= spec_to_id(s));
}

} // verus!
