//! Text helpers shared by the renderers and the property lookup.

use vstd::prelude::*;
use vstd::utf8::*;

verus! {

/// Whether two strings hold the same characters.
pub fn same_text(a: &str, b: &str) -> (same: bool)
    ensures
        same == (a@ == b@),
{
    let left = a.as_bytes();
    let right = b.as_bytes();
    proof {
        // Equal encodings decode to equal texts.
        encode_utf8_decode_utf8(a@);
        encode_utf8_decode_utf8(b@);
    }
    if left.len() != right.len() {
        return false;
    }
    let mut i: usize = 0;
    while i < left.len()
        invariant
            i <= left.len() == right.len(),
            forall|k: int| 0 <= k < i ==> left@[k] == right@[k],
            left@ == encode_utf8(a@),
            right@ == encode_utf8(b@),
            decode_utf8(encode_utf8(a@)) == a@,
            decode_utf8(encode_utf8(b@)) == b@,
        decreases left.len() - i,
    {
        if left[i] != right[i] {
            return false;
        }
        i = i + 1;
    }
    assert(left@ =~= right@);
    true
}

/// Two texts with one space between them; an empty text takes no room
/// and brings no space.
pub open spec fn spaced_pair(left: Seq<char>, right: Seq<char>) -> Seq<char> {
    if right.len() == 0 {
        left
    } else if left.len() == 0 {
        right
    } else {
        left + seq![' '] + right
    }
}

/// The texts that are not empty, in order, with single spaces between
/// them.
pub open spec fn spaced(parts: Seq<Seq<char>>) -> Seq<char>
    decreases parts.len(),
{
    if parts.len() == 0 {
        Seq::empty()
    } else {
        spaced_pair(spaced(parts.drop_last()), parts.last())
    }
}

/// Adds a text to a line of spaced texts.
pub fn append_spaced(line: &mut String, part: &str)
    ensures
        final(line)@ == spaced_pair(old(line)@, part@),
{
    if !part.is_empty() {
        if !line.as_str().is_empty() {
            proof {
                reveal_strlit(" ");
                assert(" "@ =~= seq![' ']);
            }
            line.append(" ");
        }
        line.append(part);
    }
    assert(line@ =~= spaced_pair(old(line)@, part@));
}

/// A line with one more text at its end.
pub proof fn lemma_spaced_push(parts: Seq<Seq<char>>, part: Seq<char>)
    ensures
        spaced(parts.push(part)) == spaced_pair(spaced(parts), part),
{
    assert(parts.push(part).drop_last() =~= parts);
}

/// Texts that are all empty make an empty line.
pub proof fn lemma_spaced_empty(parts: Seq<Seq<char>>)
    requires
        forall|i: int| 0 <= i < parts.len() ==> parts[i].len() == 0,
    ensures
        spaced(parts).len() == 0,
    decreases parts.len(),
{
    if parts.len() > 0 {
        lemma_spaced_empty(parts.drop_last());
    }
}

} // verus!
