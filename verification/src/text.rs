//! Text assembly: the few operations on `String` that the generators share.

use vstd::prelude::*;
use vstd::string::*;

verus! {

/// The views of a list of texts, in order.
pub open spec fn text_views(parts: Seq<String>) -> Seq<Seq<char>> {
    parts.map_values(|part: String| part@)
}

/// The texts of `parts` in order, with `separator` between each two
/// neighbours.
pub open spec fn joined(parts: Seq<Seq<char>>, separator: Seq<char>) -> Seq<char>
    decreases parts.len(),
{
    if parts.len() == 0 {
        Seq::empty()
    } else if parts.len() == 1 {
        parts[0]
    } else {
        joined(parts.drop_last(), separator) + separator + parts.last()
    }
}

/// A visibility as it stands before the item it belongs to: followed by a
/// blank, or nothing at all where no visibility is written.
pub open spec fn visibility_prefix(visibility: Seq<char>) -> Seq<char> {
    if visibility.len() == 0 {
        Seq::empty()
    } else {
        visibility + " "@
    }
}

/// Calls `String::push`: appends one character to the text.
#[verifier::external_body]
pub(crate) fn push_char(s: &mut String, c: char)
    ensures
        final(s)@ == old(s)@.push(c),
{
    s.push(c)
}

/// Joins the texts in order, with the separator between each two neighbours.
pub fn join(parts: &Vec<String>, separator: &str) -> (r: String)
    ensures
        r@ == joined(text_views(parts@), separator@),
{
    let mut out = String::new();
    let mut index: usize = 0;
    while index < parts.len()
        invariant
            index <= parts.len(),
            out@ == joined(text_views(parts@).take(index as int), separator@),
        decreases parts.len() - index,
    {
        proof {
            let views = text_views(parts@);
            assert(views.take(index + 1).drop_last() =~= views.take(index as int));
            assert(views.take(index + 1).last() == parts@[index as int]@);
            if index > 0 {
                assert(views.take(index as int).len() > 0);
            }
        }
        if index > 0 {
            out.append(separator);
        }
        out.append(parts[index].as_str());
        proof {
            let views = text_views(parts@);
            if index == 0 {
                assert(views.take(1).len() == 1);
                assert(out@ =~= views.take(1)[0]);
            }
        }
        index += 1;
    }
    proof {
        assert(text_views(parts@).take(parts.len() as int) =~= text_views(parts@));
    }
    out
}

/// Writes a visibility before an item.
pub fn push_visibility(out: &mut String, visibility: &str)
    ensures
        final(out)@ == old(out)@ + visibility_prefix(visibility@),
{
    if !visibility.is_empty() {
        out.append(visibility);
        out.append(" ");
        assert(final(out)@ =~= old(out)@ + (visibility@ + " "@));
    } else {
        assert(out@ =~= old(out)@ + Seq::<char>::empty());
    }
}

/// True where the two texts are the same.
pub fn same_text(a: &str, b: &str) -> (r: bool)
    ensures
        r == (a@ == b@),
{
    let left = a.to_owned();
    let right = b.to_owned();
    left == right
}

} // verus!
