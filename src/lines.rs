//! Splitting text into lines on line feeds.
use vstd::prelude::*;

verus! {

/// The pieces of `text` between line feeds, in order. Text with `k` line
/// feeds has `k + 1` pieces; the empty text is one empty piece, and a final
/// line feed leaves an empty last piece.
pub open spec fn lines_of(text: Seq<char>) -> Seq<Seq<char>>
    decreases text.len(),
{
    if text.len() == 0 {
        seq![Seq::empty()]
    } else {
        let prev = lines_of(text.drop_last());
        if text.last() == '\n' {
            prev.push(Seq::empty())
        } else {
            prev.update(prev.len() - 1, prev.last().push(text.last()))
        }
    }
}

/// The views of a sequence of string slices.
pub open spec fn str_views(v: Seq<&str>) -> Seq<Seq<char>> {
    v.map_values(|l: &str| l@)
}

/// Relies on `str::split` with the pattern `'\n'`: the substrings of `text`
/// separated by line feeds, in order, empty ones included.
#[verifier::external_body]
pub(crate) fn split_lines(text: &str) -> (r: Vec<&str>)
    ensures
        str_views(r@) == lines_of(text@),
{
    text.split('\n').collect()
}

} // verus!
