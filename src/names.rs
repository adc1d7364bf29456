use vstd::prelude::*;
use vstd::string::*;

verus! {

/// The pieces of `s` between its `:` separators, in order. A text without a
/// separator is one piece; each separator starts a new, possibly empty, piece.
pub open spec fn split_on_colon(s: Seq<char>) -> Seq<Seq<char>>
    decreases s.len(),
{
    if s.len() == 0 {
        seq![Seq::empty()]
    } else {
        let pieces = split_on_colon(s.drop_last());
        if s.last() == ':' {
            pieces.push(Seq::empty())
        } else {
            pieces.update(pieces.len() - 1, pieces.last().push(s.last()))
        }
    }
}

/// The views of a list of strings.
pub open spec fn string_views(v: Seq<String>) -> Seq<Seq<char>> {
    v.map_values(|x: String| x@)
}

/// Splits `s` at every `:`, as `str::split(':')` does.
pub fn split_colon(s: &str) -> (r: Vec<String>)
    ensures
        string_views(r@) == split_on_colon(s@),
{
    let len = s.unicode_len();
    let mut pieces: Vec<String> = Vec::new();
    let mut start: usize = 0;
    let mut i: usize = 0;
    assert(s@.take(0) =~= Seq::<char>::empty());
    assert(string_views(pieces@).push(s@.subrange(0, 0)) =~= seq![Seq::<char>::empty()]);
    while i < len
        invariant
            len == s@.len(),
            start <= i <= len,
            split_on_colon(s@.take(i as int)) == string_views(pieces@).push(
                s@.subrange(start as int, i as int),
            ),
        decreases len - i,
    {
        let c = s.get_char(i);
        let ghost before = s@.take(i as int);
        let ghost after = s@.take(i + 1);
        assert(after.drop_last() =~= before);
        if c == ':' {
            let piece = s.substring_char(start, i).to_owned();
            let ghost prev = pieces@;
            pieces.push(piece);
            assert(string_views(pieces@) =~= string_views(prev).push(piece@));
            assert(after.last() == ':');
            assert(split_on_colon(after) == split_on_colon(before).push(Seq::empty()));
            start = i + 1;
            assert(s@.subrange(start as int, i + 1) =~= Seq::<char>::empty());
            assert(split_on_colon(after) =~= string_views(pieces@).push(
                s@.subrange(start as int, i + 1),
            ));
        } else {
            assert(s@.subrange(start as int, i + 1) =~= s@.subrange(start as int, i as int).push(c));
            assert(split_on_colon(after) =~= string_views(pieces@).push(
                s@.subrange(start as int, i + 1),
            ));
        }
        i = i + 1;
    }
    let last = s.substring_char(start, len).to_owned();
    let ghost prev = pieces@;
    pieces.push(last);
    assert(s@.take(len as int) =~= s@);
    assert(string_views(pieces@) =~= string_views(prev).push(last@));
    pieces
}

} // verus!
