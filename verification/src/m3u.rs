//! The playlist file: plain text, one track path per line, in queue order.
//!
//! Writing ends every path with a line feed. Reading takes every line as a
//! path, as it stands; text after the last line feed counts as a line too.
//! Nothing is trimmed and no line is skipped, so what was written is what
//! is read, as long as no path holds a line feed itself.

use crate::text::chars_of;
use vstd::prelude::*;

verus! {

/// The text of a playlist file for `paths`: each path, followed by a line
/// feed.
pub open spec fn serialize(paths: Seq<Seq<char>>) -> Seq<char>
    decreases paths.len(),
{
    if paths.len() == 0 {
        Seq::empty()
    } else {
        serialize(paths.drop_last()) + paths.last() + seq!['\n']
    }
}

/// `text` cut at every line feed: the pieces between the line feeds, of
/// which there is one more than there are line feeds.
pub open spec fn pieces(text: Seq<char>) -> Seq<Seq<char>>
    decreases text.len(),
{
    if text.len() == 0 {
        seq![Seq::empty()]
    } else {
        let before = pieces(text.drop_last());
        if text.last() == '\n' {
            before.push(Seq::empty())
        } else {
            before.drop_last().push(before.last().push(text.last()))
        }
    }
}

/// The paths that a playlist file with the contents `text` lists: its
/// lines. What follows the last line feed is a line if it is not empty.
pub open spec fn parse(text: Seq<char>) -> Seq<Seq<char>> {
    if pieces(text).last().len() == 0 {
        pieces(text).drop_last()
    } else {
        pieces(text)
    }
}

/// Whether `path` can stand on a line of its own: it holds no line feed.
pub open spec fn fits_on_a_line(path: Seq<char>) -> bool {
    forall|i: int| 0 <= i < path.len() ==> path[i] != '\n'
}

/// Cutting never gives nothing: there is always a last piece.
pub proof fn lemma_pieces_nonempty(text: Seq<char>)
    ensures
        pieces(text).len() >= 1,
    decreases text.len(),
{
    if text.len() > 0 {
        lemma_pieces_nonempty(text.drop_last());
    }
}

/// Text without a line feed, put behind other text, lengthens the last
/// piece and makes no new one.
pub proof fn lemma_pieces_append(text: Seq<char>, more: Seq<char>)
    requires
        fits_on_a_line(more),
    ensures
        pieces(text).len() >= 1,
        pieces(text + more) == pieces(text).drop_last().push(pieces(text).last() + more),
    decreases more.len(),
{
    lemma_pieces_nonempty(text);
    if more.len() == 0 {
        assert(text + more == text);
        assert(pieces(text).last() + more == pieces(text).last());
        assert(pieces(text).drop_last().push(pieces(text).last()) == pieces(text));
    } else {
        let shorter = more.drop_last();
        lemma_pieces_append(text, shorter);
        lemma_pieces_nonempty(text + shorter);
        assert((text + more).drop_last() == text + shorter);
        assert((text + more).last() == more.last());
        assert(pieces(text).last() + shorter.push(more.last()) == (pieces(text).last()
            + shorter).push(more.last()));
        assert(shorter.push(more.last()) == more);
        assert(pieces(text + more) == pieces(text).drop_last().push(pieces(text).last() + more));
    }
}

/// The file written for paths that hold no line feed, cut at its line
/// feeds, gives the paths, and an empty piece after the last line feed.
pub proof fn lemma_pieces_of_serialized(paths: Seq<Seq<char>>)
    requires
        forall|i: int| 0 <= i < paths.len() ==> fits_on_a_line(#[trigger] paths[i]),
    ensures
        pieces(serialize(paths)) == paths.push(Seq::empty()),
    decreases paths.len(),
{
    if paths.len() == 0 {
        assert(pieces(serialize(paths)) == paths.push(Seq::empty()));
    } else {
        let front = paths.drop_last();
        lemma_pieces_of_serialized(front);
        lemma_pieces_append(serialize(front), paths.last());
        let line = serialize(front) + paths.last();
        assert(pieces(line) == front.push(Seq::<char>::empty() + paths.last()));
        assert(Seq::<char>::empty() + paths.last() == paths.last());
        assert(front.push(paths.last()) == paths);
        assert(serialize(paths) == line.push('\n'));
        assert(serialize(paths).drop_last() == line);
        assert(pieces(serialize(paths)) == pieces(line).push(Seq::empty()));
    }
}

/// A playlist that is written and read again is the same playlist.
///
/// For any paths of which none holds a line feed, reading the file that was
/// written for them gives the same paths, as many and in the same order.
pub proof fn law_round_trip(paths: Seq<Seq<char>>)
    requires
        forall|i: int| 0 <= i < paths.len() ==> fits_on_a_line(#[trigger] paths[i]),
    ensures
        parse(serialize(paths)) == paths,
{
    lemma_pieces_of_serialized(paths);
    assert(paths.push(Seq::empty()).drop_last() == paths);
}

/// Writes the text of a playlist file for `paths`: see [`serialize`].
pub fn to_text(paths: &Vec<String>) -> (text: String)
    ensures
        text@ == serialize(crate::files::strings_view(paths@)),
{
    let ghost all = crate::files::strings_view(paths@);
    let mut text = String::new();
    let mut i: usize = 0;
    while i < paths.len()
        invariant
            i <= paths.len(),
            all == crate::files::strings_view(paths@),
            text@ == serialize(all.take(i as int)),
        decreases paths.len() - i,
    {
        assert(all.take(i + 1).drop_last() == all.take(i as int));
        assert(all.take(i + 1).last() == paths@[i as int]@);
        text.append(paths[i].as_str());
        text.push('\n');
        i += 1;
    }
    assert(all.take(i as int) == all);
    text
}

/// Reads the paths that a playlist file with the contents `text` lists:
/// see [`parse`].
pub fn from_text(text: &str) -> (paths: Vec<String>)
    ensures
        crate::files::strings_view(paths@) == parse(text@),
{
    let chars = chars_of(text);
    let mut paths: Vec<String> = Vec::new();
    let mut line = String::new();
    let mut i: usize = 0;
    while i < chars.len()
        invariant
            i <= chars.len(),
            chars@ == text@,
            crate::files::strings_view(paths@).push(line@) == pieces(text@.take(i as int)),
        decreases chars.len() - i,
    {
        let ghost done = crate::files::strings_view(paths@);
        let ghost before = pieces(text@.take(i as int));
        assert(text@.take(i + 1).drop_last() == text@.take(i as int));
        assert(text@.take(i + 1).last() == chars@[i as int]);
        assert(before.last() == line@);
        assert(before.drop_last() == done);
        if chars[i] == '\n' {
            paths.push(line);
            line = String::new();
            assert(crate::files::strings_view(paths@) == before);
        } else {
            line.push(chars[i]);
        }
        i += 1;
    }
    assert(text@.take(i as int) == text@);
    let ghost done = crate::files::strings_view(paths@);
    assert(pieces(text@).last() == line@);
    assert(pieces(text@).drop_last() == done);
    if line.as_str().unicode_len() > 0 {
        paths.push(line);
        assert(crate::files::strings_view(paths@) == pieces(text@));
    }
    paths
}

} // verus!
