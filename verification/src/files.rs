//! Which files the player takes, told by the extension of their names.
//!
//! A path is text with `/` between its components. A `/` at its end does
//! not count, and neither does a last component `.`, which names the folder
//! before it. The name of a file is the last component of what is left; its
//! extension is what follows the last dot of the name, unless that dot is
//! the name's first character. The name `..` is no file's name and has no
//! extension.

use crate::text::{chars_of, string_of};
use vstd::prelude::*;

verus! {

/// The greatest index at which `c` occurs in `s`.
pub open spec fn last_index(s: Seq<char>, c: char) -> Option<int>
    decreases s.len(),
{
    if s.len() == 0 {
        None
    } else if s.last() == c {
        Some(s.len() - 1)
    } else {
        last_index(s.drop_last(), c)
    }
}

/// `path` without what does not count at its end: every `/` there, and
/// every last component `.` with the `/` before it.
pub open spec fn trimmed(path: Seq<char>) -> Seq<char>
    decreases path.len(),
{
    if path.len() >= 1 && path.last() == '/' {
        trimmed(path.drop_last())
    } else if path.len() >= 2 && path.last() == '.' && path[path.len() - 2] == '/' {
        trimmed(path.take(path.len() - 2))
    } else {
        path
    }
}

/// The last component of `path`: of what is left when its end is trimmed,
/// what follows the last `/`, or all of it.
pub open spec fn file_name(path: Seq<char>) -> Seq<char> {
    let kept = trimmed(path);
    match last_index(kept, '/') {
        Some(slash) => kept.skip(slash + 1),
        None => kept,
    }
}

/// Whether `name` is `..`, the name of the folder above.
pub open spec fn is_parent(name: Seq<char>) -> bool {
    name.len() == 2 && name[0] == '.' && name[1] == '.'
}

/// The extension of the file that `path` names, without its dot. A name
/// without a dot has none, neither has one whose only dot comes first, and
/// neither has `..`.
pub open spec fn extension_of(path: Seq<char>) -> Option<Seq<char>> {
    let name = file_name(path);
    if is_parent(name) {
        None
    } else {
        match last_index(name, '.') {
            Some(dot) => if dot > 0 {
                Some(name.skip(dot + 1))
            } else {
                None
            },
            None => None,
        }
    }
}

/// What becomes of a file that the user opens by name.
#[derive(Clone, Copy, Debug, PartialEq, Eq, Structural)]
pub enum Admission {
    /// A FLAC file: it is queued.
    Queue,
    /// A file that the player knows of and passes over in silence: one with
    /// no extension, an MP3 file, a playlist file.
    Skip,
    /// A file of a type that the player does not handle: the user is told.
    Refuse,
}

/// What becomes of the file at `path` when the user opens it by name.
pub open spec fn admission(path: Seq<char>) -> Admission {
    match extension_of(path) {
        None => Admission::Skip,
        Some(extension) => if extension == "flac"@ {
            Admission::Queue
        } else if extension == "mp3"@ || extension == "m3u"@ {
            Admission::Skip
        } else {
            Admission::Refuse
        },
    }
}

/// Whether `path` names a FLAC file.
pub open spec fn is_flac(path: Seq<char>) -> bool {
    extension_of(path) == Some("flac"@)
}

/// Those of `paths` that name FLAC files, in their order.
pub open spec fn flac_only(paths: Seq<Seq<char>>) -> Seq<Seq<char>>
    decreases paths.len(),
{
    if paths.len() == 0 {
        Seq::empty()
    } else if is_flac(paths.last()) {
        flac_only(paths.drop_last()).push(paths.last())
    } else {
        flac_only(paths.drop_last())
    }
}

/// The texts of `strings`, in order.
pub open spec fn strings_view(strings: Seq<String>) -> Seq<Seq<char>> {
    Seq::new(strings.len(), |i: int| strings[i]@)
}

/// Where [`last_index`] finds a character, the character is.
pub proof fn lemma_last_index(s: Seq<char>, c: char)
    ensures
        last_index(s, c) matches Some(i) ==> 0 <= i < s.len() && s[i] == c,
    decreases s.len(),
{
    if s.len() > 0 && s.last() != c {
        lemma_last_index(s.drop_last(), c);
    }
}

/// Where `c` occurs last in `chars[from..to]`, as an index into `chars`.
fn find_last(chars: &Vec<char>, from: usize, to: usize, c: char) -> (found: Option<usize>)
    requires
        from <= to <= chars.len(),
    ensures
        match last_index(chars@.subrange(from as int, to as int), c) {
            Some(i) => found == Some((from + i) as usize),
            None => found is None,
        },
        found matches Some(i) ==> from <= i < to,
{
    let mut end: usize = to;
    while end > from
        invariant
            from <= end <= to <= chars.len(),
            last_index(chars@.subrange(from as int, to as int), c) == last_index(
                chars@.subrange(from as int, end as int),
                c,
            ),
        decreases end,
    {
        let ghost part = chars@.subrange(from as int, end as int);
        assert(part.last() == chars@[end - 1]);
        assert(part.drop_last() == chars@.subrange(from as int, end - 1));
        if chars[end - 1] == c {
            return Some(end - 1);
        }
        end -= 1;
    }
    None
}

/// Where the trimmed path ends: `chars[..end]` is `chars` without what does
/// not count at its end.
fn trimmed_end(chars: &Vec<char>) -> (end: usize)
    ensures
        end <= chars.len(),
        chars@.take(end as int) == trimmed(chars@),
{
    let mut end: usize = chars.len();
    let mut done = false;
    assert(chars@.take(end as int) == chars@);
    while !done
        invariant
            end <= chars.len(),
            trimmed(chars@.take(end as int)) == trimmed(chars@),
            done ==> trimmed(chars@.take(end as int)) == chars@.take(end as int),
        decreases end, (if done { 0int } else { 1int }),
    {
        let ghost kept = chars@.take(end as int);
        if end >= 1 && chars[end - 1] == '/' {
            assert(kept.drop_last() == chars@.take(end - 1));
            end -= 1;
        } else if end >= 2 && chars[end - 1] == '.' && chars[end - 2] == '/' {
            assert(kept.take(kept.len() - 2) == chars@.take(end - 2));
            end -= 2;
        } else {
            done = true;
        }
    }
    end
}

/// The extension of the file that `path` names: see [`extension_of`].
pub fn extension(path: &str) -> (found: Option<String>)
    ensures
        match extension_of(path@) {
            Some(extension) => found matches Some(text) && text@ == extension,
            None => found is None,
        },
{
    let chars = chars_of(path);
    let end = trimmed_end(&chars);
    let ghost kept = trimmed(path@);
    assert(chars@.subrange(0, end as int) == kept);
    proof {
        lemma_last_index(kept, '/');
        lemma_last_index(file_name(path@), '.');
    }
    let start: usize = match find_last(&chars, 0, end, '/') {
        Some(slash) => slash + 1,
        None => 0,
    };
    assert(chars@.subrange(start as int, end as int) == file_name(path@));
    if end - start == 2 && chars[start] == '.' && chars[start + 1] == '.' {
        return None;
    }
    match find_last(&chars, start, end, '.') {
        Some(dot) => {
            if dot > start {
                let text = string_of(&chars, dot + 1, end);
                assert(text@ == file_name(path@).skip(dot - start + 1));
                Some(text)
            } else {
                None
            }
        },
        None => None,
    }
}

/// Decides what becomes of the file at `path` when the user opens it by
/// name: see [`admission`].
pub fn classify(path: &str) -> (decision: Admission)
    ensures
        decision == admission(path@),
{
    match extension(path) {
        None => Admission::Skip,
        Some(found) => {
            if found == "flac".to_owned() {
                Admission::Queue
            } else if found == "mp3".to_owned() || found == "m3u".to_owned() {
                Admission::Skip
            } else {
                Admission::Refuse
            }
        },
    }
}

/// Tells whether `path` names a FLAC file, as a scan of a folder asks of
/// each entry.
pub fn names_flac(path: &str) -> (flac: bool)
    ensures
        flac == is_flac(path@),
{
    match extension(path) {
        None => false,
        Some(found) => found == "flac".to_owned(),
    }
}

/// Keeps the FLAC files among the entries of a scanned folder, in the order
/// in which the scan found them. Everything else is passed over.
pub fn select_flac(entries: &Vec<String>) -> (kept: Vec<String>)
    ensures
        strings_view(kept@) == flac_only(strings_view(entries@)),
{
    let ghost all = strings_view(entries@);
    let mut kept: Vec<String> = Vec::new();
    let mut i: usize = 0;
    while i < entries.len()
        invariant
            i <= entries.len(),
            all == strings_view(entries@),
            strings_view(kept@) == flac_only(all.take(i as int)),
        decreases entries.len() - i,
    {
        let ghost before = strings_view(kept@);
        assert(all.take(i + 1).drop_last() == all.take(i as int));
        assert(all.take(i + 1).last() == entries@[i as int]@);
        if names_flac(entries[i].as_str()) {
            kept.push(entries[i].clone());
            assert(strings_view(kept@) == before.push(entries@[i as int]@));
        }
        i += 1;
    }
    assert(all.take(i as int) == all);
    kept
}

} // verus!
