//! File names of tracks: the final component of a path, its stem and its
//! extension, and the name under which a track is shown.

use vstd::prelude::*;
use vstd::std_specs::iter::IteratorSpec;

verus! {

/// The character that separates the components of a path.
pub const SEPARATOR: char = '/';

/// The character that starts an extension.
pub const DOT: char = '.';

/// The final component of `path`: what follows its last separator, or all
/// of `path` where it has none.
pub open spec fn file_name_of(path: Seq<char>) -> Seq<char> {
    match path.index_of_last(SEPARATOR) {
        Some(i) => path.skip(i + 1),
        None => path,
    }
}

/// Where the extension of `file_name` is split off: the index of its last
/// dot, unless that dot is the first character or there is none.
pub open spec fn extension_dot(file_name: Seq<char>) -> Option<int> {
    match file_name.index_of_last(DOT) {
        Some(i) => if i > 0 {
            Some(i)
        } else {
            None
        },
        None => None,
    }
}

/// The extension of `file_name`: what follows its last dot.  A name
/// without a dot has none, and neither has a name whose only dot comes
/// first.
pub open spec fn extension_of(file_name: Seq<char>) -> Option<Seq<char>> {
    match extension_dot(file_name) {
        Some(i) => Some(file_name.skip(i + 1)),
        None => None,
    }
}

/// The stem of `file_name`: what precedes the dot of its extension, or the
/// whole name where it has no extension.
pub open spec fn stem_of(file_name: Seq<char>) -> Seq<char> {
    match extension_dot(file_name) {
        Some(i) => file_name.take(i),
        None => file_name,
    }
}

/// The character shown for `c` in a track's name: a space for an
/// underscore, `c` itself otherwise.
pub open spec fn shown_char(c: char) -> char {
    if c == '_' {
        ' '
    } else {
        c
    }
}

/// The name under which the track at `path` is shown: the stem of its file
/// name, each underscore replaced by a space.
pub open spec fn display_name_of(path: Seq<char>) -> Seq<char> {
    stem_of(file_name_of(path)).map_values(|c: char| shown_char(c))
}

/// An index `at` after which `c` does not occur in `s`, and at which it
/// does, is the last occurrence of `c`; a sequence that holds no `c` has
/// no last occurrence.
pub proof fn lemma_index_of_last_unique(s: Seq<char>, c: char, at: Option<int>)
    requires
        match at {
            Some(k) => 0 <= k < s.len() && s[k] == c && forall|j: int|
                k < j < s.len() ==> s[j] != c,
            None => forall|j: int| 0 <= j < s.len() ==> s[j] != c,
        },
    ensures
        s.index_of_last(c) == at,
{
    s.index_of_last_ensures(c);
    if let Some(k) = at {
        assert(s.contains(c));
    }
}

/// The characters of `s`, in order.
pub fn chars_of(s: &str) -> (v: Vec<char>)
    ensures
        v@ == s@,
{
    let mut v: Vec<char> = Vec::new();
    let mut it = s.chars();
    loop
        invariant
            it.remaining() == s@.skip(v@.len() as int),
            v@ == s@.take(v@.len() as int),
            v@.len() <= s@.len(),
        ensures
            v@.len() == s@.len(),
        decreases s@.len() - v@.len(),
    {
        match it.next() {
            Some(c) => {
                v.push(c);
            },
            None => {
                break ;
            },
        }
    }
    v
}

/// The last occurrence of `c` in `s` at or after `from`, as an index into
/// `s`.
fn last_index_from(s: &Vec<char>, from: usize, c: char) -> (found: Option<usize>)
    requires
        from <= s.len(),
    ensures
        match found {
            Some(k) => from <= k < s.len() && s@.skip(from as int).index_of_last(c) == Some(
                k - from,
            ),
            None => s@.skip(from as int).index_of_last(c) is None,
        },
{
    let ghost tail = s@.skip(from as int);
    let mut i: usize = s.len();
    while i > from
        invariant
            from <= i <= s.len(),
            tail == s@.skip(from as int),
            forall|j: int| i <= j < s.len() ==> s@[j] != c,
        decreases i,
    {
        i = i - 1;
        if s[i] == c {
            proof {
                lemma_index_of_last_unique(tail, c, Some(i - from));
            }
            return Some(i);
        }
    }
    proof {
        lemma_index_of_last_unique(tail, c, None);
    }
    None
}

/// Where the file name of a path starts and where its stem ends.
struct NameParts {
    /// Index of the first character of the file name.
    name_start: usize,
    /// Index of the dot of the extension, where the file name has one.
    dot: Option<usize>,
}

/// Splits the path `s` into directory, stem and extension.
fn name_parts(s: &Vec<char>) -> (parts: NameParts)
    ensures
        parts.name_start <= s.len(),
        file_name_of(s@) == s@.skip(parts.name_start as int),
        match parts.dot {
            Some(d) => parts.name_start < d < s.len() && extension_dot(file_name_of(s@)) == Some(
                d - parts.name_start,
            ),
            None => extension_dot(file_name_of(s@)) is None,
        },
{
    let name_start: usize = match last_index_from(s, 0, SEPARATOR) {
        Some(k) => k + 1,
        None => 0,
    };
    assert(s@.skip(0) == s@);
    let dot = match last_index_from(s, name_start, DOT) {
        Some(d) => if d > name_start {
            Some(d)
        } else {
            None
        },
        None => None,
    };
    NameParts { name_start, dot }
}

/// Whether the file name of `path` has the extension `extension`, compared
/// character by character: upper and lower case differ.
pub fn has_extension(path: &str, extension: &str) -> (b: bool)
    ensures
        b == (extension_of(file_name_of(path@)) == Some(extension@)),
{
    let s = chars_of(path);
    let want = chars_of(extension);
    let parts = name_parts(&s);
    match parts.dot {
        None => false,
        Some(d) => {
            let start: usize = d + 1;
            let ghost have = s@.skip(start as int);
            assert(have == file_name_of(s@).skip(d - parts.name_start + 1));
            if s.len() - start != want.len() {
                return false;
            }
            let mut i: usize = 0;
            while i < want.len()
                invariant
                    i <= want.len(),
                    start + want.len() == s.len(),
                    have == s@.skip(start as int),
                    want@ == extension@,
                    extension_of(file_name_of(path@)) == Some(have),
                    forall|j: int| 0 <= j < i ==> have[j] == want@[j],
                decreases want.len() - i,
            {
                if s[start + i] != want[i] {
                    assert(have[i as int] != want@[i as int]);
                    return false;
                }
                i = i + 1;
            }
            assert(have =~= want@);
            true
        },
    }
}

/// The name under which the track at `path` is shown.
pub fn display_name(path: &str) -> (name: String)
    ensures
        name@ == display_name_of(path@),
{
    let s = chars_of(path);
    let parts = name_parts(&s);
    let end: usize = match parts.dot {
        Some(d) => d,
        None => s.len(),
    };
    let ghost stem = stem_of(file_name_of(s@));
    assert(stem == s@.subrange(parts.name_start as int, end as int));
    let mut name = String::new();
    let mut i: usize = parts.name_start;
    while i < end
        invariant
            parts.name_start <= i <= end <= s.len(),
            stem == s@.subrange(parts.name_start as int, end as int),
            name@ == stem.take(i - parts.name_start).map_values(|c: char| shown_char(c)),
        decreases end - i,
    {
        let c = s[i];
        name.push(if c == '_' { ' ' } else { c });
        i = i + 1;
    }
    assert(stem.take(end - parts.name_start) == stem);
    name
}

/// `String::push` of std appends the character to the string.
pub assume_specification[ String::push ](s: &mut String, ch: char)
    ensures
        final(s)@ == old(s)@.push(ch),
;

} // verus!
