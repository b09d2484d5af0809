//! Path naming convention.
//!
//! A path is a `/`-separated string. For a source `dir/name.ext` with target
//! suffix `sfx`, the working marker is `dir/.name.sfx` and the destination is
//! `dir/name.sfx`. The file name is what follows the last `/`; the extension
//! is what follows the last `.` of the file name, unless that dot is its first
//! character; the stem is the file name without `.` and extension.

use vstd::prelude::*;

verus! {

/// Index of the last occurrence of `c` in `s`, or -1 when there is none.
pub open spec fn last_index_of(s: Seq<char>, c: char) -> int
    decreases s.len(),
{
    if s.len() == 0 {
        -1
    } else if s.last() == c {
        s.len() - 1
    } else {
        last_index_of(s.drop_last(), c)
    }
}

/// Index at which the file name of `p` begins.
pub open spec fn name_start(p: Seq<char>) -> int {
    last_index_of(p, '/') + 1
}

/// Directory part of `p`, with its trailing `/` (empty when `p` has no `/`).
pub open spec fn dir_of(p: Seq<char>) -> Seq<char> {
    p.subrange(0, name_start(p))
}

/// File name part of `p`.
pub open spec fn file_name_of(p: Seq<char>) -> Seq<char> {
    p.subrange(name_start(p), p.len() as int)
}

/// Stem of a file name.
pub open spec fn stem_of(name: Seq<char>) -> Seq<char> {
    let k = last_index_of(name, '.');
    if k > 0 {
        name.subrange(0, k)
    } else {
        name
    }
}

/// Extension of a file name, if it has one.
pub open spec fn extension_of(name: Seq<char>) -> Option<Seq<char>> {
    let k = last_index_of(name, '.');
    if k > 0 {
        Some(name.subrange(k + 1, name.len() as int))
    } else {
        None
    }
}

/// Path whose existence records a completed transcode of `src`.
pub open spec fn destination_of(src: Seq<char>, suffix: Seq<char>) -> Seq<char> {
    dir_of(src) + stem_of(file_name_of(src)) + seq!['.'] + suffix
}

/// Hidden path that the transcoder writes while a transcode of `src` runs.
pub open spec fn marker_of(src: Seq<char>, suffix: Seq<char>) -> Seq<char> {
    dir_of(src) + seq!['.'] + stem_of(file_name_of(src)) + seq!['.'] + suffix
}

proof fn lemma_last_index_bounds(s: Seq<char>, c: char)
    ensures
        -1 <= last_index_of(s, c) < s.len(),
        last_index_of(s, c) >= 0 ==> s[last_index_of(s, c)] == c,
    decreases s.len(),
{
    if s.len() > 0 && s.last() != c {
        lemma_last_index_bounds(s.drop_last(), c);
    }
}

/// Position of the last `c` in `s`.
fn find_last(s: &str, c: char) -> (r: Option<usize>)
    ensures
        match r {
            Some(i) => i == last_index_of(s@, c) && i < s@.len(),
            None => last_index_of(s@, c) == -1,
        },
        s@.len() <= usize::MAX,
{
    let n = s.unicode_len();
    let mut i: usize = n;
    assert(s@.subrange(0, n as int) =~= s@);
    while i > 0
        invariant
            i <= n,
            n == s@.len(),
            last_index_of(s@, c) == last_index_of(s@.subrange(0, i as int), c),
        decreases i,
    {
        let ch = s.get_char(i - 1);
        let ghost pre = s@.subrange(0, i as int);
        assert(pre.drop_last() =~= s@.subrange(0, i - 1));
        if ch == c {
            return Some(i - 1);
        }
        i = i - 1;
    }
    None
}

/// Position at which the file name of `p` begins.
fn file_name_start(p: &str) -> (r: usize)
    ensures
        r == name_start(p@),
        r <= p@.len(),
{
    proof {
        lemma_last_index_bounds(p@, '/');
    }
    match find_last(p, '/') {
        Some(i) => i + 1,
        None => 0,
    }
}

/// Stem of the file name of `path`.
pub fn file_stem(path: &str) -> (r: String)
    ensures
        r@ == stem_of(file_name_of(path@)),
{
    let start = file_name_start(path);
    let name = path.substring_char(start, path.unicode_len());
    proof {
        lemma_last_index_bounds(name@, '.');
    }
    match find_last(name, '.') {
        Some(k) if k > 0 => String::from_str(name.substring_char(0, k)),
        _ => String::from_str(name),
    }
}

/// Extension of the file name of `path`; `None` when it has none.
pub fn extension(path: &str) -> (r: Option<String>)
    ensures
        r matches Some(e) ==> extension_of(file_name_of(path@)) == Some(e@),
        r is None ==> extension_of(file_name_of(path@)) is None,
{
    let start = file_name_start(path);
    let name = path.substring_char(start, path.unicode_len());
    proof {
        lemma_last_index_bounds(name@, '.');
    }
    match find_last(name, '.') {
        Some(k) if k > 0 => Some(String::from_str(name.substring_char(k + 1, name.unicode_len()))),
        _ => None,
    }
}

/// Destination path of `src`: same directory and stem, extension `suffix`.
pub fn destination_path(src: &str, suffix: &str) -> (r: String)
    ensures
        r@ == destination_of(src@, suffix@),
{
    let start = file_name_start(src);
    let dir = String::from_str(src.substring_char(0, start));
    let stem = file_stem(src);
    let r = dir.concat(stem.as_str()).concat(".").concat(suffix);
    proof {
        reveal_strlit(".");
    }
    assert(r@ =~= destination_of(src@, suffix@));
    r
}

/// Working marker of `src`: same directory, the stem hidden behind a `.`,
/// extension `suffix`.
pub fn working_path(src: &str, suffix: &str) -> (r: String)
    ensures
        r@ == marker_of(src@, suffix@),
{
    let start = file_name_start(src);
    let dir = String::from_str(src.substring_char(0, start));
    let stem = file_stem(src);
    let r = dir.concat(".").concat(stem.as_str()).concat(".").concat(suffix);
    proof {
        reveal_strlit(".");
    }
    assert(r@ =~= marker_of(src@, suffix@));
    r
}

} // verus!
