//! Path manipulation on plain strings.
//!
//! Paths are held as strings whose components are separated by `/`. The file
//! name of a path is everything after the last `/` (the whole string when
//! there is no `/`). An extension is everything after the last `.` of the
//! file name, provided that `.` is not the file name's first character (a
//! name with only a leading dot is a hidden file without an extension).

use vstd::prelude::*;

verus! {

/// The position of the last occurrence of `c` in `s`, if any.
pub open spec fn last_pos(s: Seq<char>, c: char) -> Option<int>
    decreases s.len(),
{
    if s.len() == 0 {
        None
    } else if s[s.len() - 1] == c {
        Some(s.len() - 1)
    } else {
        last_pos(s.drop_last(), c)
    }
}

/// `last_pos` finds the last occurrence: the returned index holds `c` and no
/// later index does; `None` means `c` does not occur at all.
pub proof fn lemma_last_pos(s: Seq<char>, c: char)
    ensures
        match last_pos(s, c) {
            Some(i) => 0 <= i < s.len() && s[i] == c && (forall|j: int|
                i < j < s.len() ==> s[j] != c),
            None => forall|j: int| 0 <= j < s.len() ==> s[j] != c,
        },
    decreases s.len(),
{
    if s.len() > 0 && s[s.len() - 1] != c {
        lemma_last_pos(s.drop_last(), c);
        assert(forall|j: int| 0 <= j < s.len() - 1 ==> s[j] == s.drop_last()[j]);
    }
}

/// Finds the position of the last occurrence of `c` in `s`.
pub fn find_last(s: &str, c: char) -> (r: Option<usize>)
    ensures
        match r {
            Some(i) => last_pos(s@, c) == Some(i as int),
            None => last_pos(s@, c) is None,
        },
{
    let n = s.unicode_len();
    let mut best: Option<usize> = None;
    let mut i: usize = 0;
    while i < n
        invariant
            n == s@.len(),
            i <= n,
            match best {
                Some(b) => last_pos(s@.take(i as int), c) == Some(b as int),
                None => last_pos(s@.take(i as int), c) is None,
            },
        decreases n - i,
    {
        let ch = s.get_char(i);
        proof {
            assert(s@.take(i + 1).drop_last() =~= s@.take(i as int));
            assert(s@.take(i + 1)[i as int] == s@[i as int]);
        }
        if ch == c {
            best = Some(i);
        }
        i = i + 1;
    }
    proof {
        assert(s@.take(n as int) =~= s@);
    }
    best
}

/// The file name of `path`: everything after the last `/`, or the whole
/// string when there is no `/`. Empty when the path ends in `/`.
pub open spec fn file_name_of(path: Seq<char>) -> Seq<char> {
    match last_pos(path, '/') {
        Some(i) => path.subrange(i + 1, path.len() as int),
        None => path,
    }
}

/// Extracts the file name of `path`.
pub fn file_name(path: &str) -> (r: String)
    ensures
        r@ == file_name_of(path@),
{
    let n = path.unicode_len();
    match find_last(path, '/') {
        Some(i) => {
            proof {
                lemma_last_pos(path@, '/');
            }
            path.substring_char(i + 1, n).to_owned()
        },
        None => path.to_owned(),
    }
}

/// The file name with its extension replaced by `ext`: everything after the
/// last `.` is dropped (unless that `.` leads the name) and `.` plus `ext`
/// is appended.
pub open spec fn replace_extension_spec(name: Seq<char>, ext: Seq<char>) -> Seq<char> {
    let stem = match last_pos(name, '.') {
        Some(i) => if i > 0 {
            name.subrange(0, i)
        } else {
            name
        },
        None => name,
    };
    stem + seq!['.'] + ext
}

/// Replaces the extension of `name` with `ext`.
pub fn replace_extension(name: &str, ext: &str) -> (r: String)
    ensures
        r@ == replace_extension_spec(name@, ext@),
{
    let stem: String = match find_last(name, '.') {
        Some(i) => {
            if i > 0 {
                proof {
                    lemma_last_pos(name@, '.');
                }
                name.substring_char(0, i).to_owned()
            } else {
                name.to_owned()
            }
        },
        None => name.to_owned(),
    };
    proof {
        reveal_strlit(".");
        assert(seq!['.'] =~= "."@);
    }
    let mut r = stem;
    r.append(".");
    r.append(ext);
    proof {
        assert(r@ =~= replace_extension_spec(name@, ext@));
    }
    r
}

/// `dir` and `name` joined with a `/` separator; no separator is added when
/// `dir` already ends in one.
pub open spec fn join_path_spec(dir: Seq<char>, name: Seq<char>) -> Seq<char> {
    if dir.len() > 0 && dir[dir.len() - 1] == '/' {
        dir + name
    } else {
        dir + seq!['/'] + name
    }
}

/// Joins a directory path and a relative name.
pub fn join_path(dir: &str, name: &str) -> (r: String)
    ensures
        r@ == join_path_spec(dir@, name@),
{
    let n = dir.unicode_len();
    let mut r = dir.to_owned();
    if n == 0 || dir.get_char(n - 1) != '/' {
        r.append("/");
        proof {
            reveal_strlit("/");
            assert(seq!['/'] =~= "/"@);
        }
    }
    r.append(name);
    proof {
        assert(r@ =~= join_path_spec(dir@, name@));
    }
    r
}

/// The extension given to every cached thumbnail.
pub open spec fn thumbnail_ext_spec() -> Seq<char> {
    "jpg"@
}

/// The file extension used for cached thumbnails.
pub fn thumbnail_format_ext() -> (r: &'static str)
    ensures
        r@ == thumbnail_ext_spec(),
{
    "jpg"
}

} // verus!
