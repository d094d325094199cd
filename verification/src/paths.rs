//! What a path's text says of the file it names: its extension and its
//! file name, as the standard library's `Path` reads them.

use vstd::prelude::*;

verus! {

/// The last component of a path, as `Path::file_name` reads it.
pub uninterp spec fn path_file_name(path: Seq<char>) -> Option<Seq<char>>;

/// The index of the last `c` in `s`, or -1 where there is none.
pub open spec fn last_index_of(s: Seq<char>, c: char) -> int
    decreases s.len(),
{
    if s.len() == 0 {
        -1
    } else if s.last() == c {
        s.len() - 1
    } else {
        last_index_of(s.drop_last(), c)
    }
}

/// The extension of the file a path names, as `Path::extension` documents
/// it: none without a file name, none where the name holds no `.` or only a
/// leading one, and otherwise what follows the name's last `.`.
pub open spec fn path_extension(path: Seq<char>) -> Option<Seq<char>> {
    match path_file_name(path) {
        None => None,
        Some(n) => {
            let i = last_index_of(n, '.');
            if i <= 0 { None } else { Some(n.subrange(i + 1, n.len() as int)) }
        },
    }
}

/// The text of an optional string.
pub open spec fn opt_string_text(o: Option<String>) -> Option<Seq<char>> {
    match o {
        Some(s) => Some(s@),
        None => None,
    }
}

/// The text, or the empty text where there is none.
pub open spec fn or_empty(o: Option<Seq<char>>) -> Seq<char> {
    match o {
        Some(s) => s,
        None => Seq::empty(),
    }
}

/// The extension of the file `path` names, without its dot
/// (`std::path::Path::extension`), where there is one, as `path_extension`
/// states it from the file name.
#[verifier::external_body]
pub(crate) fn file_extension(path: &str) -> (ext: Option<String>)
    ensures
        opt_string_text(ext) == path_extension(path@),
{
    std::path::Path::new(path).extension().and_then(|e| e.to_str()).map(|e| e.to_string())
}

/// The last component of `path` (`std::path::Path::file_name`), where the
/// path does not end in `..`. It is a function of the path's text alone;
/// nothing else about it is claimed here.
#[verifier::external_body]
pub(crate) fn file_name(path: &str) -> (name: Option<String>)
    ensures
        opt_string_text(name) == path_file_name(path@),
{
    std::path::Path::new(path).file_name().and_then(|n| n.to_str()).map(|n| n.to_string())
}

} // verus!
