//! Paths on this device.
use vstd::prelude::*;

use crate::protocol::LocalFile;

verus! {

/// What follows the last `c` in a text, if there is one.
pub open spec fn after_last(s: Seq<char>, c: char) -> Option<Seq<char>>
    decreases s.len(),
{
    if s.len() == 0 {
        None
    } else if s.last() == c {
        Some(Seq::empty())
    } else {
        match after_last(s.drop_last(), c) {
            Some(rest) => Some(rest.push(s.last())),
            None => None,
        }
    }
}

/// Whether a character parts a path on some system.
pub open spec fn is_bar(c: char) -> bool {
    c == '/' || c == '\\'
}

/// Whether a path begins with two characters that part a path on some system. There are systems
/// on which such a path names a server or a device first.
pub open spec fn begins_doubly(path: Seq<char>) -> bool {
    path.len() >= 2 && is_bar(path[0]) && is_bar(path[1])
}

/// A path without what adds nothing at its end: slashes, and dots that stand alone behind one.
pub open spec fn without_trail(path: Seq<char>) -> Seq<char>
    decreases path.len(),
{
    if path.len() > 0 && path.last() == '/' {
        without_trail(path.drop_last())
    } else if path.len() > 1 && path.last() == '.' && path[path.len() - 2] == '/' {
        without_trail(path.drop_last())
    } else {
        path
    }
}

/// The last name in a path whose names are parted by slashes.
pub open spec fn last_name(path: Seq<char>) -> Seq<char> {
    let path = without_trail(path);
    after_last(path, '/').unwrap_or(path)
}

/// Whether every system finds the same last name in a path: a slash, if anything, parts it from
/// the rest.
pub open spec fn is_plain(path: Seq<char>) -> bool {
    &&& !begins_doubly(path)
    &&& !last_name(path).contains('\\')
    &&& without_trail(path).contains('/') || !path.contains(':')
}

/// The extension of a name: what follows its last dot, unless that dot comes first. There is none
/// where two dots stand for the folder above.
pub open spec fn name_extension(name: Seq<char>) -> Option<Seq<char>> {
    if name.len() == 0 || name == seq!['.', '.'] {
        None
    } else {
        after_last(name.skip(1), '.')
    }
}

/// Whether every system finds an extension behind the last dot of a path, wherever it takes the
/// last name to begin: the dot has a character of that name before it, and nothing that might
/// part a path behind it.
pub open spec fn shows_extension(path: Seq<char>) -> bool {
    after_last(path, '.') matches Some(extension) && {
        let dot = path.len() - extension.len() - 1;
        &&& !begins_doubly(path)
        &&& !extension.contains('/') && !extension.contains('\\') && !extension.contains(':')
        &&& dot > 0 && !is_bar(path[dot - 1]) && path[dot - 1] != ':' && path[dot - 1] != '.'
    }
}

/// Whether a text is a single name for every system.
pub open spec fn is_name(s: Seq<char>) -> bool {
    &&& s.len() > 0
    &&& !s.contains('/') && !s.contains('\\') && !s.contains(':') && !s.contains('?')
}

/// Whether a path goes on from wherever it is put, on every system.
pub open spec fn is_relative(path: Seq<char>) -> bool {
    &&& path.len() > 0
    &&& !is_bar(path[0])
    &&& !(path.len() >= 2 && path[1] == ':')
}

/// Whether a path begins with two backslashes and a question mark, which on some systems mean that
/// it is to be taken word by word.
pub open spec fn is_verbatim(path: Seq<char>) -> bool {
    path.len() >= 3 && path[0] == '\\' && path[1] == '\\' && path[2] == '?'
}

/// Whether a path is that of something below a folder. Behind a name comes the separator of the
/// system. Behind a slash nothing is put; behind a backslash or a colon it is up to the system.
pub open spec fn is_joined(path: Seq<char>, dir: Seq<char>, name: Seq<char>) -> bool {
    let bare = dir + name;
    let slashed = dir + seq!['/'] + name;
    let backslashed = dir + seq!['\\'] + name;
    if dir.len() == 0 || dir.last() == '/' {
        path == bare
    } else if dir.last() == '\\' {
        path == bare || path == slashed
    } else if dir.last() == ':' {
        path == bare || path == slashed || path == backslashed
    } else {
        path == slashed || path == backslashed
    }
}

/// `std::path::Path::extension`: what follows the last dot in the name of the file, unless the
/// dot comes first or there is none. Slashes part a path on every system, and on some backslashes
/// and a drive's colon do too. Where that may make a difference to the result, only the last two
/// clauses hold.
#[verifier::external_body]
fn path_extension(path: &str) -> (r: Option<String>)
    ensures
        is_plain(path@) ==> r.deep_view() == name_extension(last_name(path@)),
        shows_extension(path@) ==> r.deep_view() == after_last(path@, '.'),
        r matches Some(e) ==> !e@.contains('.'),
        !path@.contains('.') ==> r is None,
{
    std::path::Path::new(path).extension().and_then(|e| e.to_str()).map(|e| e.to_string())
}

/// `std::path::Path::join`: a relative path below a folder. Which separator is put between the two
/// is up to the system. Of a folder with a verbatim path nothing is said: on some systems such a path
/// is rewritten.
#[verifier::external_body]
fn path_join(dir: &str, name: &str) -> (r: String)
    ensures
        is_relative(name@) && !is_verbatim(dir@) ==> is_joined(r@, dir@, name@),
{
    std::path::Path::new(dir).join(name).to_string_lossy().to_string()
}

/// The extension of a local file's name, if it has one.
pub fn extension(path: &str) -> (r: Option<String>)
    ensures
        is_plain(path@) ==> r.deep_view() == name_extension(last_name(path@)),
        shows_extension(path@) ==> r.deep_view() == after_last(path@, '.'),
        r matches Some(e) ==> !e@.contains('.'),
        !path@.contains('.') ==> r is None,
{
    path_extension(path)
}

/// The path of a file: its name below a folder, which is below another.
pub fn locate(file: &LocalFile) -> (r: String)
    ensures
        is_name(file.folder@) && is_relative(file.name@) && !is_verbatim(file.dir@) ==> exists|
            folder: Seq<char>,
        | #[trigger]
            is_joined(folder, file.dir@, file.folder@) && is_joined(r@, folder, file.name@),
{
    let folder = path_join(&file.dir, &file.folder);
    proof {
        let (dir, name) = (file.dir@, file.folder@);
        if is_name(name) && is_relative(file.name@) && !is_verbatim(dir) {
            assert(name.contains(name[0]));
            assert(name.len() >= 2 ==> name.contains(name[1]));
            assert(is_joined(folder@, dir, name));
            assert(!is_verbatim(folder@));
        }
    }
    path_join(&folder, &file.name)
}

} // verus!
