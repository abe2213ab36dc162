//! Windows-style path joining and the two candidate installation directories.
use vstd::prelude::*;

verus! {

/// A directory separator, either of the two that Windows accepts.
pub open spec fn is_separator(c: char) -> bool {
    c == '\\' || c == '/'
}

/// `base` joined with `part`: a separator is put between them unless `base`
/// is empty, `base` already ends with one, or `part` starts with one (as a
/// rooted path such as `\Users\alice` does after a drive such as `C:`).
pub open spec fn joined(base: Seq<char>, part: Seq<char>) -> Seq<char> {
    if base.len() == 0 {
        part
    } else if is_separator(base.last()) || (part.len() > 0 && is_separator(part[0])) {
        base + part
    } else {
        base + seq!['\\'] + part
    }
}

/// The per-user tool directory `<drive><home path>\.cargo\bin`.
pub open spec fn preferred_dir_of(drive: Seq<char>, home_path: Seq<char>) -> Seq<char> {
    joined(joined(joined(drive, home_path), seq!['.', 'c', 'a', 'r', 'g', 'o']), seq!['b', 'i', 'n'])
}

fn char_is_separator(c: char) -> (r: bool)
    ensures
        r == is_separator(c),
{
    c == '\\' || c == '/'
}

/// Joins two path pieces with a backslash where one is needed.
pub fn join_path(base: &str, part: &str) -> (r: String)
    ensures
        r@ == joined(base@, part@),
{
    let n = base.unicode_len();
    if n == 0 {
        return String::from_str(part);
    }
    let m = part.unicode_len();
    let mut r = String::from_str(base);
    if char_is_separator(base.get_char(n - 1)) || (m > 0 && char_is_separator(part.get_char(0))) {
        r.append(part);
    } else {
        proof {
            reveal_strlit("\\");
        }
        r.append("\\");
        r.append(part);
    }
    r
}

/// The preferred installation directory, `<drive><home path>\.cargo\bin`.
pub fn preferred_dir(home_drive: &str, home_path: &str) -> (r: String)
    ensures
        r@ == preferred_dir_of(home_drive@, home_path@),
{
    let home = join_path(home_drive, home_path);
    let cargo = join_path(home.as_str(), ".cargo");
    proof {
        reveal_strlit(".cargo");
        reveal_strlit("bin");
    }
    join_path(cargo.as_str(), "bin")
}

} // verus!
