//! The guarded update of the persisted `PATH` value.
use vstd::prelude::*;

verus! {

/// `needle` occurs at position `i` of `hay`.
pub open spec fn occurs_at(hay: Seq<char>, needle: Seq<char>, i: int) -> bool {
    0 <= i && i + needle.len() <= hay.len() && hay.subrange(i, i + needle.len()) == needle
}

/// `needle` is a substring of `hay`.
pub open spec fn has_substring(hay: Seq<char>, needle: Seq<char>) -> bool {
    exists|i: int| occurs_at(hay, needle, i)
}

/// The `PATH` value after registering `dir`: unchanged when `dir` already
/// occurs in it, else `dir` appended after a `;` separator.
pub open spec fn registered(current: Seq<char>, dir: Seq<char>) -> Seq<char> {
    if has_substring(current, dir) {
        current
    } else {
        current + seq![';'] + dir
    }
}

fn chars_of(s: &str) -> (r: Vec<char>)
    ensures
        r@ == s@,
{
    let mut r: Vec<char> = Vec::new();
    for c in it: s.chars()
        invariant
            r@ == it.seq().take(it.index() as int),
    {
        r.push(c);
    }
    r
}

/// Whether `needle` occurs at position `i` of `hay`.
fn matches_at(hay: &Vec<char>, needle: &Vec<char>, i: usize) -> (r: bool)
    requires
        i + needle@.len() <= hay@.len(),
    ensures
        r == occurs_at(hay@, needle@, i as int),
{
    let hl: usize = hay.len();
    let mut j: usize = 0;
    while j < needle.len()
        invariant
            hl == hay@.len(),
            i + needle@.len() <= hay@.len(),
            j <= needle@.len(),
            forall|k: int| 0 <= k < j ==> hay@[i + k] == needle@[k],
        decreases needle@.len() - j,
    {
        if hay[i + j] != needle[j] {
            assert(hay@.subrange(i as int, i + needle@.len())[j as int] != needle@[j as int]);
            return false;
        }
        j = j + 1;
    }
    assert(hay@.subrange(i as int, i + needle@.len()) =~= needle@);
    true
}

/// Whether `needle` is a substring of `hay`.
pub fn contains_str(hay: &str, needle: &str) -> (r: bool)
    ensures
        r == has_substring(hay@, needle@),
{
    let h = chars_of(hay);
    let n = chars_of(needle);
    if n.len() == 0 {
        assert(hay@.subrange(0, 0) =~= needle@);
        assert(occurs_at(hay@, needle@, 0));
        return true;
    }
    let mut i: usize = 0;
    while i <= h.len() && n.len() <= h.len() - i
        invariant
            h@ == hay@,
            n@ == needle@,
            n@.len() > 0,
            i <= h@.len(),
            forall|k: int| 0 <= k < i ==> !occurs_at(hay@, needle@, k),
        decreases h@.len() - i,
    {
        if matches_at(&h, &n, i) {
            return true;
        }
        i = i + 1;
    }
    false
}

/// The new `PATH` value to persist so that it holds `dir`, or `None` when
/// `dir` already occurs in `current` and nothing needs to be written.
pub fn path_with_dir(current: &str, dir: &str) -> (r: Option<String>)
    ensures
        r is None <==> has_substring(current@, dir@),
        r matches Some(v) ==> v@ == registered(current@, dir@),
{
    if contains_str(current, dir) {
        None
    } else {
        let mut v = String::from_str(current);
        proof {
            reveal_strlit(";");
        }
        v.append(";");
        v.append(dir);
        Some(v)
    }
}

/// After registration the value holds the directory.
pub proof fn lemma_registered_holds_dir(current: Seq<char>, dir: Seq<char>)
    ensures
        has_substring(registered(current, dir), dir),
{
    if !has_substring(current, dir) {
        let v = registered(current, dir);
        let i: int = current.len() as int + 1;
        assert(v.subrange(i, i + dir.len()) =~= dir);
        assert(occurs_at(v, dir, i));
    }
}

/// Registering a directory twice writes nothing the second time: the value
/// after the second registration is the value after the first, so the
/// directory is never appended twice.
pub proof fn lemma_registration_idempotent(current: Seq<char>, dir: Seq<char>)
    ensures
        has_substring(registered(current, dir), dir),
        registered(registered(current, dir), dir) == registered(current, dir),
{
    lemma_registered_holds_dir(current, dir);
}

} // verus!
