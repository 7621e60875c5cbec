//! The file name and extension of a Unix path, as `std::path::Path` finds them.

use vstd::prelude::*;

verus! {

/// The index of the last `/` among the first `e` bytes of `p`, or -1.
pub open spec fn slash_before(p: Seq<u8>, e: int) -> int
    decreases e,
{
    if e <= 0 {
        -1
    } else if p[e - 1] == 47 {
        e - 1
    } else {
        slash_before(p, e - 1)
    }
}

/// Where the file name of the first `e` bytes of the path `p` lies, as
/// `Path::file_name` finds it: the last part between slashes that is neither
/// empty nor `.`; none when that part is `..` or there is no such part.
pub open spec fn file_name_at(p: Seq<u8>, e: int) -> Option<(int, int)>
    decreases e,
{
    if e <= 0 {
        None
    } else if p[e - 1] == 47 {
        file_name_at(p, e - 1)
    } else {
        let k = slash_before(p, e);
        if e - k == 2 && p[k + 1] == 46 {
            file_name_at(p, k + 1)
        } else if e - k == 3 && p[k + 1] == 46 && p[k + 2] == 46 {
            None
        } else {
            Some((k + 1, e))
        }
    }
}

/// The index of the last `.` of `p` in `[s, e)`, or `s - 1`.
pub open spec fn dot_before(p: Seq<u8>, s: int, e: int) -> int
    decreases e - s,
{
    if e <= s {
        s - 1
    } else if p[e - 1] == 46 {
        e - 1
    } else {
        dot_before(p, s, e - 1)
    }
}

/// The path `p` has a non-empty extension (`Path::extension`): its file name has
/// a last `.` that is neither its first nor its last byte.
pub open spec fn names_extension(p: Seq<u8>) -> bool {
    match file_name_at(p, p.len() as int) {
        Some((s, e)) => {
            let d = dot_before(p, s, e);
            s < d && d < e - 1
        },
        None => false,
    }
}

/// One past the last `/` among the first `e` bytes of `p` (0 when there is none).
fn part_start(p: &[u8], e: usize) -> (r: usize)
    requires
        e <= p@.len(),
    ensures
        r == slash_before(p@, e as int) + 1,
        r <= e,
        r == 0 || p@[r - 1] == 47,
{
    let mut i = e;
    while i > 0 && p[i - 1] != 47
        invariant
            i <= e <= p@.len(),
            slash_before(p@, e as int) == slash_before(p@, i as int),
        decreases i,
    {
        i = i - 1;
    }
    i
}

/// One past the last `.` of `p` in `[s, e)` (`s` when there is none).
fn dot_end(p: &[u8], s: usize, e: usize) -> (r: usize)
    requires
        s <= e <= p@.len(),
    ensures
        r == dot_before(p@, s as int, e as int) + 1,
{
    let mut i = e;
    while i > s && p[i - 1] != 46
        invariant
            s <= i <= e <= p@.len(),
            dot_before(p@, s as int, e as int) == dot_before(p@, s as int, i as int),
        decreases i,
    {
        i = i - 1;
    }
    i
}

/// Where the file name of the first `e` bytes of `p` lies (`file_name_at`).
fn file_name_range(p: &[u8], e: usize) -> (r: Option<(usize, usize)>)
    requires
        e <= p@.len(),
    ensures
        r matches Some((s, t)) ==> file_name_at(p@, e as int) == Some((s as int, t as int)) && s < t <= e,
        r is None ==> file_name_at(p@, e as int) is None,
    decreases e,
{
    if e == 0 {
        return None;
    }
    if p[e - 1] == 47 {
        return file_name_range(p, e - 1);
    }
    let k1 = part_start(p, e);
    assert(k1 < e);
    if e - k1 == 1 && p[k1] == 46 {
        return file_name_range(p, k1);
    }
    if e - k1 == 2 && p[k1] == 46 && p[k1 + 1] == 46 {
        return None;
    }
    Some((k1, e))
}

/// Whether the path has a non-empty extension (`names_extension`).
pub fn has_extension(path: &[u8]) -> (res: bool)
    ensures
        res == names_extension(path@),
{
    match file_name_range(path, path.len()) {
        None => false,
        Some((s, e)) => {
            let d1 = dot_end(path, s, e);
            s + 1 < d1 && d1 < e
        },
    }
}

} // verus!
