//! The command line: which argument names the image, where the image comes from,
//! and the options that shape the outputs.

use vstd::prelude::*;
use crate::text::{cut_ok, copy_range, append_bytes, same_bytes, starts_with};
use crate::trim::{trim, trimmed};
use crate::words;

verus! {

/// The texts of a list of arguments.
pub open spec fn texts(args: Seq<Vec<u8>>) -> Seq<Seq<u8>> {
    args.map_values(|a: Vec<u8>| a@)
}

// ---------------------------------------------------------------------------
// The argument that names the image
// ---------------------------------------------------------------------------

/// A (trimmed) argument that names the image by itself: `-image=` followed by at
/// least one byte, or `-image-stdin`.
pub open spec fn is_source_flag(a: Seq<u8>) -> bool {
    (a.len() > 7 && a.take(7) == words::image_prefix()) || a == words::stdin_flag()
}

/// The argument that names the image: arguments are trimmed and read in order; a
/// source flag is taken at once, an argument that starts with `-` ends the search,
/// and any other argument replaces the one found so far.
pub open spec fn scan(args: Seq<Seq<u8>>, cur: Seq<u8>) -> Seq<u8>
    decreases args.len(),
{
    if args.len() == 0 {
        cur
    } else {
        let a = trim(args[0]);
        if is_source_flag(a) {
            a
        } else if a[0] == 45 {
            cur
        } else {
            scan(args.drop_first(), a)
        }
    }
}

/// The search of `scan` slices no argument off a character boundary: it reads
/// `a[0..7]` of every argument longer than 7 bytes, and `a[0..1]` of every
/// argument that is not a source flag.
pub open spec fn scan_ok(args: Seq<Seq<u8>>) -> bool
    decreases args.len(),
{
    if args.len() == 0 {
        true
    } else {
        let a = trim(args[0]);
        &&& (a.len() > 7 ==> cut_ok(a, 7))
        &&& (is_source_flag(a) || (a.len() >= 1 && cut_ok(a, 1) && (a[0] == 45 || scan_ok(args.drop_first()))))
    }
}

/// Whether a trimmed argument is a source flag; `a[0..7]` is read only when `a` is
/// longer than 7 bytes.
fn source_flag(a: &[u8]) -> (res: bool)
    ensures
        res == is_source_flag(a@),
{
    let prefix = words::image_prefix_bytes();
    let stdin = words::stdin_flag_bytes();
    (a.len() > 7 && starts_with(a, &prefix)) || same_bytes(a, &stdin)
}

/// Whether the search for the image argument can run without a panic.
pub fn scan_is_safe(args: &Vec<Vec<u8>>) -> (res: bool)
    ensures
        res == scan_ok(texts(args@)),
{
    let ghost all = texts(args@);
    let mut i: usize = 0;
    assert(all.skip(0) =~= all);
    while i < args.len()
        invariant
            i <= args.len(),
            all == texts(args@),
            scan_ok(all) == scan_ok(all.skip(i as int)),
        decreases args.len() - i,
    {
        let ghost rest = all.skip(i as int);
        assert(rest[0] == args@[i as int]@);
        assert(rest.drop_first() =~= all.skip(i + 1));
        let a = trimmed(&args[i]);
        if a.len() > 7 && !(a[7] < 0x80 || a[7] >= 0xC0) {
            return false;
        }
        if source_flag(&a) {
            return true;
        }
        if a.len() == 0 || (a.len() > 1 && !(a[1] < 0x80 || a[1] >= 0xC0)) {
            return false;
        }
        if a[0] == 45 {
            return true;
        }
        i = i + 1;
    }
    assert(all.skip(i as int).len() == 0);
    true
}

/// The argument that names the image (the text of `scan`).
pub fn first_argument(args: &Vec<Vec<u8>>) -> (res: Vec<u8>)
    requires
        scan_ok(texts(args@)),
    ensures
        res@ == scan(texts(args@), seq![]),
        res@.len() > 7 ==> cut_ok(res@, 7),
{
    let ghost all = texts(args@);
    let mut cur: Vec<u8> = Vec::new();
    let mut i: usize = 0;
    assert(all.skip(0) =~= all);
    while i < args.len()
        invariant
            i <= args.len(),
            all == texts(args@),
            scan(all, seq![]) == scan(all.skip(i as int), cur@),
            scan_ok(all.skip(i as int)),
            cur@.len() > 7 ==> cut_ok(cur@, 7),
        decreases args.len() - i,
    {
        let ghost rest = all.skip(i as int);
        assert(rest[0] == args@[i as int]@);
        assert(rest.drop_first() =~= all.skip(i + 1));
        let a = trimmed(&args[i]);
        if source_flag(&a) {
            return a;
        }
        if a[0] == 45 {
            return cur;
        }
        cur = a;
        i = i + 1;
    }
    assert(all.skip(i as int).len() == 0);
    cur
}

// ---------------------------------------------------------------------------
// Where the image comes from
// ---------------------------------------------------------------------------

/// How the image argument asks for the image.
pub enum Input {
    /// `-image=` and the base64 text that follows it.
    Base64(Vec<u8>),
    /// `-image-stdin`: the image is read from standard input.
    Stdin,
    /// The argument names a file, or nothing usable.
    Named,
}

/// How the image argument `first` asks for the image (its `first[0..7]` is read
/// when it is longer than 7 bytes).
pub fn requested_input(first: &[u8]) -> (res: Input)
    requires
        first@.len() > 7 ==> cut_ok(first@, 7),
    ensures
        (first@.len() > 7 && first@.take(7) == words::image_prefix()) ==> (res matches Input::Base64(t) && t@ == first@.skip(7)),
        !(first@.len() > 7 && first@.take(7) == words::image_prefix()) && first@ == words::stdin_flag() ==> res is Stdin,
        !is_source_flag(first@) ==> res is Named,
{
    let prefix = words::image_prefix_bytes();
    if first.len() > 7 && starts_with(first, &prefix) {
        return Input::Base64(copy_range(first, 7, first.len()));
    }
    let stdin = words::stdin_flag_bytes();
    if same_bytes(first, &stdin) {
        Input::Stdin
    } else {
        Input::Named
    }
}

/// The part of `p` after its last `/` (all of `p` when it has none).
pub open spec fn last_segment(p: Seq<u8>) -> Seq<u8>
    decreases p.len(),
{
    if p.len() == 0 {
        p
    } else if p.last() == 47 {
        seq![]
    } else {
        last_segment(p.drop_last()).push(p.last())
    }
}

/// The path of the image file named by `first`: as given when it starts with `/`,
/// the working directory followed by `first` without its `.` when it starts with
/// `./`, and otherwise the working directory, `/` and `first`.
pub open spec fn image_path(first: Seq<u8>, dir: Seq<u8>) -> Seq<u8> {
    if first[0] == 47 {
        first
    } else if first.take(2) == seq![46u8, 47u8] {
        dir + first.skip(1)
    } else {
        dir + seq![47u8] + first
    }
}

/// Where the image file named by `first` is looked for, in the working directory
/// `dir`: an absolute name is kept as it is; a name that starts with the two bytes
/// `./` has its leading `.` replaced by the directory; any other name (`../x`,
/// `.x`, `x`) is put under the directory after a `/`. (A relative name of one
/// byte is refused before: taking its first two bytes panics.)
pub proof fn law_image_path(first: Seq<u8>, dir: Seq<u8>)
    requires
        first.len() >= 1,
        first[0] != 47 ==> first.len() >= 2,
    ensures
        first[0] == 47 ==> image_path(first, dir) == first,
        first.len() >= 2 && first[0] == 46 && first[1] == 47 ==> image_path(first, dir)
            == dir + first.subrange(1, first.len() as int),
        first[0] != 47 && !(first.len() >= 2 && first[0] == 46 && first[1] == 47) ==> image_path(first, dir)
            == dir + seq![47u8] + first,
{
    if first.len() >= 2 && first[0] == 46 && first[1] == 47 {
        assert(first.take(2) =~= seq![46u8, 47u8]);
    } else if first[0] != 47 {
        assert(first.take(2) != seq![46u8, 47u8]) by {
            if first[0] != 46 {
                assert(first.take(2)[0] != seq![46u8, 47u8][0]);
            } else {
                assert(first.take(2)[1] != seq![46u8, 47u8][1]);
            }
        }
    }
}

/// Choosing the origin slices no text off a character boundary: with no image
/// data, it reads `first[0..1]`, and `first[0..2]` unless `first` starts with
/// `-` or `/`.
pub open spec fn origin_ok(first: Seq<u8>, have_data: bool) -> bool {
    have_data || (first.len() >= 1 && cut_ok(first, 1) && (first[0] == 45 || first[0] == 47 || (first.len() >= 2 && cut_ok(first, 2))))
}

/// Whether choosing the origin can run without a panic.
pub fn origin_is_safe(first: &[u8], have_data: bool) -> (res: bool)
    ensures
        res == origin_ok(first@, have_data),
{
    have_data || (first.len() >= 1 && (first.len() == 1 || first[1] < 0x80 || first[1] >= 0xC0) && (first[0] == 45
        || first[0] == 47 || (first.len() >= 2 && (first.len() == 2 || first[2] < 0x80 || first[2] >= 0xC0))))
}

/// Where the image is taken from.
pub enum Origin {
    /// The image bytes at hand (from base64 or standard input).
    Memory,
    /// The file at `path`; the image is named `name`.
    File { path: Vec<u8>, name: Vec<u8> },
    /// No image was given: the image argument starts with `-`.
    Missing,
}

/// The last `/`-separated part of `p`.
pub fn last_part(p: &[u8]) -> (res: Vec<u8>)
    ensures
        res@ == last_segment(p@),
{
    let mut k: usize = p.len();
    assert(p@.take(k as int) =~= p@);
    assert(last_segment(p@) + p@.skip(k as int) =~= last_segment(p@));
    while k > 0 && p[k - 1] != 47
        invariant
            k <= p.len(),
            last_segment(p@) == last_segment(p@.take(k as int)) + p@.skip(k as int),
        decreases k,
    {
        let ghost t = p@.take(k as int);
        assert(t.drop_last() =~= p@.take(k - 1));
        assert(seq![t.last()] + p@.skip(k as int) =~= p@.skip(k - 1));
        assert(last_segment(t) == last_segment(p@.take(k - 1)).push(t.last()));
        assert(last_segment(p@.take(k - 1)).push(t.last()) + p@.skip(k as int) =~= last_segment(p@.take(k - 1)) + p@.skip(k - 1));
        k = k - 1;
    }
    assert(last_segment(p@.take(k as int)).len() == 0) by {
        if k > 0 {
            assert(p@.take(k as int).last() == 47);
        }
    }
    assert(last_segment(p@) =~= p@.skip(k as int));
    copy_range(p, k, p.len())
}

/// Where the image comes from: the bytes at hand when there are any; otherwise
/// nothing when `first` starts with `-`, and else the file that `first` names in
/// the working directory `dir`, named by the last part of its path.
pub fn choose_origin(first: &[u8], dir: &[u8], have_data: bool) -> (res: Origin)
    requires
        origin_ok(first@, have_data),
    ensures
        have_data ==> res is Memory,
        !have_data && first@[0] == 45 ==> res is Missing,
        !have_data && first@[0] != 45 ==> (res matches Origin::File { path, name }
            && path@ == image_path(first@, dir@) && name@ == last_segment(path@)),
{
    if have_data {
        return Origin::Memory;
    }
    if first[0] == 45 {
        return Origin::Missing;
    }
    let mut path: Vec<u8> = Vec::new();
    if first[0] == 47 {
        append_bytes(&mut path, first);
    } else if first[0] == 46 && first[1] == 47 {
        assert(first@.take(2) =~= seq![46u8, 47u8]);
        append_bytes(&mut path, dir);
        let rest = copy_range(first, 1, first.len());
        append_bytes(&mut path, &rest);
    } else {
        assert(first@.take(2) != seq![46u8, 47u8]) by {
            if first[0] != 46 {
                assert(first@.take(2)[0] != 46);
            } else {
                assert(first@.take(2)[1] != 47);
            }
        }
        append_bytes(&mut path, dir);
        path.push(47);
        append_bytes(&mut path, first);
    }
    let name = last_part(&path);
    Origin::File { path, name }
}

} // verus!
