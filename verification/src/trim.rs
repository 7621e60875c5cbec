//! `str::trim` on the UTF-8 bytes of a string.
//!
//! A character is whitespace when it has the Unicode `White_Space` property, as
//! `char::is_whitespace` decides: U+0009..U+000D, U+0020, U+0085, U+00A0, U+1680,
//! U+2000..U+200A, U+2028, U+2029, U+202F, U+205F and U+3000. On valid UTF-8 a
//! whitespace character at either end of the text is recognised by its encoding.

use vstd::prelude::*;

verus! {

/// The encoding of a one-byte whitespace character.
pub open spec fn ws1(a: u8) -> bool {
    a == 0x20 || (0x09 <= a && a <= 0x0D)
}

/// The encoding of a two-byte whitespace character (U+0085, U+00A0).
pub open spec fn ws2(a: u8, b: u8) -> bool {
    a == 0xC2 && (b == 0x85 || b == 0xA0)
}

/// The encoding of a three-byte whitespace character.
pub open spec fn ws3(a: u8, b: u8, c: u8) -> bool {
    ||| a == 0xE1 && b == 0x9A && c == 0x80
    ||| a == 0xE2 && b == 0x80 && ((0x80 <= c && c <= 0x8A) || c == 0xA8 || c == 0xA9 || c == 0xAF)
    ||| a == 0xE2 && b == 0x81 && c == 0x9F
    ||| a == 0xE3 && b == 0x80 && c == 0x80
}

/// Length in bytes of the whitespace character that begins `s`, or 0 if `s` does
/// not begin with one.
pub open spec fn ws_front(s: Seq<u8>) -> nat {
    if s.len() >= 1 && ws1(s[0]) {
        1
    } else if s.len() >= 2 && ws2(s[0], s[1]) {
        2
    } else if s.len() >= 3 && ws3(s[0], s[1], s[2]) {
        3
    } else {
        0
    }
}

/// Length in bytes of the whitespace character that ends `s`, or 0 if `s` does
/// not end with one.
pub open spec fn ws_back(s: Seq<u8>) -> nat {
    let n = s.len() as int;
    if n >= 1 && ws1(s[n - 1]) {
        1
    } else if n >= 2 && ws2(s[n - 2], s[n - 1]) {
        2
    } else if n >= 3 && ws3(s[n - 3], s[n - 2], s[n - 1]) {
        3
    } else {
        0
    }
}

/// `s` without its leading whitespace.
pub open spec fn trim_start(s: Seq<u8>) -> Seq<u8>
    decreases s.len(),
{
    if ws_front(s) > 0 {
        trim_start(s.skip(ws_front(s) as int))
    } else {
        s
    }
}

/// `s` without its trailing whitespace.
pub open spec fn trim_end(s: Seq<u8>) -> Seq<u8>
    decreases s.len(),
{
    if ws_back(s) > 0 {
        trim_end(s.take(s.len() - ws_back(s)))
    } else {
        s
    }
}

/// `s` without leading and trailing whitespace: what `str::trim` returns.
pub open spec fn trim(s: Seq<u8>) -> Seq<u8> {
    trim_end(trim_start(s))
}

/// `ws_front` of `s[from..to]`.
fn ws_front_at(s: &[u8], from: usize, to: usize) -> (k: usize)
    requires
        from <= to <= s.len(),
    ensures
        k == ws_front(s@.subrange(from as int, to as int)),
{
    let ghost w = s@.subrange(from as int, to as int);
    let n: usize = to - from;
    if n >= 1 && (s[from] == 0x20 || (0x09 <= s[from] && s[from] <= 0x0D)) {
        return 1;
    }
    if n >= 2 && s[from] == 0xC2 && (s[from + 1] == 0x85 || s[from + 1] == 0xA0) {
        return 2;
    }
    if n >= 3 {
        let a: u8 = s[from];
        let b: u8 = s[from + 1];
        let c: u8 = s[from + 2];
        assert(w[0] == a && w[1] == b && w[2] == c);
        if (a == 0xE1 && b == 0x9A && c == 0x80)
            || (a == 0xE2 && b == 0x80 && ((0x80 <= c && c <= 0x8A) || c == 0xA8 || c == 0xA9 || c == 0xAF))
            || (a == 0xE2 && b == 0x81 && c == 0x9F)
            || (a == 0xE3 && b == 0x80 && c == 0x80)
        {
            return 3;
        }
    }
    0
}

/// `ws_back` of `s[from..to]`.
fn ws_back_at(s: &[u8], from: usize, to: usize) -> (k: usize)
    requires
        from <= to <= s.len(),
    ensures
        k == ws_back(s@.subrange(from as int, to as int)),
{
    let ghost w = s@.subrange(from as int, to as int);
    let n: usize = to - from;
    if n >= 1 && (s[to - 1] == 0x20 || (0x09 <= s[to - 1] && s[to - 1] <= 0x0D)) {
        return 1;
    }
    if n >= 2 && s[to - 2] == 0xC2 && (s[to - 1] == 0x85 || s[to - 1] == 0xA0) {
        return 2;
    }
    if n >= 3 {
        let a: u8 = s[to - 3];
        let b: u8 = s[to - 2];
        let c: u8 = s[to - 1];
        assert(w[n - 3] == a && w[n - 2] == b && w[n - 1] == c);
        if (a == 0xE1 && b == 0x9A && c == 0x80)
            || (a == 0xE2 && b == 0x80 && ((0x80 <= c && c <= 0x8A) || c == 0xA8 || c == 0xA9 || c == 0xAF))
            || (a == 0xE2 && b == 0x81 && c == 0x9F)
            || (a == 0xE3 && b == 0x80 && c == 0x80)
        {
            return 3;
        }
    }
    0
}

/// The byte range `(start, end)` of `s` that `str::trim` keeps.
pub fn trim_range(s: &[u8]) -> (r: (usize, usize))
    ensures
        r.0 <= r.1 <= s.len(),
        s@.subrange(r.0 as int, r.1 as int) == trim(s@),
{
    let n: usize = s.len();
    let mut i: usize = 0;
    assert(s@.subrange(0, n as int) =~= s@);
    let mut front_done = false;
    while i < n && !front_done
        invariant
            n == s.len(),
            i <= n,
            trim_start(s@) == trim_start(s@.subrange(i as int, n as int)),
            front_done ==> ws_front(s@.subrange(i as int, n as int)) == 0,
        decreases n - i + (if front_done { 0int } else { 1int }),
    {
        let k: usize = ws_front_at(s, i, n);
        if k == 0 {
            front_done = true;
        } else {
            assert(s@.subrange(i as int, n as int).skip(k as int) =~= s@.subrange(i + k, n as int));
            i = i + k;
        }
    }
    assert(ws_front(s@.subrange(i as int, n as int)) == 0);
    assert(trim_start(s@) == s@.subrange(i as int, n as int));
    let mut j: usize = n;
    let mut back_done = false;
    while j > i && !back_done
        invariant
            n == s.len(),
            i <= j <= n,
            trim(s@) == trim_end(s@.subrange(i as int, j as int)),
            back_done ==> ws_back(s@.subrange(i as int, j as int)) == 0,
        decreases j - i + (if back_done { 0int } else { 1int }),
    {
        let k: usize = ws_back_at(s, i, j);
        if k == 0 {
            back_done = true;
        } else {
            assert(s@.subrange(i as int, j as int).take(j - i - k) =~= s@.subrange(i as int, j - k));
            j = j - k;
        }
    }
    assert(ws_back(s@.subrange(i as int, j as int)) == 0);
    assert(trim_end(s@.subrange(i as int, j as int)) == s@.subrange(i as int, j as int));
    (i, j)
}

/// What `str::trim` returns for the text `s`.
pub fn trimmed(s: &[u8]) -> (res: Vec<u8>)
    ensures
        res@ == trim(s@),
{
    let (a, b) = trim_range(s);
    crate::text::copy_range(s, a, b)
}

proof fn lemma_trim_start_front(s: Seq<u8>)
    ensures
        ws_front(trim_start(s)) == 0,
    decreases s.len(),
{
    if ws_front(s) > 0 {
        lemma_trim_start_front(s.skip(ws_front(s) as int));
    }
}

proof fn lemma_trim_end_back(s: Seq<u8>)
    ensures
        ws_back(trim_end(s)) == 0,
    decreases s.len(),
{
    if ws_back(s) > 0 {
        lemma_trim_end_back(s.take(s.len() - ws_back(s)));
    }
}

proof fn lemma_prefix_front(t: Seq<u8>, m: int)
    requires
        0 <= m <= t.len(),
        ws_front(t) == 0,
    ensures
        ws_front(t.take(m)) == 0,
{
    let p = t.take(m);
    if p.len() >= 1 {
        assert(p[0] == t[0]);
    }
    if p.len() >= 2 {
        assert(p[1] == t[1]);
    }
    if p.len() >= 3 {
        assert(p[2] == t[2]);
    }
}

proof fn lemma_trim_end_front(t: Seq<u8>)
    requires
        ws_front(t) == 0,
    ensures
        ws_front(trim_end(t)) == 0,
    decreases t.len(),
{
    if ws_back(t) > 0 {
        let u = t.take(t.len() - ws_back(t));
        lemma_prefix_front(t, t.len() - ws_back(t));
        lemma_trim_end_front(u);
    }
}

/// Trimming twice is trimming once: `s.trim().trim() == s.trim()`.
pub proof fn law_trim_idempotent(s: Seq<u8>)
    ensures
        trim(trim(s)) == trim(s),
{
    let r = trim(s);
    lemma_trim_start_front(s);
    lemma_trim_end_front(trim_start(s));
    lemma_trim_end_back(trim_start(s));
    assert(trim_start(r) == r);
    assert(trim_end(r) == r);
}

} // verus!
