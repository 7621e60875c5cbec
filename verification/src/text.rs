//! Byte-string helpers shared by the argument rules and the output names.
//!
//! Text is held as the UTF-8 bytes of a string. Slicing a string at a byte index
//! panics in Rust unless the index lies on a character boundary; `cut_ok` states
//! when it does.

use vstd::prelude::*;

verus! {

/// A UTF-8 continuation byte (`10xxxxxx`).
pub open spec fn is_continuation(b: u8) -> bool {
    0x80 <= b && b < 0xC0
}

/// Byte index `i` of the UTF-8 text `s` is a character boundary, as `str::is_char_boundary` says.
pub open spec fn cut_ok(s: Seq<u8>, i: int) -> bool {
    i == 0 || i == s.len() || (0 < i < s.len() && !is_continuation(s[i]))
}

/// Copies `s[from..to]` into a fresh vector.
pub fn copy_range(s: &[u8], from: usize, to: usize) -> (res: Vec<u8>)
    requires
        from <= to <= s.len(),
    ensures
        res@ == s@.subrange(from as int, to as int),
{
    let mut res: Vec<u8> = Vec::new();
    let mut i: usize = from;
    while i < to
        invariant
            from <= i <= to <= s.len(),
            res@ == s@.subrange(from as int, i as int),
        decreases to - i,
    {
        res.push(s[i]);
        i = i + 1;
    }
    res
}

/// Appends all of `b` to `a`.
pub fn append_bytes(a: &mut Vec<u8>, b: &[u8])
    ensures
        final(a)@ == old(a)@ + b@,
{
    let mut i: usize = 0;
    while i < b.len()
        invariant
            i <= b.len(),
            a@ == old(a)@ + b@.take(i as int),
        decreases b.len() - i,
    {
        a.push(b[i]);
        i = i + 1;
        assert(b@.take(i as int) == b@.take((i - 1) as int).push(b@[i - 1]));
    }
    assert(b@.take(b.len() as int) == b@);
}

/// Whether `a` and `b` hold the same bytes.
pub fn same_bytes(a: &[u8], b: &[u8]) -> (res: bool)
    ensures
        res == (a@ == b@),
{
    if a.len() != b.len() {
        return false;
    }
    let mut i: usize = 0;
    while i < a.len()
        invariant
            a.len() == b.len(),
            i <= a.len(),
            forall|j: int| 0 <= j < i ==> a@[j] == b@[j],
        decreases a.len() - i,
    {
        if a[i] != b[i] {
            return false;
        }
        i = i + 1;
    }
    assert(a@ =~= b@);
    true
}

/// Whether `a` begins with the bytes of `p`.
pub fn starts_with(a: &[u8], p: &[u8]) -> (res: bool)
    ensures
        res == (p.len() <= a.len() && a@.take(p.len() as int) == p@),
{
    if p.len() > a.len() {
        return false;
    }
    let mut i: usize = 0;
    while i < p.len()
        invariant
            p.len() <= a.len(),
            i <= p.len(),
            forall|j: int| 0 <= j < i ==> a@[j] == p@[j],
        decreases p.len() - i,
    {
        if a[i] != p[i] {
            assert(a@.take(p.len() as int)[i as int] != p@[i as int]);
            return false;
        }
        i = i + 1;
    }
    assert(a@.take(p.len() as int) =~= p@);
    true
}


/// The lowercase hexadecimal digit for `v < 16`.
pub open spec fn hex_digit(v: u8) -> u8 {
    if v < 10 {
        (48 + v) as u8
    } else {
        (87 + v) as u8
    }
}

/// `format!("{:02x}", b)` for each byte of `s`, joined.
pub open spec fn hex_text(s: Seq<u8>) -> Seq<u8>
    decreases s.len(),
{
    if s.len() == 0 {
        seq![]
    } else {
        hex_text(s.drop_last()).push(hex_digit(s.last() / 16)).push(hex_digit(s.last() % 16))
    }
}

/// The preview of data read from standard input: the first (at most) 100 bytes
/// in two-digit lowercase hexadecimal.
pub open spec fn hex_preview_spec(s: Seq<u8>) -> Seq<u8> {
    hex_text(if s.len() <= 100 { s } else { s.take(100) })
}

proof fn lemma_hex_len(s: Seq<u8>)
    ensures
        hex_text(s).len() == 2 * s.len(),
    decreases s.len(),
{
    if s.len() > 0 {
        lemma_hex_len(s.drop_last());
    }
}

/// The preview is two characters per byte, for at most 100 bytes.
pub proof fn law_hex_preview_len(s: Seq<u8>)
    ensures
        hex_preview_spec(s).len() == 2 * (if s.len() <= 100 { s.len() } else { 100 }),
{
    lemma_hex_len(if s.len() <= 100 { s } else { s.take(100) });
}

proof fn lemma_hex_digits(s: Seq<u8>, j: int)
    requires
        0 <= j < s.len(),
    ensures
        hex_text(s)[2 * j] == hex_digit(s[j] / 16),
        hex_text(s)[2 * j + 1] == hex_digit(s[j] % 16),
    decreases s.len(),
{
    lemma_hex_len(s.drop_last());
    if j < s.len() - 1 {
        lemma_hex_digits(s.drop_last(), j);
    }
}

/// The preview shows the first bytes of the data, in order, as two lowercase
/// hexadecimal digits each (high nibble first): for every `j` below
/// `min(len, 100)`, characters `2j` and `2j + 1` are the digits of `s[j]`.
pub proof fn law_hex_preview_shows_the_start(s: Seq<u8>, j: int)
    requires
        0 <= j < s.len(),
        j < 100,
    ensures
        hex_preview_spec(s)[2 * j] == (if s[j] / 16 < 10 { 48 + s[j] / 16 } else { 87 + s[j] / 16 }),
        hex_preview_spec(s)[2 * j + 1] == (if s[j] % 16 < 10 { 48 + s[j] % 16 } else { 87 + s[j] % 16 }),
{
    let shown = if s.len() <= 100 { s } else { s.take(100) };
    assert(shown[j] == s[j]);
    lemma_hex_digits(shown, j);
}

/// The hexadecimal preview of `data`.
pub fn hex_preview(data: &[u8]) -> (res: Vec<u8>)
    ensures
        res@ == hex_preview_spec(data@),
{
    let n: usize = if data.len() <= 100 { data.len() } else { 100 };
    let ghost shown = if data@.len() <= 100 { data@ } else { data@.take(100) };
    assert(shown.len() == n);
    let mut res: Vec<u8> = Vec::new();
    let mut i: usize = 0;
    while i < n
        invariant
            i <= n <= data.len(),
            shown.len() == n,
            forall|j: int| 0 <= j < n ==> shown[j] == data@[j],
            res@ == hex_text(shown.take(i as int)),
        decreases n - i,
    {
        let b: u8 = data[i];
        let hi: u8 = b / 16;
        let lo: u8 = b % 16;
        res.push(if hi < 10 { 48 + hi } else { 87 + hi });
        res.push(if lo < 10 { 48 + lo } else { 87 + lo });
        assert(shown.take(i + 1).drop_last() =~= shown.take(i as int));
        assert(shown.take(i + 1).last() == b);
        i = i + 1;
    }
    assert(shown.take(n as int) =~= shown);
    res
}

} // verus!
