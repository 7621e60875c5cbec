//! Standard base64 (RFC 4648 alphabet, `=` padding), through the `base64` crate.

use vstd::prelude::*;
use base64::Engine;

verus! {

/// The symbol of the standard alphabet for the 6-bit value `v`.
pub open spec fn symbol(v: u8) -> u8 {
    if v < 26 {
        (65 + v) as u8
    } else if v < 52 {
        (97 + v - 26) as u8
    } else if v < 62 {
        (48 + v - 52) as u8
    } else if v == 62 {
        43
    } else {
        47
    }
}

/// The padded standard base64 text of `d`: each group of three bytes becomes four
/// symbols, and a last group of one or two bytes is padded with `=`.
pub open spec fn b64_encode(d: Seq<u8>) -> Seq<u8>
    decreases d.len(),
{
    if d.len() == 0 {
        seq![]
    } else if d.len() == 1 {
        seq![symbol(d[0] >> 2), symbol((d[0] & 3) << 4), 61u8, 61u8]
    } else if d.len() == 2 {
        seq![
            symbol(d[0] >> 2),
            symbol(((d[0] & 3) << 4) | (d[1] >> 4)),
            symbol((d[1] & 15) << 2),
            61u8,
        ]
    } else {
        seq![
            symbol(d[0] >> 2),
            symbol(((d[0] & 3) << 4) | (d[1] >> 4)),
            symbol(((d[1] & 15) << 2) | (d[2] >> 6)),
            symbol(d[2] & 63),
        ] + b64_encode(d.skip(3))
    }
}

/// `STANDARD.encode(data)`, as bytes.
///
/// Claimed of `base64::engine::general_purpose::STANDARD`'s `Engine::encode`: the
/// result is the padded standard-alphabet encoding of `data`, `b64_encode`.
#[verifier::external_body]
fn standard_encode(data: &[u8]) -> (res: Vec<u8>)
    ensures
        res@ == b64_encode(data@),
{
    base64::engine::general_purpose::STANDARD.encode(data).into_bytes()
}

/// The `Debug` text of the error `STANDARD.decode` gives for `text`.
pub uninterp spec fn decode_error_text(text: Seq<u8>) -> Seq<char>;

/// `STANDARD.decode(text)`, with the error's `Debug` text.
///
/// Claimed of `base64::engine::general_purpose::STANDARD`'s `Engine::decode`: the
/// engine requires canonical padding and rejects nonzero trailing bits, so it
/// accepts exactly the texts that are `b64_encode` of some bytes, and then returns
/// those bytes; the error (which byte or length it names) depends on the text
/// alone, and is named `decode_error_text`.
#[verifier::external_body]
fn standard_decode(text: &[u8]) -> (res: Result<Vec<u8>, String>)
    ensures
        res matches Ok(v) ==> b64_encode(v@) == text@,
        res is Err ==> forall|v: Seq<u8>| b64_encode(v) != text@,
        res matches Err(e) ==> e@ == decode_error_text(text@),
{
    base64::engine::general_purpose::STANDARD.decode(text).map_err(|e| format!("{:?}", e))
}

/// The standard base64 text of `data`.
pub fn encode_base64(data: &[u8]) -> (res: Vec<u8>)
    ensures
        res@ == b64_encode(data@),
{
    standard_encode(data)
}

/// The bytes whose standard base64 text is `text`, or the decoder's error text when
/// there are none.
pub fn decode_base64(text: &[u8]) -> (res: Result<Vec<u8>, String>)
    ensures
        res matches Ok(v) ==> b64_encode(v@) == text@,
        res matches Err(e) ==> e@ == decode_error_text(text@),
        res is Err <==> forall|v: Seq<u8>| b64_encode(v) != text@,
{
    let r = standard_decode(text);
    proof {
        if r is Ok {
            let v = r->Ok_0@;
            assert(b64_encode(v) == text@);
        }
    }
    r
}

proof fn lemma_symbol(u: u8, v: u8)
    requires
        u < 64,
        v < 64,
    ensures
        symbol(u) != 61,
        symbol(u) == symbol(v) ==> u == v,
{
}

proof fn lemma_group_bits(a: u8, b: u8, c: u8)
    ensures
        a >> 2 < 64,
        ((a & 3) << 4) < 64,
        (((a & 3) << 4) | (b >> 4)) < 64,
        ((b & 15) << 2) < 64,
        (((b & 15) << 2) | (c >> 6)) < 64,
        (c & 63) < 64,
{
    assert(a >> 2 < 64) by (bit_vector);
    assert(((a & 3) << 4) < 64) by (bit_vector);
    assert((((a & 3) << 4) | (b >> 4)) < 64) by (bit_vector);
    assert(((b & 15) << 2) < 64) by (bit_vector);
    assert((((b & 15) << 2) | (c >> 6)) < 64) by (bit_vector);
    assert((c & 63) < 64) by (bit_vector);
}

proof fn lemma_encode_len(d: Seq<u8>)
    ensures
        b64_encode(d).len() == 4 * ((d.len() + 2) / 3),
    decreases d.len(),
{
    if d.len() >= 3 {
        lemma_encode_len(d.skip(3));
    }
}

proof fn lemma_encode_symbols(d: Seq<u8>)
    ensures
        d.len() >= 3 ==> b64_encode(d)[3] != 61,
        d.len() >= 2 ==> b64_encode(d)[2] != 61,
{
    if d.len() >= 2 {
        lemma_group_bits(d[0], d[1], if d.len() >= 3 { d[2] } else { 0 });
        if d.len() >= 3 {
            lemma_symbol(d[2] & 63, 0);
            lemma_symbol(((d[1] & 15) << 2) | (d[2] >> 6), 0);
        } else {
            lemma_symbol((d[1] & 15) << 2, 0);
        }
    }
}

/// Different bytes have different base64 texts, so decoding the text of `x`
/// gives back exactly `x`.
pub proof fn law_base64_injective(x: Seq<u8>, y: Seq<u8>)
    requires
        b64_encode(x) == b64_encode(y),
    ensures
        x == y,
    decreases x.len(),
{
    lemma_encode_len(x);
    lemma_encode_len(y);
    lemma_encode_symbols(x);
    lemma_encode_symbols(y);
    let ex = b64_encode(x);
    let ey = b64_encode(y);
    if x.len() == 0 {
        assert(y.len() == 0);
        assert(x =~= y);
    } else {
        assert(y.len() > 0);
        let (a, b, c) = (x[0], if x.len() >= 2 { x[1] } else { 0u8 }, if x.len() >= 3 { x[2] } else { 0u8 });
        let (p, q, r) = (y[0], if y.len() >= 2 { y[1] } else { 0u8 }, if y.len() >= 3 { y[2] } else { 0u8 });
        lemma_group_bits(a, b, c);
        lemma_group_bits(p, q, r);
        assert(ex[0] == ey[0] && ex[1] == ey[1] && ex[2] == ey[2] && ex[3] == ey[3]);
        // the padding fixes how many bytes the first group holds
        assert(x.len() >= 3 <==> y.len() >= 3);
        assert(x.len() >= 2 <==> y.len() >= 2);
        if x.len() == 1 {
            lemma_symbol(a >> 2, p >> 2);
            lemma_symbol((a & 3) << 4, (p & 3) << 4);
            assert(a >> 2 == p >> 2 && (a & 3) << 4 == (p & 3) << 4 ==> a == p) by (bit_vector);
            assert(x =~= y);
        } else if x.len() == 2 {
            lemma_symbol(a >> 2, p >> 2);
            lemma_symbol(((a & 3) << 4) | (b >> 4), ((p & 3) << 4) | (q >> 4));
            lemma_symbol((b & 15) << 2, (q & 15) << 2);
            assert(a >> 2 == p >> 2 && ((a & 3) << 4) | (b >> 4) == ((p & 3) << 4) | (q >> 4)
                && (b & 15) << 2 == (q & 15) << 2 ==> a == p && b == q) by (bit_vector);
            assert(x =~= y);
        } else {
            lemma_symbol(a >> 2, p >> 2);
            lemma_symbol(((a & 3) << 4) | (b >> 4), ((p & 3) << 4) | (q >> 4));
            lemma_symbol(((b & 15) << 2) | (c >> 6), ((q & 15) << 2) | (r >> 6));
            lemma_symbol(c & 63, r & 63);
            assert(a >> 2 == p >> 2 && ((a & 3) << 4) | (b >> 4) == ((p & 3) << 4) | (q >> 4)
                && ((b & 15) << 2) | (c >> 6) == ((q & 15) << 2) | (r >> 6) && c & 63 == r & 63
                ==> a == p && b == q && c == r) by (bit_vector);
            assert(ex.skip(4) =~= b64_encode(x.skip(3)));
            assert(ey.skip(4) =~= b64_encode(y.skip(3)));
            law_base64_injective(x.skip(3), y.skip(3));
            assert(x =~= seq![a, b, c] + x.skip(3));
            assert(y =~= seq![p, q, r] + y.skip(3));
        }
    }
}

} // verus!
