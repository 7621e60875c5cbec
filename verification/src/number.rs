//! Decimal integers: what `str::parse` accepts for `u8`, `u32` and `i32`, and the
//! digits that `{}` prints for a `u32`.

use vstd::prelude::*;
use crate::words;

verus! {

/// Why a text is not an integer of the wanted type (std's `IntErrorKind`).
#[derive(Clone, Copy, Debug, PartialEq, Eq, Structural)]
pub enum IntError {
    Empty,
    InvalidDigit,
    PosOverflow,
    NegOverflow,
}

impl IntError {
    /// The text that std's `ParseIntError` displays for this kind.
    pub open spec fn message_spec(self) -> Seq<u8> {
        match self {
            IntError::Empty => words::msg_empty(),
            IntError::InvalidDigit => words::msg_invalid(),
            IntError::PosOverflow => words::msg_pos(),
            IntError::NegOverflow => words::msg_neg(),
        }
    }

    /// The name std's `Debug` gives this kind.
    pub open spec fn kind_name_spec(self) -> Seq<u8> {
        match self {
            IntError::Empty => words::kind_empty(),
            IntError::InvalidDigit => words::kind_invalid(),
            IntError::PosOverflow => words::kind_pos(),
            IntError::NegOverflow => words::kind_neg(),
        }
    }

    /// The text that std's `ParseIntError` displays for this kind.
    pub fn message(&self) -> (res: Vec<u8>)
        ensures
            res@ == self.message_spec(),
    {
        match self {
            IntError::Empty => words::msg_empty_bytes(),
            IntError::InvalidDigit => words::msg_invalid_bytes(),
            IntError::PosOverflow => words::msg_pos_bytes(),
            IntError::NegOverflow => words::msg_neg_bytes(),
        }
    }

    /// The name std's `Debug` gives this kind.
    pub fn kind_name(&self) -> (res: Vec<u8>)
        ensures
            res@ == self.kind_name_spec(),
    {
        match self {
            IntError::Empty => words::kind_empty_bytes(),
            IntError::InvalidDigit => words::kind_invalid_bytes(),
            IntError::PosOverflow => words::kind_pos_bytes(),
            IntError::NegOverflow => words::kind_neg_bytes(),
        }
    }
}

pub open spec fn is_digit(b: u8) -> bool {
    48 <= b && b <= 57
}

/// Reads the digits of `s` left to right onto `acc`, as std does: the first byte
/// that is not a digit fails with `InvalidDigit`, and the first digit that takes
/// the magnitude past `limit` fails with `over`.
pub open spec fn accumulate(s: Seq<u8>, acc: int, limit: int, over: IntError) -> Result<int, IntError>
    decreases s.len(),
{
    if s.len() == 0 {
        Ok(acc)
    } else if !is_digit(s[0]) {
        Err(IntError::InvalidDigit)
    } else if acc * 10 + (s[0] - 48) > limit {
        Err(over)
    } else {
        accumulate(s.drop_first(), acc * 10 + (s[0] - 48), limit, over)
    }
}

/// `str::parse` for an unsigned type whose largest value is `max`.
pub open spec fn parse_unsigned(s: Seq<u8>, max: int) -> Result<int, IntError> {
    if s.len() == 0 {
        Err(IntError::Empty)
    } else if (s[0] == 43 || s[0] == 45) && s.len() == 1 {
        Err(IntError::InvalidDigit)
    } else if s[0] == 43 {
        accumulate(s.drop_first(), 0, max, IntError::PosOverflow)
    } else {
        accumulate(s, 0, max, IntError::PosOverflow)
    }
}

/// `str::parse::<i32>`.
pub open spec fn parse_i32_spec(s: Seq<u8>) -> Result<int, IntError> {
    if s.len() == 0 {
        Err(IntError::Empty)
    } else if (s[0] == 43 || s[0] == 45) && s.len() == 1 {
        Err(IntError::InvalidDigit)
    } else if s[0] == 43 {
        accumulate(s.drop_first(), 0, 0x7fff_ffff, IntError::PosOverflow)
    } else if s[0] == 45 {
        match accumulate(s.drop_first(), 0, 0x8000_0000, IntError::NegOverflow) {
            Ok(m) => Ok(-m),
            Err(e) => Err(e),
        }
    } else {
        accumulate(s, 0, 0x7fff_ffff, IntError::PosOverflow)
    }
}

proof fn lemma_accumulate_bounds(s: Seq<u8>, acc: int, limit: int, over: IntError)
    requires
        0 <= acc <= limit,
    ensures
        accumulate(s, acc, limit, over) matches Ok(v) ==> 0 <= v <= limit,
    decreases s.len(),
{
    if s.len() > 0 && is_digit(s[0]) && acc * 10 + (s[0] - 48) <= limit {
        lemma_accumulate_bounds(s.drop_first(), acc * 10 + (s[0] - 48), limit, over);
    }
}

proof fn lemma_accumulate_digits(s: Seq<u8>, acc: int, limit: int, over: IntError)
    ensures
        accumulate(s, acc, limit, over) is Ok ==> forall|i: int| 0 <= i < s.len() ==> is_digit(#[trigger] s[i]),
    decreases s.len(),
{
    if s.len() > 0 && is_digit(s[0]) && acc * 10 + (s[0] - 48) <= limit {
        lemma_accumulate_digits(s.drop_first(), acc * 10 + (s[0] - 48), limit, over);
        if accumulate(s, acc, limit, over) is Ok {
            assert forall|i: int| 0 <= i < s.len() implies is_digit(#[trigger] s[i]) by {
                if i > 0 {
                    assert(s[i] == s.drop_first()[i - 1]);
                }
            }
        }
    }
}

/// A text that parses as an integer holds only digits and signs, so no `=`.
pub proof fn lemma_number_has_no_equals(s: Seq<u8>, max: int)
    ensures
        (parse_unsigned(s, max) is Ok || parse_i32_spec(s) is Ok) ==> forall|i: int| 0 <= i < s.len() ==> #[trigger] s[i] != 61,
{
    if s.len() > 0 {
        lemma_accumulate_digits(s, 0, max, IntError::PosOverflow);
        lemma_accumulate_digits(s.drop_first(), 0, max, IntError::PosOverflow);
        lemma_accumulate_digits(s, 0, 0x7fff_ffff, IntError::PosOverflow);
        lemma_accumulate_digits(s.drop_first(), 0, 0x7fff_ffff, IntError::PosOverflow);
        lemma_accumulate_digits(s.drop_first(), 0, 0x8000_0000, IntError::NegOverflow);
        if parse_unsigned(s, max) is Ok || parse_i32_spec(s) is Ok {
            assert forall|i: int| 0 <= i < s.len() implies #[trigger] s[i] != 61 by {
                if i > 0 {
                    assert(s[i] == s.drop_first()[i - 1]);
                }
            }
        }
    }
}

/// A number that parses as an unsigned type lies in its range.
pub proof fn lemma_parse_unsigned_bounds(s: Seq<u8>, max: int)
    requires
        max >= 0,
    ensures
        parse_unsigned(s, max) matches Ok(v) ==> 0 <= v <= max,
{
    if s.len() > 0 {
        lemma_accumulate_bounds(s.drop_first(), 0, max, IntError::PosOverflow);
        lemma_accumulate_bounds(s, 0, max, IntError::PosOverflow);
    }
}

/// Runs `accumulate` on `s[start..]` from 0.
fn accumulate_from(s: &[u8], start: usize, limit: u32, over: IntError) -> (res: Result<u32, IntError>)
    requires
        start <= s.len(),
    ensures
        match accumulate(s@.skip(start as int), 0, limit as int, over) {
            Ok(v) => res == Ok::<u32, IntError>(v as u32),
            Err(e) => res == Err::<u32, IntError>(e),
        },
{
    let mut acc: u64 = 0;
    let mut i: usize = start;
    assert(s@.skip(start as int).len() == s.len() - start);
    while i < s.len()
        invariant
            start <= i <= s.len(),
            acc <= limit,
            accumulate(s@.skip(start as int), 0, limit as int, over)
                == accumulate(s@.skip(i as int), acc as int, limit as int, over),
        decreases s.len() - i,
    {
        let b: u8 = s[i];
        assert(s@.skip(i as int)[0] == b);
        assert(s@.skip(i as int).drop_first() =~= s@.skip(i + 1));
        if b < 48 || b > 57 {
            return Err(IntError::InvalidDigit);
        }
        let next: u64 = acc * 10 + (b - 48) as u64;
        if next > limit as u64 {
            return Err(over);
        }
        acc = next;
        i = i + 1;
    }
    assert(s@.skip(i as int).len() == 0);
    Ok(acc as u32)
}

/// `text.parse::<u32>()`.
pub fn parse_u32(text: &[u8]) -> (res: Result<u32, IntError>)
    ensures
        match parse_unsigned(text@, u32::MAX as int) {
            Ok(v) => res == Ok::<u32, IntError>(v as u32),
            Err(e) => res == Err::<u32, IntError>(e),
        },
        res matches Ok(x) ==> parse_unsigned(text@, u32::MAX as int) == Ok::<int, IntError>(x as int),
{
    if text.len() == 0 {
        return Err(IntError::Empty);
    }
    if (text[0] == 43 || text[0] == 45) && text.len() == 1 {
        return Err(IntError::InvalidDigit);
    }
    let start: usize = if text[0] == 43 { 1 } else { 0 };
    assert(text@.skip(1) =~= text@.drop_first());
    assert(text@.skip(0) =~= text@);
    proof {
        lemma_accumulate_bounds(text@.skip(start as int), 0, u32::MAX as int, IntError::PosOverflow);
    }
    accumulate_from(text, start, u32::MAX, IntError::PosOverflow)
}

/// `text.parse::<u8>()`.
pub fn parse_u8(text: &[u8]) -> (res: Result<u8, IntError>)
    ensures
        match parse_unsigned(text@, u8::MAX as int) {
            Ok(v) => res == Ok::<u8, IntError>(v as u8),
            Err(e) => res == Err::<u8, IntError>(e),
        },
        res matches Ok(x) ==> parse_unsigned(text@, u8::MAX as int) == Ok::<int, IntError>(x as int),
{
    if text.len() == 0 {
        return Err(IntError::Empty);
    }
    if (text[0] == 43 || text[0] == 45) && text.len() == 1 {
        return Err(IntError::InvalidDigit);
    }
    let start: usize = if text[0] == 43 { 1 } else { 0 };
    assert(text@.skip(1) =~= text@.drop_first());
    assert(text@.skip(0) =~= text@);
    proof {
        lemma_accumulate_bounds(text@.skip(start as int), 0, 255, IntError::PosOverflow);
    }
    match accumulate_from(text, start, 255, IntError::PosOverflow) {
        Ok(v) => Ok(v as u8),
        Err(e) => Err(e),
    }
}

/// `text.parse::<i32>()`.
pub fn parse_i32(text: &[u8]) -> (res: Result<i32, IntError>)
    ensures
        match parse_i32_spec(text@) {
            Ok(v) => res == Ok::<i32, IntError>(v as i32),
            Err(e) => res == Err::<i32, IntError>(e),
        },
        res matches Ok(x) ==> parse_i32_spec(text@) == Ok::<int, IntError>(x as int),
{
    if text.len() == 0 {
        return Err(IntError::Empty);
    }
    if (text[0] == 43 || text[0] == 45) && text.len() == 1 {
        return Err(IntError::InvalidDigit);
    }
    assert(text@.skip(1) =~= text@.drop_first());
    assert(text@.skip(0) =~= text@);
    if text[0] == 45 {
        proof {
            lemma_accumulate_bounds(text@.skip(1), 0, 0x8000_0000, IntError::NegOverflow);
        }
        match accumulate_from(text, 1, 0x8000_0000, IntError::NegOverflow) {
            Ok(m) => Ok((0i64 - m as i64) as i32),
            Err(e) => Err(e),
        }
    } else {
        let start: usize = if text[0] == 43 { 1 } else { 0 };
        proof {
            lemma_accumulate_bounds(text@.skip(start as int), 0, 0x7fff_ffff, IntError::PosOverflow);
        }
        match accumulate_from(text, start, 0x7fff_ffff, IntError::PosOverflow) {
            Ok(v) => Ok(v as i32),
            Err(e) => Err(e),
        }
    }
}

/// The digits that `{}` prints for `n`.
pub open spec fn decimal(n: nat) -> Seq<u8>
    decreases n,
{
    if n < 10 {
        seq![(48 + n) as u8]
    } else {
        decimal(n / 10).push((48 + n % 10) as u8)
    }
}

/// Appends the decimal digits of `n` to `out`.
pub fn push_decimal(out: &mut Vec<u8>, n: u32)
    ensures
        final(out)@ == old(out)@ + decimal(n as nat),
    decreases n,
{
    if n >= 10 {
        push_decimal(out, n / 10);
    }
    out.push(48 + (n % 10) as u8);
    assert(old(out)@ + decimal(n as nat) =~= out@) by {
        if n >= 10 {
            assert(old(out)@ + decimal(n as nat) =~= (old(out)@ + decimal((n / 10) as nat)).push((48 + n % 10) as u8));
        }
    }
}

proof fn lemma_accumulate_push(s: Seq<u8>, c: u8, acc: int, limit: int, over: IntError)
    ensures
        accumulate(s.push(c), acc, limit, over) == match accumulate(s, acc, limit, over) {
            Ok(v) => accumulate(seq![c], v, limit, over),
            Err(e) => Err(e),
        },
    decreases s.len(),
{
    if s.len() == 0 {
        assert(s.push(c) =~= seq![c]);
    } else {
        assert(s.push(c)[0] == s[0]);
        assert(s.push(c).drop_first() =~= s.drop_first().push(c));
        if is_digit(s[0]) && acc * 10 + (s[0] - 48) <= limit {
            lemma_accumulate_push(s.drop_first(), c, acc * 10 + (s[0] - 48), limit, over);
        }
    }
}

proof fn lemma_decimal_digits(n: nat)
    ensures
        decimal(n).len() >= 1,
        forall|i: int| 0 <= i < decimal(n).len() ==> is_digit(#[trigger] decimal(n)[i]),
        n <= u32::MAX ==> accumulate(decimal(n), 0, u32::MAX as int, IntError::PosOverflow) == Ok::<int, IntError>(n as int),
    decreases n,
{
    if n >= 10 {
        lemma_decimal_digits(n / 10);
        let d = (48 + n % 10) as u8;
        lemma_accumulate_push(decimal(n / 10), d, 0, u32::MAX as int, IntError::PosOverflow);
        let one = seq![d];
        assert(one.drop_first() =~= Seq::<u8>::empty());
        assert((n / 10) * 10 + (d - 48) == n);
        assert(one[0] == d);
        assert(d == 48 + n % 10);
        assert(is_digit(d));
        if n <= u32::MAX {
            assert(accumulate(one.drop_first(), n as int, u32::MAX as int, IntError::PosOverflow) == Ok::<int, IntError>(n as int));
            assert(accumulate(one, (n / 10) as int, u32::MAX as int, IntError::PosOverflow) == Ok::<int, IntError>(n as int));
        }
        assert(decimal(n) == decimal(n / 10).push(d));
        assert forall|i: int| 0 <= i < decimal(n).len() implies is_digit(#[trigger] decimal(n)[i]) by {
            if i < decimal(n / 10).len() {
                assert(decimal(n)[i] == decimal(n / 10)[i]);
            }
        }
    } else {
        let one = decimal(n);
        assert(one == seq![(48 + n) as u8]);
        assert(one[0] == (48 + n) as u8);
        assert(one.drop_first() =~= Seq::<u8>::empty());
        assert(accumulate(one.drop_first(), n as int, u32::MAX as int, IntError::PosOverflow) == Ok::<int, IntError>(n as int));
    }
}

/// The digits printed for a `u32` parse back to it: `n.to_string().parse::<u32>() == Ok(n)`.
pub proof fn law_decimal_parses_back(n: u32)
    ensures
        parse_unsigned(decimal(n as nat), u32::MAX as int) == Ok::<int, IntError>(n as int),
{
    lemma_decimal_digits(n as nat);
    assert(is_digit(decimal(n as nat)[0]));
}

} // verus!
