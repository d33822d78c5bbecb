//! Decimal price text to scaled fixed-point integer conversion.
//!
//! The price arrives as text, e.g. `"6.789"`. With a configured precision
//! `p` the scaled price is `round(value * 10^p)`: the integer digits
//! followed by the first `p` fractional digits (padded with zeros), plus one
//! when the first dropped fractional digit is five or more. A value whose
//! scaled form exceeds the price type is truncated to its maximum.
//!
//! Accepted text is a plain unsigned decimal: one or more digits, optionally
//! followed by a dot and one or more digits. Text that is not valid UTF-8 is
//! reported as [`ConversionError::ConvertToStringError`]; valid UTF-8 text
//! that is not such a decimal as [`ConversionError::ParsingToF64Error`].

use vstd::prelude::*;

verus! {

/// Failure of the price conversion, named by the stage that failed.
#[derive(Clone, Copy, PartialEq, Eq, Structural, Debug)]
pub enum ConversionError {
    /// The price field was not valid UTF-8 text.
    ConvertToStringError,
    /// The price text was not an unsigned decimal number.
    ParsingToF64Error,
}

/// Whether the bytes are valid UTF-8; decided by the standard library.
pub uninterp spec fn utf8_ok(bytes: Seq<u8>) -> bool;

/// Relies on core::str::from_utf8, which returns Ok exactly when the bytes
/// are valid UTF-8.
#[verifier::external_body]
fn check_utf8(bytes: &Vec<u8>) -> (r: bool)
    ensures
        r == utf8_ok(bytes@),
{
    core::str::from_utf8(bytes.as_slice()).is_ok()
}

/// An ASCII decimal digit, `'0'` to `'9'`.
pub open spec fn is_digit(b: u8) -> bool {
    48 <= b <= 57
}

pub open spec fn all_digits(s: Seq<u8>) -> bool {
    forall|i: int| 0 <= i < s.len() ==> is_digit(s[i])
}

/// Index of the first `'.'` in the text, or its length if there is none.
pub open spec fn first_dot(s: Seq<u8>) -> int
    decreases s.len(),
{
    if s.len() == 0 {
        0
    } else if s[0] == 46 {
        0
    } else {
        1 + first_dot(s.skip(1))
    }
}

pub proof fn lemma_first_dot_is(s: Seq<u8>, k: int)
    requires
        0 <= k <= s.len(),
        forall|j: int| 0 <= j < k ==> s[j] != 46,
        k < s.len() ==> s[k] == 46,
    ensures
        first_dot(s) == k,
    decreases s.len(),
{
    if k == 0 {
    } else {
        let t = s.skip(1);
        assert(forall|j: int| 0 <= j < k - 1 ==> t[j] == s[j + 1] && s[j + 1] != 46);
        assert(k - 1 < t.len() ==> t[k - 1] == s[k]);
        lemma_first_dot_is(t, k - 1);
    }
}

/// The digits before the dot (or the whole text if there is no dot).
pub open spec fn int_digits(s: Seq<u8>) -> Seq<u8> {
    s.subrange(0, first_dot(s))
}

/// The digits after the dot; empty if there is no dot.
pub open spec fn frac_digits(s: Seq<u8>) -> Seq<u8> {
    if first_dot(s) < s.len() {
        s.subrange(first_dot(s) + 1, s.len() as int)
    } else {
        Seq::empty()
    }
}

/// An unsigned decimal: a nonempty integer part, and where a dot is present
/// a nonempty, all-digit fractional part behind it.
pub open spec fn decimal_format(s: Seq<u8>) -> bool {
    let d = first_dot(s);
    &&& d > 0
    &&& all_digits(int_digits(s))
    &&& d < s.len() ==> frac_digits(s).len() > 0 && all_digits(frac_digits(s))
}

/// The numeric value of a digit string, most significant digit first.
pub open spec fn digits_val(s: Seq<u8>) -> int
    decreases s.len(),
{
    if s.len() == 0 {
        0
    } else {
        digits_val(s.drop_last()) * 10 + (s.last() - 48)
    }
}

pub proof fn lemma_digits_val_nonneg(s: Seq<u8>)
    requires
        all_digits(s),
    ensures
        digits_val(s) >= 0,
    decreases s.len(),
{
    if s.len() > 0 {
        assert(all_digits(s.drop_last()));
        lemma_digits_val_nonneg(s.drop_last());
    }
}

pub open spec fn pow10(n: nat) -> int
    decreases n,
{
    if n == 0 {
        1
    } else {
        10 * pow10((n - 1) as nat)
    }
}

pub proof fn lemma_digits_val_concat(a: Seq<u8>, b: Seq<u8>)
    ensures
        digits_val(a + b) == digits_val(a) * pow10(b.len()) + digits_val(b),
    decreases b.len(),
{
    if b.len() == 0 {
        assert(a + b =~= a);
    } else {
        let front = b.drop_last();
        lemma_digits_val_concat(a, front);
        assert((a + b).drop_last() =~= a + front);
        assert((a + b).last() == b.last());
        assert((digits_val(a) * pow10(front.len()) + digits_val(front)) * 10 == digits_val(a)
            * (pow10(front.len()) * 10) + digits_val(front) * 10) by (nonlinear_arith);
        assert(pow10(front.len()) * 10 == pow10(b.len()));
    }
}

/// The fractional digits cut or zero-padded to exactly `p` digits.
pub open spec fn padded_frac(frac: Seq<u8>, p: nat) -> Seq<u8> {
    if frac.len() >= p {
        frac.subrange(0, p as int)
    } else {
        frac + Seq::new((p - frac.len()) as nat, |i: int| 48u8)
    }
}

/// All digits of the scaled integer: the integer part followed by the first
/// `p` fractional digits, zero-padded.
pub open spec fn combined_digits(s: Seq<u8>, p: nat) -> Seq<u8> {
    int_digits(s) + padded_frac(frac_digits(s), p)
}

/// Standard rounding at the precision boundary: round up exactly when the
/// first dropped fractional digit is `'5'` or more.
pub open spec fn rounds_up(s: Seq<u8>, p: nat) -> bool {
    frac_digits(s).len() > p && frac_digits(s)[p as int] >= 53
}

/// The mathematically exact scaled price `round(value * 10^p)`.
pub open spec fn spec_scaled(s: Seq<u8>, p: nat) -> int {
    digits_val(combined_digits(s, p)) + if rounds_up(s, p) {
        1int
    } else {
        0int
    }
}

/// The scaled price truncated to the price type on overflow.
pub open spec fn spec_scaled_saturated(s: Seq<u8>, p: nat) -> u64 {
    if spec_scaled(s, p) > u64::MAX {
        u64::MAX
    } else {
        spec_scaled(s, p) as u64
    }
}

/// Scaling law: on any accepted decimal the scaled price is the integer
/// part times `10^p`, plus the first `p` fractional digits read as an
/// integer, plus one at a rounding boundary — i.e. `round(value * 10^p)`.
pub proof fn lemma_scaled_is_scaling(s: Seq<u8>, p: nat)
    ensures
        spec_scaled(s, p) == digits_val(int_digits(s)) * pow10(p) + digits_val(
            padded_frac(frac_digits(s), p),
        ) + if rounds_up(s, p) {
            1int
        } else {
            0int
        },
{
    lemma_digits_val_concat(int_digits(s), padded_frac(frac_digits(s), p));
    assert(padded_frac(frac_digits(s), p).len() == p);
}

/// What the conversion returns for any price text.
pub open spec fn spec_convert(s: Seq<u8>, p: nat) -> Result<u64, ConversionError> {
    if decimal_format(s) {
        Result::Ok(spec_scaled_saturated(s, p))
    } else if !utf8_ok(s) {
        Result::Err(ConversionError::ConvertToStringError)
    } else {
        Result::Err(ConversionError::ParsingToF64Error)
    }
}

/// Feeds one more digit into the accumulated value `v`, keeping the
/// accumulator exact below the price maximum and otherwise recording that
/// the value has outgrown it.
fn push_digit(acc: u64, of: bool, b: u8, Ghost(v): Ghost<int>) -> (r: (u64, bool))
    requires
        is_digit(b),
        v >= 0,
        !of ==> v == acc,
        of ==> v > u64::MAX,
    ensures
        !r.1 ==> r.0 == v * 10 + (b - 48),
        r.1 ==> v * 10 + (b - 48) > u64::MAX,
{
    let d: u64 = (b - 48) as u64;
    if of {
        proof {
            assert(v * 10 == v * 9 + v);
            assert(v * 9 >= 0) by (nonlinear_arith)
                requires v >= 0;
        }
        (acc, true)
    } else if acc > (u64::MAX - d) / 10 {
        proof {
            let q = (u64::MAX - d) / 10;
            assert(q * 10 + 10 > u64::MAX - d) by (nonlinear_arith)
                requires q == (u64::MAX - d) / 10, 0 <= d <= 9;
            assert(acc * 10 >= (q + 1) * 10) by (nonlinear_arith)
                requires acc >= q + 1;
        }
        (acc, true)
    } else {
        proof {
            let q = (u64::MAX - d) / 10;
            assert(q * 10 <= u64::MAX - d) by (nonlinear_arith)
                requires q == (u64::MAX - d) / 10, 0 <= d <= 9;
            assert(acc * 10 <= q * 10) by (nonlinear_arith)
                requires 0 <= acc <= q;
        }
        (acc * 10 + d, false)
    }
}

/// Parses the price text and scales it by `10^precision` with standard
/// rounding, truncating to the price maximum on overflow. Returns
/// [`ConversionError::ConvertToStringError`] exactly when the text is not
/// valid UTF-8, and [`ConversionError::ParsingToF64Error`] exactly when it
/// is valid UTF-8 but not an unsigned decimal.
pub fn parse_scaled_price(text: &Vec<u8>, precision: u8) -> (r: Result<u64, ConversionError>)
    ensures
        r == spec_convert(text@, precision as nat),
{
    let n = text.len();
    let s = Ghost(text@);

    // Locate the first dot.
    let mut d: usize = 0;
    while d < n && text[d] != 46
        invariant
            0 <= d <= n,
            n == s@.len(),
            s@ == text@,
            forall|j: int| 0 <= j < d ==> s@[j] != 46,
        decreases n - d,
    {
        d = d + 1;
    }
    proof {
        lemma_first_dot_is(s@, d as int);
    }

    // Check the integer part.
    let mut valid: bool = d > 0;
    let mut j: usize = 0;
    while j < d
        invariant
            0 <= j <= d <= n,
            n == s@.len(),
            s@ == text@,
            valid == (d > 0 && forall|k: int| 0 <= k < j ==> is_digit(s@[k])),
        decreases d - j,
    {
        if !(48 <= text[j] && text[j] <= 57) {
            valid = false;
        }
        j = j + 1;
    }
    assert(valid == (d > 0 && all_digits(int_digits(s@)))) by {
        assert(int_digits(s@).len() == d);
        assert(forall|k: int| 0 <= k < d ==> int_digits(s@)[k] == s@[k]);
    }

    // Check the fractional part.
    if d < n {
        if n - (d + 1) == 0 {
            valid = false;
        }
        let mut k: usize = d + 1;
        while k < n
            invariant
                d + 1 <= k <= n,
                d < n,
                n == s@.len(),
                s@ == text@,
                first_dot(s@) == d,
                valid == (d > 0 && all_digits(int_digits(s@)) && n - (d + 1) > 0
                    && forall|j2: int| d + 1 <= j2 < k ==> is_digit(s@[j2])),
            decreases n - k,
        {
            if !(48 <= text[k] && text[k] <= 57) {
                valid = false;
            }
            k = k + 1;
        }
        proof {
            assert(frac_digits(s@).len() == n - (d + 1));
            if forall|j2: int| d + 1 <= j2 < n ==> is_digit(s@[j2]) {
                assert forall|i: int| 0 <= i < frac_digits(s@).len() implies is_digit(
                    frac_digits(s@)[i],
                ) by {
                    assert(frac_digits(s@)[i] == s@[d + 1 + i]);
                    assert(is_digit(s@[d + 1 + i]));
                }
            }
            if all_digits(frac_digits(s@)) {
                assert forall|j2: int| d + 1 <= j2 < n implies is_digit(s@[j2]) by {
                    assert(s@[j2] == frac_digits(s@)[j2 - (d + 1)]);
                    assert(is_digit(frac_digits(s@)[j2 - (d + 1)]));
                }
            }
        }
    }
    assert(valid == decimal_format(s@));

    if !valid {
        if check_utf8(text) {
            return Result::Err(ConversionError::ParsingToF64Error);
        } else {
            return Result::Err(ConversionError::ConvertToStringError);
        }
    }

    let p = precision as usize;
    let ghost comb = combined_digits(s@, precision as nat);
    let ghost frac = frac_digits(s@);
    proof {
        assert(padded_frac(frac, precision as nat).len() == precision as nat);
        assert(comb.len() == d + p);
        assert(all_digits(comb)) by {
            assert(forall|i: int| 0 <= i < d ==> comb[i] == s@[i] && is_digit(s@[i]));
            assert(forall|i: int| d <= i < comb.len() ==> comb[i] == padded_frac(
                frac,
                precision as nat,
            )[i - d]);
            assert(forall|i: int| 0 <= i < precision as nat ==> is_digit(
                padded_frac(frac, precision as nat)[i],
            ));
        }
    }

    // Accumulate the integer digits.
    let mut acc: u64 = 0;
    let mut of: bool = false;
    let mut i: usize = 0;
    while i < d
        invariant
            0 <= i <= d <= n,
            n == s@.len(),
            s@ == text@,
            p == precision as nat,
            first_dot(s@) == d,
            decimal_format(s@),
            comb == combined_digits(s@, precision as nat),
            all_digits(comb),
            comb.len() == d + p,
            forall|j2: int| 0 <= j2 < d ==> comb[j2] == s@[j2],
            !of ==> acc == digits_val(comb.take(i as int)),
            of ==> digits_val(comb.take(i as int)) > u64::MAX,
        decreases d - i,
    {
        let b = text[i];
        proof {
            assert(comb.take(i + 1).drop_last() =~= comb.take(i as int));
            assert(comb.take(i + 1).last() == comb[i as int]);
            if of {
                assert(all_digits(comb.take(i as int)));
                lemma_digits_val_nonneg(comb.take(i as int));
            }
        }
        let step = push_digit(acc, of, b, Ghost(digits_val(comb.take(i as int))));
        acc = step.0;
        of = step.1;
        i = i + 1;
    }

    // Accumulate the first `precision` fractional digits, zero-padded.
    let mut k: usize = 0;
    while k < p
        invariant
            0 <= k <= p,
            0 < d <= n,
            n == s@.len(),
            s@ == text@,
            p == precision as nat,
            first_dot(s@) == d,
            decimal_format(s@),
            comb == combined_digits(s@, precision as nat),
            frac == frac_digits(s@),
            all_digits(comb),
            comb.len() == d + p,
            frac.len() == if d < n {
                n - (d + 1)
            } else {
                0
            },
            forall|j2: int| 0 <= j2 < frac.len() ==> frac[j2] == s@[d + 1 + j2],
            forall|j2: int| d <= j2 < d + p ==> comb[j2] == if j2 - d < frac.len() {
                frac[j2 - d]
            } else {
                48u8
            },
            !of ==> acc == digits_val(comb.take((d + k) as int)),
            of ==> digits_val(comb.take((d + k) as int)) > u64::MAX,
        decreases p - k,
    {
        let b: u8 = if d < n && k < n - (d + 1) {
            text[d + 1 + k]
        } else {
            48
        };
        proof {
            assert(comb.take((d + k + 1) as int).drop_last() =~= comb.take((d + k) as int));
            assert(comb.take((d + k + 1) as int).last() == comb[(d + k) as int]);
            assert(b == comb[(d + k) as int]);
            if of {
                assert(all_digits(comb.take((d + k) as int)));
                lemma_digits_val_nonneg(comb.take((d + k) as int));
            }
        }
        let step = push_digit(acc, of, b, Ghost(digits_val(comb.take((d + k) as int))));
        acc = step.0;
        of = step.1;
        k = k + 1;
    }
    proof {
        assert(comb.take((d + p) as int) =~= comb);
        lemma_digits_val_nonneg(comb);
    }

    // Round at the precision boundary.
    let round = d < n && p < n - (d + 1) && text[d + 1 + p] >= 53;
    assert(round == rounds_up(s@, precision as nat));

    if of {
        Result::Ok(u64::MAX)
    } else if round {
        if acc == u64::MAX {
            Result::Ok(u64::MAX)
        } else {
            Result::Ok(acc + 1)
        }
    } else {
        Result::Ok(acc)
    }
}

} // verus!
