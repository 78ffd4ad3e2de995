//! The codes that a bit width can represent, and clamping to them.
//!
//! A quantized sample is an integer code. A signed code of `n` bits lies
//! between `-2^(n-1)` and `2^(n-1) - 1`; an unsigned one between `0` and
//! `2^n - 1`. Codes are held in 64-bit signed integers, which bounds the
//! widths that can be served: the power of two that a range is computed
//! from has to fit.

use super::generators::ConfigurationError;
use vstd::arithmetic::power2::{lemma2_to64, lemma2_to64_rest, lemma_pow2_unfold, pow2};
use vstd::prelude::*;

verus! {

/// The widest signed code, in bits.
pub const MAX_SIGNED_BITS: u8 = 63;

/// The widest unsigned code, in bits.
pub const MAX_UNSIGNED_BITS: u8 = 62;

/// The widest code of the given signedness, in bits.
pub open spec fn max_bits(is_signed: bool) -> nat {
    if is_signed {
        MAX_SIGNED_BITS as nat
    } else {
        MAX_UNSIGNED_BITS as nat
    }
}

/// Whether codes of this width and signedness can be computed: the width
/// is at least one bit and at most [`max_bits`].
pub open spec fn bits_supported(num_bits: nat, is_signed: bool) -> bool {
    1 <= num_bits <= max_bits(is_signed)
}

/// What is wrong with a width, if it is not supported: it is zero, or it
/// is more than [`max_bits`].
pub open spec fn width_error(num_bits: nat, is_signed: bool) -> Option<ConfigurationError> {
    if num_bits == 0 {
        Some(ConfigurationError::ZeroBits)
    } else if num_bits > max_bits(is_signed) {
        Some(ConfigurationError::TooManyBits)
    } else {
        None
    }
}

/// The smallest code of the given width.
pub open spec fn min_code(num_bits: nat, is_signed: bool) -> int
    recommends
        num_bits >= 1,
{
    if is_signed {
        -(pow2((num_bits - 1) as nat) as int)
    } else {
        0
    }
}

/// The largest code of the given width.
pub open spec fn max_code(num_bits: nat, is_signed: bool) -> int
    recommends
        num_bits >= 1,
{
    if is_signed {
        pow2((num_bits - 1) as nat) - 1
    } else {
        pow2(num_bits) - 1
    }
}

/// `code` raised to at least `low`, then lowered to at most `high`.
pub open spec fn clamp(code: int, low: int, high: int) -> int {
    let raised = if code < low {
        low
    } else {
        code
    };
    if raised > high {
        high
    } else {
        raised
    }
}

/// `code` clamped to the codes of the given width.
pub open spec fn fit(code: int, num_bits: nat, is_signed: bool) -> int {
    clamp(code, min_code(num_bits, is_signed), max_code(num_bits, is_signed))
}

/// Computes two to the power of `exponent`.
fn power_of_two(exponent: u8) -> (power: i64)
    requires
        exponent <= 62,
    ensures
        power == pow2(exponent as nat),
{
    let mut power: i64 = 1;
    let mut done: u8 = 0;
    proof {
        lemma2_to64();
    }
    while done < exponent
        invariant
            done <= exponent <= 62,
            power == pow2(done as nat),
        decreases exponent - done,
    {
        proof {
            lemma_pow2_unfold((done + 1) as nat);
            lemma_pow2_at_most(done as nat, 61);
            lemma2_to64_rest();
        }
        power = power * 2;
        done = done + 1;
    }
    power
}

/// Powers of two grow with the exponent.
proof fn lemma_pow2_at_most(small: nat, large: nat)
    requires
        small <= large,
    ensures
        pow2(small) <= pow2(large),
{
    if small < large {
        vstd::arithmetic::power2::lemma_pow2_strictly_increases(small, large);
    }
}

/// Accepts a supported width, and says of any other what is wrong with
/// it.
pub fn check_width(num_bits: u8, is_signed: bool) -> (checked: Result<(), ConfigurationError>)
    ensures
        checked is Ok <==> bits_supported(num_bits as nat, is_signed),
        match checked {
            Ok(_) => width_error(num_bits as nat, is_signed) is None,
            Err(e) => width_error(num_bits as nat, is_signed) == Some(e),
        },
{
    let widest: u8 = if is_signed {
        MAX_SIGNED_BITS
    } else {
        MAX_UNSIGNED_BITS
    };
    if num_bits == 0 {
        Err(ConfigurationError::ZeroBits)
    } else if num_bits > widest {
        Err(ConfigurationError::TooManyBits)
    } else {
        Ok(())
    }
}

/// Computes the smallest and the largest code of a supported width.
pub(crate) fn supported_code_range(num_bits: u8, is_signed: bool) -> (range: (i64, i64))
    requires
        bits_supported(num_bits as nat, is_signed),
    ensures
        range.0 == min_code(num_bits as nat, is_signed),
        range.1 == max_code(num_bits as nat, is_signed),
{
    proof {
        lemma_pow2_at_most(
            if is_signed {
                (num_bits - 1) as nat
            } else {
                num_bits as nat
            },
            62,
        );
        lemma2_to64_rest();
    }
    if is_signed {
        let half: i64 = power_of_two(num_bits - 1);
        (-half, half - 1)
    } else {
        let full: i64 = power_of_two(num_bits);
        (0, full - 1)
    }
}

/// Computes the smallest and the largest code of the given width, or
/// says what is wrong with the width.
pub fn code_range(num_bits: u8, is_signed: bool) -> (range: Result<(i64, i64), ConfigurationError>)
    ensures
        match range {
            Ok((low, high)) => bits_supported(num_bits as nat, is_signed)
                && low == min_code(num_bits as nat, is_signed)
                && high == max_code(num_bits as nat, is_signed),
            Err(e) => width_error(num_bits as nat, is_signed) == Some(e),
        },
{
    match check_width(num_bits, is_signed) {
        Ok(_) => Ok(supported_code_range(num_bits, is_signed)),
        Err(e) => Err(e),
    }
}

/// Raises `code` to at least `low`, then lowers it to at most `high`.
pub fn clamp_code(code: i64, low: i64, high: i64) -> (clamped: i64)
    ensures
        clamped == clamp(code as int, low as int, high as int),
{
    let raised: i64 = if code < low {
        low
    } else {
        code
    };
    if raised > high {
        high
    } else {
        raised
    }
}

/// Clamps `code` to the codes of the given width, or says what is wrong
/// with the width.
pub fn fit_to_bits(code: i64, num_bits: u8, is_signed: bool) -> (fitted: Result<
    i64,
    ConfigurationError,
>)
    ensures
        match fitted {
            Ok(c) => bits_supported(num_bits as nat, is_signed) && c == fit(
                code as int,
                num_bits as nat,
                is_signed,
            ),
            Err(e) => width_error(num_bits as nat, is_signed) == Some(e),
        },
{
    match code_range(num_bits, is_signed) {
        Ok((low, high)) => Ok(clamp_code(code, low, high)),
        Err(e) => Err(e),
    }
}

/// The codes of a width of at least one bit include zero and at least
/// one other code, and there are two to the power of the width of them.
pub proof fn lemma_code_range_shape(num_bits: nat, is_signed: bool)
    requires
        num_bits >= 1,
    ensures
        min_code(num_bits, is_signed) <= 0 <= max_code(num_bits, is_signed),
        min_code(num_bits, is_signed) < max_code(num_bits, is_signed),
        max_code(num_bits, is_signed) - min_code(num_bits, is_signed) + 1 == pow2(num_bits),
{
    lemma_pow2_unfold(num_bits);
    lemma_pow2_at_most(0, (num_bits - 1) as nat);
    lemma2_to64();
}

/// A fitted code lies within the codes of the width.
pub proof fn lemma_fit_in_range(code: int, num_bits: nat, is_signed: bool)
    requires
        num_bits >= 1,
    ensures
        min_code(num_bits, is_signed) <= fit(code, num_bits, is_signed) <= max_code(
            num_bits,
            is_signed,
        ),
{
    lemma_code_range_shape(num_bits, is_signed);
}

/// Fitting leaves a code of the width as it is, so fitting a second time
/// changes nothing.
pub proof fn lemma_fit_idempotent(code: int, num_bits: nat, is_signed: bool)
    requires
        num_bits >= 1,
    ensures
        min_code(num_bits, is_signed) <= code <= max_code(num_bits, is_signed) ==> fit(
            code,
            num_bits,
            is_signed,
        ) == code,
        fit(fit(code, num_bits, is_signed), num_bits, is_signed) == fit(
            code,
            num_bits,
            is_signed,
        ),
{
    lemma_code_range_shape(num_bits, is_signed);
}

/// Every code at or above the largest code of the width is fitted to the
/// largest code, and every code at or below the smallest to the smallest.
pub proof fn lemma_fit_saturates(code: int, num_bits: nat, is_signed: bool)
    requires
        num_bits >= 1,
    ensures
        code >= max_code(num_bits, is_signed) ==> fit(code, num_bits, is_signed) == max_code(
            num_bits,
            is_signed,
        ),
        code <= min_code(num_bits, is_signed) ==> fit(code, num_bits, is_signed) == min_code(
            num_bits,
            is_signed,
        ),
{
    lemma_code_range_shape(num_bits, is_signed);
}

} // verus!
