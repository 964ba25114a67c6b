//! The conversion calculator: quoted USD amount to lamports.
//!
//! The formula is `usd_qty * 10^(10 - expo) / price`, truncated
//! toward zero. The fixed constant 10 encodes this program's decimal
//! convention: the destination currency's smallest unit is 10^10
//! times smaller than the human-readable unit the price is quoted
//! against. Every step is checked: a power outside the signed 64-bit
//! range, a zero divisor, or a quotient above the unsigned 64-bit
//! range is an `ArithmeticOverflow`; a negative quotient is a
//! `NegativeResult`.

use vstd::arithmetic::div_mod::lemma_div_nonincreasing;
use vstd::prelude::*;

use crate::error::ProcessError;

verus! {

/// Ten raised to `e`.
pub open spec fn pow10(e: nat) -> int
    decreases e,
{
    if e == 0 {
        1
    } else {
        10 * pow10((e - 1) as nat)
    }
}

pub proof fn lemma_pow10_pos(e: nat)
    ensures
        pow10(e) >= 1,
    decreases e,
{
    if e > 0 {
        lemma_pow10_pos((e - 1) as nat);
    }
}

pub proof fn lemma_pow10_monotone(a: nat, b: nat)
    requires
        a <= b,
    ensures
        pow10(a) <= pow10(b),
    decreases b,
{
    if a < b {
        lemma_pow10_monotone(a, (b - 1) as nat);
        lemma_pow10_pos((b - 1) as nat);
    }
}

pub proof fn lemma_pow10_18()
    ensures
        pow10(18) == 1000000000000000000,
{
    reveal_with_fuel(pow10, 19);
}

/// Division truncated toward zero, as the machine's signed division
/// rounds, in contrast to the Euclidean `/` of specifications.
pub open spec fn trunc_div(x: int, d: int) -> int
    recommends
        d != 0,
{
    if x == 0 {
        0
    } else if x > 0 && d > 0 {
        x / d
    } else if x < 0 && d < 0 {
        (-x) / (-d)
    } else if x < 0 {
        -((-x) / d)
    } else {
        -(x / (-d))
    }
}

/// The outcome of the conversion for every combination of quoted
/// amount, price and exponent. The power step is carried out in the
/// signed 64-bit domain, so an exponent putting `10^(10 - expo)`
/// outside it fails; the final amount must fit an unsigned 64-bit
/// word and must not be negative.
pub open spec fn spec_calculate(usd_qty: int, price: int, expo: int) -> Result<u64, ProcessError> {
    let e = 10 - expo;
    if !(0 <= e <= 18) {
        Err(ProcessError::ArithmeticOverflow)
    } else if price == 0 {
        Err(ProcessError::ArithmeticOverflow)
    } else {
        let q = trunc_div(pow10(e as nat) * usd_qty, price);
        if q < 0 {
            Err(ProcessError::NegativeResult)
        } else if q > u64::MAX {
            Err(ProcessError::ArithmeticOverflow)
        } else {
            Ok(q as u64)
        }
    }
}

/// Convert a quoted USD amount into lamports at the given price
/// snapshot values.
pub fn calculate_sol_amount(usd_qty: i64, price: i64, expo: i32) -> (r: Result<u64, ProcessError>)
    ensures
        r == spec_calculate(usd_qty as int, price as int, expo as int),
{
    let e: i64 = 10 - (expo as i64);
    if e < 0 || e > 18 {
        return Err(ProcessError::ArithmeticOverflow);
    }
    if price == 0 {
        return Err(ProcessError::ArithmeticOverflow);
    }
    let mut pow: i64 = 1;
    let mut i: i64 = 0;
    while i < e
        invariant
            0 <= i <= e <= 18,
            pow == pow10(i as nat),
        decreases e - i,
    {
        proof {
            lemma_pow10_pos(i as nat);
            lemma_pow10_monotone((i + 1) as nat, 18);
            lemma_pow10_18();
        }
        pow = pow * 10;
        i = i + 1;
    }
    proof {
        lemma_pow10_pos(e as nat);
        lemma_pow10_monotone(e as nat, 18);
        lemma_pow10_18();
        assert((pow as int) * (usd_qty as int) <= 1000000000000000000int * 9223372036854775807int
            && (pow as int) * (usd_qty as int) >= 1000000000000000000int
            * (-9223372036854775808int)) by (nonlinear_arith)
            requires
                1 <= pow <= 1000000000000000000int,
                -9223372036854775808int <= usd_qty <= 9223372036854775807int,
        ;
    }
    let prod: i128 = (pow as i128) * (usd_qty as i128);
    let ghost p_int: int = prod as int;
    let ghost d_int: int = price as int;
    proof {
        let p_abs: int = if p_int < 0 {
            -p_int
        } else {
            p_int
        };
        let d_abs: int = if d_int < 0 {
            -d_int
        } else {
            d_int
        };
        lemma_div_nonincreasing(p_abs, d_abs);
    }
    let q: i128 = match prod.checked_div(price as i128) {
        Some(q) => q,
        None => {
            proof {
                assert(false);
            }
            return Err(ProcessError::ArithmeticOverflow);
        },
    };
    proof {
        assert(q == trunc_div(pow10(e as nat) * (usd_qty as int), price as int));
    }
    if q < 0 {
        return Err(ProcessError::NegativeResult);
    }
    if q > u64::MAX as i128 {
        return Err(ProcessError::ArithmeticOverflow);
    }
    Ok(q as u64)
}

} // verus!
