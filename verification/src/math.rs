//! Overflow-checked fixed-point arithmetic.
//!
//! Every money computation of the engine goes through [`mul_div_u64`],
//! which evaluates `floor(a * b / c)` over a double-width intermediate so
//! that the multiplication itself cannot overflow.  Rounding is always
//! toward zero — the conservative, pool-favouring bias the rest of the
//! engine relies on.

use vstd::prelude::*;

use crate::errors::AmmError;

verus! {

/// `floor(a * b / c)` is defined and fits in a `u64`.
pub open spec fn mul_div_fits(a: u64, b: u64, c: u64) -> bool {
    c != 0 && (a * b) / (c as int) <= u64::MAX
}

/// The mathematical value of `floor(a * b / c)`.
pub open spec fn mul_div_value(a: u64, b: u64, c: u64) -> int {
    (a * b) / (c as int)
}

/// Computes `floor(a * b / c)` over a 128-bit intermediate.
///
/// Fails with `CalculationError` exactly when `c` is zero or the
/// quotient does not fit in a `u64`; the widened product itself can
/// never overflow.
pub fn mul_div_u64(a: u64, b: u64, c: u64) -> (r: Result<u64, AmmError>)
    ensures
        r is Ok <==> mul_div_fits(a, b, c),
        r matches Ok(v) ==> v == mul_div_value(a, b, c),
        r is Err ==> r == Err::<u64, AmmError>(AmmError::CalculationError),
{
    if c == 0 {
        return Err(AmmError::CalculationError);
    }
    proof {
        assert(a * b <= u128::MAX) by (nonlinear_arith)
            requires
                a <= u64::MAX,
                b <= u64::MAX,
        ;
    }
    let product: u128 = (a as u128) * (b as u128);
    let quotient: u128 = product / (c as u128);
    if quotient > u64::MAX as u128 {
        return Err(AmmError::CalculationError);
    }
    Ok(quotient as u64)
}

/// `r` is the integer square root of `n`, rounded down.
pub open spec fn is_floor_sqrt(n: u128, r: u64) -> bool {
    r * r <= n < (r + 1) * (r + 1)
}

/// Computes the integer square root of `n`, rounded down, by binary
/// search over the candidate roots.  Total: every `u128` has a `u64`
/// floor square root.
pub fn sqrt_u128(n: u128) -> (r: u64)
    ensures
        is_floor_sqrt(n, r),
{
    let mut lo: u64 = 0;
    let mut hi: u64 = u64::MAX;
    proof {
        assert((u64::MAX + 1) * (u64::MAX + 1) > u128::MAX) by (nonlinear_arith);
    }
    while lo < hi
        invariant
            lo <= hi,
            lo * lo <= n,
            (hi + 1) * (hi + 1) > n,
        decreases hi - lo,
    {
        let mid: u64 = lo + (hi - lo) / 2 + 1;
        proof {
            assert(mid * mid <= u128::MAX) by (nonlinear_arith)
                requires
                    mid <= u64::MAX,
            ;
        }
        if (mid as u128) * (mid as u128) <= n {
            lo = mid;
        } else {
            hi = mid - 1;
        }
    }
    lo
}

} // verus!
