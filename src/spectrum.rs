use vstd::prelude::*;
use vstd::arithmetic::power2::{is_pow2, is_pow2_exists, is_pow2_equiv};

verus! {

/// `n` is `2^k` for some `k`; the only lengths the radix-2 transform accepts.
pub open spec fn is_power_of_two(n: int) -> bool {
    is_pow2_exists(n)
}

/// Tells whether the transform accepts a window of `n` samples: `n` must be
/// `1, 2, 4, 8, ...`; zero is refused.
pub fn accepts_length(n: usize) -> (r: bool)
    ensures
        r == is_power_of_two(n as int),
        r ==> n > 0,
{
    proof {
        is_pow2_equiv(n as int);
    }
    if n == 0 {
        proof {
            reveal(is_pow2);
        }
        return false;
    }
    let mut m: usize = n;
    while m > 1 && m % 2 == 0
        invariant
            m > 0,
            is_pow2(n as int) == is_pow2(m as int),
        decreases m,
    {
        proof {
            reveal(is_pow2);
        }
        m = m / 2;
    }
    proof {
        reveal(is_pow2);
    }
    m == 1
}

} // verus!
