//! The primality test that decides which numbers leave a dot.

use vstd::prelude::*;

verus! {

/// `n` is prime: at least 2, and no divisor `d` from 2 up to the integer
/// square root of `n` (written `d * d <= n`) divides it.
pub open spec fn is_prime_spec(n: int) -> bool {
    &&& 2 <= n
    &&& forall|d: int| 2 <= d && d * d <= n ==> #[trigger] (n % d) != 0
}

/// For a positive `k`, comparing `k` with `n / k` settles where `k * k`
/// stands with respect to `n`.
proof fn lemma_square_le_iff_div(k: int, n: int) by (nonlinear_arith)
    requires
        1 <= k,
        0 <= n,
    ensures
        k * k <= n <==> k <= n / k,
{
}

/// Decides by trial division whether `num` is prime.
pub fn is_prime(num: i64) -> (r: bool)
    ensures
        r == is_prime_spec(num as int),
{
    if num < 2 {
        return false;
    }
    let mut d: i64 = 2;
    while d <= num / d
        invariant
            2 <= num,
            2 <= d <= num,
            d <= 3_037_000_500,
            forall|e: int| 2 <= e < d ==> #[trigger] ((num as int) % e) != 0,
        decreases num - d,
    {
        proof {
            lemma_square_le_iff_div(d as int, num as int);
            assert(d * d <= num);
        }
        if num % d == 0 {
            proof {
                assert((num as int) % (d as int) == 0);
                assert(!is_prime_spec(num as int));
            }
            return false;
        }
        proof {
            assert(d + 1 <= 3_037_000_500 && d < num) by (nonlinear_arith)
                requires
                    2 <= d,
                    d * d <= num,
            ;
        }
        d = d + 1;
    }
    proof {
        lemma_square_le_iff_div(d as int, num as int);
        assert((num as int) < d * d);
        assert forall|e: int| 2 <= e && e * e <= num as int
            implies #[trigger] ((num as int) % e) != 0 by {
            assert(e < d) by (nonlinear_arith)
                requires
                    2 <= e,
                    2 <= d,
                    e * e <= num as int,
                    (num as int) < d * d,
            ;
        }
    }
    true
}

} // verus!
