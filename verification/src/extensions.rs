//! Small arithmetic extensions.

use vstd::prelude::*;

verus! {

/// The quotient of `n` by `d`, rounded up. Meaningful for `d > 0`.
pub open spec fn ceil_quotient(n: nat, d: nat) -> nat {
    if n % d == 0 {
        n / d
    } else {
        n / d + 1
    }
}

/// `ceil_quotient(n, d)` is the least number of groups of `d` that hold `n` items.
pub proof fn lemma_ceil_quotient_is_least(n: nat, d: nat)
    requires
        d > 0,
    ensures
        ceil_quotient(n, d) * d >= n,
        forall|q: nat| #[trigger] (q * d) >= n ==> q >= ceil_quotient(n, d),
        ceil_quotient(n, d) <= n,
        ceil_quotient(n, d) == 0 <==> n == 0,
{
    let c = ceil_quotient(n, d);
    assert(n == d * (n / d) + n % d) by {
        vstd::arithmetic::div_mod::lemma_fundamental_div_mod(n as int, d as int);
    }
    assert(0 <= n % d < d) by {
        vstd::arithmetic::div_mod::lemma_mod_bound(n as int, d as int);
    }
    assert(c * d >= n) by (nonlinear_arith)
        requires
            n == d * (n / d) + n % d,
            0 <= n % d < d,
            c == if n % d == 0 { n / d } else { n / d + 1 },
    ;
    assert forall|q: nat| #[trigger] (q * d) >= n implies q >= c by {
        if q < c {
            assert(q * d < n) by (nonlinear_arith)
                requires
                    q < c,
                    d > 0,
                    n == d * (n / d) + n % d,
                    0 <= n % d < d,
                    c == if n % d == 0 { n / d } else { n / d + 1 },
            ;
        }
    }
    assert(c <= n && (c == 0 <==> n == 0)) by (nonlinear_arith)
        requires
            d > 0,
            n == d * (n / d) + n % d,
            0 <= n % d < d,
            n / d >= 0,
            c == if n % d == 0 { n / d } else { n / d + 1 },
    ;
}

/// Division that rounds the quotient up instead of down.
pub trait CeilDiv<Rhs>: Sized {
    type Output;

    /// The divisors by which `self` can be divided.
    spec fn divides_by(self, rhs: Rhs) -> bool;

    /// The rounded-up quotient.
    spec fn ceil_div_value(self, rhs: Rhs) -> Self::Output;

    /// Performs a ceiled division: returns the quotient rounded up.
    fn ceil_div(self, rhs: Rhs) -> (quotient: Self::Output)
        requires
            self.divides_by(rhs),
        ensures
            quotient == self.ceil_div_value(rhs),
    ;
}

impl CeilDiv<usize> for usize {
    type Output = usize;

    open spec fn divides_by(self, rhs: usize) -> bool {
        rhs != 0
    }

    open spec fn ceil_div_value(self, rhs: usize) -> usize {
        ceil_quotient(self as nat, rhs as nat) as usize
    }

    fn ceil_div(self, rhs: usize) -> (quotient: usize)
        ensures
            quotient as nat == ceil_quotient(self as nat, rhs as nat),
    {
        proof {
            lemma_ceil_quotient_is_least(self as nat, rhs as nat);
        }
        let whole: usize = self / rhs;
        if self % rhs != 0 {
            whole + 1
        } else {
            whole
        }
    }
}

} // verus!
