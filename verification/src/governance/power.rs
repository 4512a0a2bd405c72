//! Voting power: how a held balance becomes a number of votes.
use vstd::prelude::*;

verus! {

/// The floor of the square root of `n`; zero for every `n <= 0`.
pub open spec fn floor_sqrt(n: int) -> int
    decreases n,
{
    if n <= 0 {
        0
    } else {
        let r = floor_sqrt(n - 1);
        if (r + 1) * (r + 1) <= n {
            r + 1
        } else {
            r
        }
    }
}

/// The votes that a balance is worth: the balance itself in linear mode, the
/// floor of its square root in quadratic mode.
pub open spec fn power_of(balance: int, quadratic: bool) -> int {
    if quadratic {
        floor_sqrt(balance)
    } else {
        balance
    }
}

/// `floor_sqrt(n)` is the one natural number whose square is at most `n` and
/// whose successor's square exceeds `n`.
pub proof fn lemma_floor_sqrt_bounds(n: int)
    requires
        n >= 0,
    ensures
        floor_sqrt(n) >= 0,
        floor_sqrt(n) * floor_sqrt(n) <= n,
        n < (floor_sqrt(n) + 1) * (floor_sqrt(n) + 1),
    decreases n,
{
    if n > 0 {
        lemma_floor_sqrt_bounds(n - 1);
        let r = floor_sqrt(n - 1);
        assert((r + 2) * (r + 2) == (r + 1) * (r + 1) + 2 * r + 3) by (nonlinear_arith);
        assert((r + 1) * (r + 1) == r * r + 2 * r + 1) by (nonlinear_arith);
    }
}

/// Any `r` that satisfies the two bounds is `floor_sqrt(n)`.
pub proof fn lemma_floor_sqrt_unique(n: int, r: int)
    requires
        0 <= r,
        r * r <= n,
        n < (r + 1) * (r + 1),
    ensures
        r == floor_sqrt(n),
{
    assert(n >= 0) by (nonlinear_arith)
        requires
            r * r <= n,
    ;
    lemma_floor_sqrt_bounds(n);
    let s = floor_sqrt(n);
    assert(r == s) by (nonlinear_arith)
        requires
            0 <= r,
            0 <= s,
            r * r <= n,
            n < (r + 1) * (r + 1),
            s * s <= n,
            n < (s + 1) * (s + 1),
    ;
}

/// One Newton step from any positive guess never falls below the floor of the
/// square root.
proof fn lemma_newton_step(n: int, x: int, y: int)
    requires
        n >= 1,
        x >= 1,
        y == (x + n / x) / 2,
    ensures
        n < (y + 1) * (y + 1),
        y >= 1,
{
    let q = n / x;
    assert(q >= 0 && n - q * x >= 0 && n - q * x < x) by (nonlinear_arith)
        requires
            q == n / x,
            x >= 1,
            n >= 1,
    ;
    let t = x + q;
    assert(2 * (y + 1) >= t + 1);
    assert(n < (y + 1) * (y + 1)) by (nonlinear_arith)
        requires
            2 * (y + 1) >= x + q + 1,
            n < q * x + x,
            x >= 1,
            q >= 0,
            y >= 0,
    ;
    assert(y >= 1) by (nonlinear_arith)
        requires
            n < (y + 1) * (y + 1),
            n >= 1,
            y >= 0,
    ;
}

/// The floor of the square root of `n` by Newton's method on integers.
///
/// Starts from `(n + 1) / 2` and replaces the guess `x` by `(x + n / x) / 2`
/// until the guess stops decreasing.
pub fn isqrt(n: i128) -> (root: i128)
    ensures
        root == floor_sqrt(n as int),
        n <= 0 ==> root == 0,
        n >= 0 ==> 0 <= root && root * root <= n < (root + 1) * (root + 1),
{
    if n <= 0 {
        return 0;
    }
    let mut x: i128 = n;
    let mut y: i128 = n / 2 + n % 2;
    proof {
        assert(n as int / n as int == 1) by (nonlinear_arith)
            requires
                n >= 1,
        ;
        assert((n + 1) * (n + 1) > n) by (nonlinear_arith)
            requires
                n >= 1,
        ;
    }
    while y < x
        invariant
            n >= 1,
            1 <= x <= n,
            y == (x + n / x) / 2,
            y <= (n + 1) / 2,
            n < (x + 1) * (x + 1),
        decreases x,
    {
        proof {
            lemma_newton_step(n as int, x as int, y as int);
        }
        x = y;
        proof {
            let q = n as int / x as int;
            assert(0 <= q <= n) by (nonlinear_arith)
                requires
                    q == n as int / x as int,
                    x >= 1,
                    n >= 1,
            ;
            if x >= 2 {
                assert(q <= n / 2) by (nonlinear_arith)
                    requires
                        q == n as int / x as int,
                        x >= 2,
                        n >= 1,
                ;
            } else {
                assert(n < 4) by (nonlinear_arith)
                    requires
                        n < (x + 1) * (x + 1),
                        x == 1,
                ;
            }
            assert(x + q <= n + 1) by (nonlinear_arith)
                requires
                    q == n as int / x as int,
                    1 <= x <= n,
                    n >= 1,
            ;
        }
        y = (x + n / x) / 2;
    }
    proof {
        let q = n as int / x as int;
        assert(x * x <= n) by (nonlinear_arith)
            requires
                q == n as int / x as int,
                (x + q) / 2 >= x,
                x >= 1,
                n >= 1,
        ;
        lemma_floor_sqrt_unique(n as int, x as int);
    }
    x
}

/// The voting power of a balance: unchanged in linear mode, its integer
/// square root in quadratic mode.
pub fn voting_power(balance: i128, use_quadratic: bool) -> (power: i128)
    ensures
        power == power_of(balance as int, use_quadratic),
{
    if use_quadratic {
        isqrt(balance)
    } else {
        balance
    }
}

} // verus!
