//! Small arithmetic utilities, each with an exact contract.

use vstd::prelude::*;
use vstd::arithmetic::div_mod::{lemma_fundamental_div_mod, lemma_mod_multiples_basic};
use vstd::arithmetic::mul::lemma_mul_inequality;

verus! {

/// The sum of two numbers.
pub fn add(a: i32, b: i32) -> (r: i32)
    requires
        i32::MIN <= a + b <= i32::MAX,
    ensures
        r == a + b,
{
    a + b
}

/// The difference of two numbers.
pub fn subtract(a: i32, b: i32) -> (r: i32)
    requires
        i32::MIN <= a - b <= i32::MAX,
    ensures
        r == a - b,
{
    a - b
}

/// The product of two numbers.
pub fn multiply(a: i32, b: i32) -> (r: i32)
    requires
        i32::MIN <= a * b <= i32::MAX,
    ensures
        r == a * b,
{
    a * b
}

/// Twice the number.
pub fn double(x: i32) -> (r: i32)
    requires
        i32::MIN <= 2 * x <= i32::MAX,
    ensures
        r == 2 * x,
{
    x * 2
}

/// The square of the number.
pub fn square(x: i32) -> (r: i32)
    requires
        x * x <= i32::MAX,
    ensures
        r == x * x,
{
    proof {
        assert(0 <= x * x) by (nonlinear_arith);
    }
    x * x
}

/// The cube of the number.
pub fn cube(x: i32) -> (r: i32)
    requires
        i32::MIN <= x * x * x,
        x * x <= i32::MAX,
        x * x * x <= i32::MAX,
    ensures
        r == x * x * x,
{
    proof {
        lemma_cube_bounds(x as int);
    }
    x * x * x
}

/// Bounds on the intermediate square when the cube is representable.
proof fn lemma_cube_bounds(x: int)
    requires
        i32::MIN <= x * x * x,
        x * x <= i32::MAX,
        x * x * x <= i32::MAX,
    ensures
        0 <= x * x,
{
    assert(0 <= x * x) by (nonlinear_arith);
}

/// Twice the number (the private helper of [`double_add`]).
fn multiply_by_two(x: i32) -> (r: i32)
    requires
        i32::MIN <= 2 * x <= i32::MAX,
    ensures
        r == 2 * x,
{
    x * 2
}

/// Twice the sum of two numbers.
pub fn double_add(a: i32, b: i32) -> (r: i32)
    requires
        i32::MIN <= a + b <= i32::MAX,
        i32::MIN <= 2 * (a + b) <= i32::MAX,
    ensures
        r == 2 * (a + b),
{
    multiply_by_two(crate::math::add(a, b))
}

/// `b^e` as a mathematical integer.
pub open spec fn pow_int(b: int, e: nat) -> int
    decreases e,
{
    if e == 0 {
        1
    } else {
        b * pow_int(b, (e - 1) as nat)
    }
}

/// The magnitude of a power: it multiplies up factor by factor.
proof fn lemma_pow_abs(b: int, e: nat)
    ensures
        vstd::math::abs(pow_int(b, e)) == if e == 0 {
            1nat
        } else {
            (vstd::math::abs(b) * vstd::math::abs(pow_int(b, (e - 1) as nat))) as nat
        },
{
    if e > 0 {
        assert(vstd::math::abs(b * pow_int(b, (e - 1) as nat)) == vstd::math::abs(b)
            * vstd::math::abs(pow_int(b, (e - 1) as nat))) by (nonlinear_arith);
    }
}

/// When the final power is representable, so is every intermediate power:
/// with a base of magnitude at least two, each further factor at least
/// doubles the magnitude; smaller bases never leave `-1..=1`.
proof fn lemma_pow_intermediate(b: int, i: nat, e: nat)
    requires
        i <= e,
        i32::MIN <= pow_int(b, e) <= i32::MAX,
    ensures
        i32::MIN <= pow_int(b, i) <= i32::MAX,
    decreases e - i,
{
    if i < e {
        lemma_pow_abs(b, (i + 1) as nat);
        if vstd::math::abs(b) <= 1 {
            lemma_pow_small_base(b, i);
        } else {
            lemma_pow_abs_grows(b, (i + 1) as nat, e);
            lemma_pow_intermediate(b, (i + 1) as nat, e);
            let lo = vstd::math::abs(pow_int(b, i));
            let hi = vstd::math::abs(pow_int(b, (i + 1) as nat));
            assert(hi == vstd::math::abs(b) * lo);
            assert(2 * lo <= vstd::math::abs(b) * lo) by (nonlinear_arith)
                requires
                    vstd::math::abs(b) >= 2,
                    lo >= 0,
            ;
        }
    }
}

/// A base of magnitude at most one keeps every power within `-1..=1`.
proof fn lemma_pow_small_base(b: int, e: nat)
    requires
        vstd::math::abs(b) <= 1,
    ensures
        -1 <= pow_int(b, e) <= 1,
    decreases e,
{
    if e > 0 {
        lemma_pow_small_base(b, (e - 1) as nat);
        assert(-1 <= b * pow_int(b, (e - 1) as nat) <= 1) by (nonlinear_arith)
            requires
                -1 <= b <= 1,
                -1 <= pow_int(b, (e - 1) as nat) <= 1,
        ;
    }
}

/// With a base of magnitude at least two, the magnitude of a power never
/// shrinks as the exponent grows.
proof fn lemma_pow_abs_grows(b: int, i: nat, e: nat)
    requires
        i <= e,
        vstd::math::abs(b) >= 2,
    ensures
        vstd::math::abs(pow_int(b, i)) <= vstd::math::abs(pow_int(b, e)),
    decreases e - i,
{
    if i < e {
        lemma_pow_abs_grows(b, (i + 1) as nat, e);
        lemma_pow_abs(b, (i + 1) as nat);
        let lo = vstd::math::abs(pow_int(b, i));
        assert(lo <= vstd::math::abs(b) * lo) by (nonlinear_arith)
            requires
                vstd::math::abs(b) >= 2,
                lo >= 0,
        ;
    }
}

/// `base` raised to `exp`.  The result must be representable; the loop
/// computes every intermediate power, which then also is.
pub fn power(base: i32, exp: u32) -> (r: i32)
    requires
        i32::MIN <= pow_int(base as int, exp as nat) <= i32::MAX,
    ensures
        r == pow_int(base as int, exp as nat),
{
    let mut r: i32 = 1;
    let mut i: u32 = 0;
    while i < exp
        invariant
            i <= exp,
            r == pow_int(base as int, i as nat),
            i32::MIN <= pow_int(base as int, exp as nat) <= i32::MAX,
        decreases exp - i,
    {
        proof {
            let bi = base as int;
            let pi = pow_int(bi, i as nat);
            lemma_pow_intermediate(bi, (i + 1) as nat, exp as nat);
            assert(pow_int(bi, (i + 1) as nat) == bi * pi);
            assert(pi * bi == bi * pi) by (nonlinear_arith);
        }
        r = r * base;
        i = i + 1;
    }
    r
}

/// `a^exp + b^exp`.
pub fn power_sum(a: i32, b: i32, exp: u32) -> (r: i32)
    requires
        i32::MIN <= pow_int(a as int, exp as nat) <= i32::MAX,
        i32::MIN <= pow_int(b as int, exp as nat) <= i32::MAX,
        i32::MIN <= pow_int(a as int, exp as nat) + pow_int(b as int, exp as nat) <= i32::MAX,
    ensures
        r == pow_int(a as int, exp as nat) + pow_int(b as int, exp as nat),
{
    crate::math::add(power(a, exp), power(b, exp))
}

/// `n!` as a mathematical integer.
pub open spec fn fact(n: nat) -> nat
    decreases n,
{
    if n <= 1 {
        1
    } else {
        n * fact((n - 1) as nat)
    }
}

/// The factorial never shrinks as `n` grows by one.
pub proof fn lemma_fact_step(n: nat)
    requires
        n >= 1,
    ensures
        fact((n - 1) as nat) <= fact(n),
{
    if n >= 2 {
        lemma_mul_inequality(1, n as int, fact((n - 1) as nat) as int);
    }
}

/// `n` factorial.
pub fn factorial(n: u32) -> (r: u32)
    requires
        fact(n as nat) <= u32::MAX,
    ensures
        r == fact(n as nat),
    decreases n,
{
    if n <= 1 {
        1
    } else {
        proof {
            lemma_fact_step(n as nat);
        }
        let sub = factorial(n - 1);
        n * sub
    }
}

/// The `n`-th Fibonacci number as a mathematical integer.
pub open spec fn fib(n: nat) -> nat
    decreases n,
{
    if n == 0 {
        0
    } else if n == 1 {
        1
    } else {
        fib((n - 1) as nat) + fib((n - 2) as nat)
    }
}

/// Fibonacci numbers never shrink as the index grows.
pub proof fn lemma_fib_mono(i: nat, j: nat)
    requires
        i <= j,
    ensures
        fib(i) <= fib(j),
    decreases j,
{
    if i < j && j >= 2 {
        lemma_fib_mono(i, (j - 1) as nat);
    }
}

/// The `n`-th Fibonacci number.
pub fn fibonacci(n: u32) -> (r: u32)
    requires
        fib(n as nat) <= u32::MAX,
    ensures
        r == fib(n as nat),
    decreases n,
{
    if n == 0 {
        0
    } else if n == 1 {
        1
    } else {
        proof {
            lemma_fib_mono((n - 1) as nat, n as nat);
            lemma_fib_mono((n - 2) as nat, n as nat);
        }
        fibonacci(n - 1) + fibonacci(n - 2)
    }
}

/// Whether the number is even.
pub fn is_even(n: i32) -> (r: bool)
    ensures
        r == (n % 2 == 0),
{
    n % 2 == 0
}

/// Primality as stated over all candidate divisors.
pub open spec fn is_prime_spec(n: nat) -> bool {
    n >= 2 && forall|d: nat| 2 <= d < n ==> #[trigger] (n % d) != 0
}

/// A composite number has a divisor no larger than its square root.
proof fn lemma_small_divisor(n: nat, d: nat)
    requires
        2 <= d < n,
        n % d == 0,
    ensures
        exists|e: nat| 2 <= e && #[trigger] (e * e) <= n && n % e == 0,
{
    if d * d <= n {
        assert(2 <= d && d * d <= n && n % d == 0);
    } else {
        let q = n / d;
        lemma_fundamental_div_mod(n as int, d as int);
        assert(n == d * q);
        assert(q >= 2) by (nonlinear_arith)
            requires
                n == d * q,
                2 <= d < n,
        ;
        assert(q * q <= n) by (nonlinear_arith)
            requires
                n == d * q,
                d * d > n,
                d >= 2,
                q >= 2,
        ;
        lemma_mod_multiples_basic(d as int, q as int);
        assert(n % q == 0);
    }
}

/// Whether `n` is prime, by trial division up to the square root.
pub fn is_prime(n: u32) -> (r: bool)
    ensures
        r == is_prime_spec(n as nat),
{
    if n < 2 {
        return false;
    }
    let mut d: u32 = 2;
    while d <= n / d
        invariant
            2 <= d <= n,
            n >= 2,
            forall|e: nat| 2 <= e < d ==> #[trigger] ((n as nat) % e) != 0,
        decreases n - d,
    {
        proof {
            lemma_mul_inequality(d as int, (n / d) as int, d as int);
            lemma_fundamental_div_mod(n as int, d as int);
            vstd::arithmetic::div_mod::lemma_mod_bound(n as int, d as int);
            assert(d * d <= n) by (nonlinear_arith)
                requires
                    d <= n / d,
                    n == d * (n / d) + n % d,
                    0 <= n % d,
                    d >= 2,
            ;
            assert(d < n) by (nonlinear_arith)
                requires
                    2 <= d,
                    d * d <= n,
            ;
        }
        if n % d == 0 {
            return false;
        }
        d = d + 1;
    }
    proof {
        lemma_fundamental_div_mod(n as int, d as int);
        vstd::arithmetic::div_mod::lemma_mod_bound(n as int, d as int);
        assert(n < d * d) by (nonlinear_arith)
            requires
                n == d * (n / d) + n % d,
                0 <= n % d < d,
                n / d < d,
        ;
    }
    proof {
        assert forall|e: nat| 2 <= e < n implies #[trigger] ((n as nat) % e) != 0 by {
            if (n as nat) % e == 0 {
                lemma_small_divisor(n as nat, e);
                let e2 = choose|e2: nat| 2 <= e2 && #[trigger] (e2 * e2) <= n as nat && (n as nat) % e2 == 0;
                assert(e2 < d) by (nonlinear_arith)
                    requires
                        e2 * e2 <= n,
                        n < d * d,
                        e2 >= 0,
                        d >= 0,
                ;
                assert(false);
            }
        }
    }
    true
}

/// The number increased by one, when there is one.
pub fn plus_one(x: Option<i32>) -> (r: Option<i32>)
    requires
        x matches Some(i) ==> i < i32::MAX,
    ensures
        match x {
            Some(i) => r matches Some(o) && o == i + 1,
            None => r is None,
        },
{
    match x {
        None => None,
        Some(i) => Some(i + 1),
    }
}

/// An optional value, defaulted to zero and doubled when large.
pub fn handle_optional(opt: Option<i32>) -> (r: i32)
    requires
        opt matches Some(v) ==> (v > 10 ==> 2 * v <= i32::MAX),
    ensures
        match opt {
            Some(v) => r == if v > 10 {
                2 * v
            } else {
                v as int
            },
            None => r == 0,
        },
{
    match opt {
        Some(value) => {
            if value > 10 {
                value * 2
            } else {
                value
            }
        },
        None => 0,
    }
}

/// The coarse size category of a number.
pub fn categorize_number(num: i32) -> (r: &'static str)
    ensures
        num < 10 ==> r@ == "small"@,
        10 <= num < 100 ==> r@ == "medium"@,
        num >= 100 ==> r@ == "large"@,
{
    if num < 10 {
        "small"
    } else if num < 100 {
        "medium"
    } else {
        "large"
    }
}

} // verus!
