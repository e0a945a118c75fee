use vstd::arithmetic::div_mod::*;
use vstd::arithmetic::mul::*;
use vstd::arithmetic::power2::*;
use vstd::bits::*;
use vstd::prelude::*;
use vstd::string::*;

verus! {

/// Number of atomic units in one whole `Decimal`: eighteen fractional digits.
pub const DECIMAL_FRACTIONAL: u128 = 1_000_000_000_000_000_000;

/// `floor(x * y / d)`, the ratio arithmetic used for every pro-rata share.
pub open spec fn ratio_floor(x: int, y: int, d: int) -> int {
    (x * y) / d
}

/// The bits of `y` above position `i`, as a number.
spec fn high_bits(y: u128, i: nat) -> int {
    y as int / (pow2(i) as int)
}

proof fn lemma_quotient_bound(a: int, r: int, d: int, b: int, c: int)
    requires
        d > 0,
        a >= 0,
        r >= 0,
        a * d + r == b,
        0 <= b <= c,
    ensures
        a <= c / d,
{
    lemma_div_is_ordered(a * d, c, d);
    lemma_div_multiples_vanish(a, d);
    lemma_mul_is_commutative(a, d);
}

proof fn lemma_shift_prefix(y: u128, i: u128)
    requires
        i < 128,
    ensures
        (y >> i) == high_bits(y, i as nat),
        (y >> i) as int == 2 * (high_bits(y, (i + 1) as nat)) + (y >> i) % 2,
        high_bits(y, i as nat) <= y,
{
    lemma_u128_shr_is_div(y, i);
    lemma_pow2_pos(i as nat);
    lemma_pow2_adds(i as nat, 1);
    lemma2_to64();
    lemma_div_denominator(y as int, pow2(i as nat) as int, 2);
    lemma_fundamental_div_mod((y >> i) as int, 2);
    lemma_div_is_ordered_by_denominator(y as int, 1, pow2(i as nat) as int);
}

/// `floor(x * y / d)` computed without an intermediate product that could
/// overflow: the bits of `y` are fed in from the most significant one while
/// the quotient and remainder of `x * (leading bits of y)` by `d` are kept.
pub fn multiply_ratio(x: u128, y: u128, d: u128) -> (r: u128)
    requires
        d > 0,
        ratio_floor(x as int, y as int, d as int) <= u128::MAX,
    ensures
        r == ratio_floor(x as int, y as int, d as int),
{
    let qx = x / d;
    let rx = x % d;
    proof {
        lemma_fundamental_div_mod(x as int, d as int);
        assert(qx * d + rx == x) by {
            lemma_mul_is_commutative(qx as int, d as int);
        }
        lemma2_to64();
        lemma_pow2_adds(64, 64);
        assert(high_bits(y, 128) == 0) by {
            assert(pow2(64) * pow2(64) == 0x100000000000000000000000000000000) by {
                assert(0x10000000000000000 * 0x10000000000000000 == 0x100000000000000000000000000000000int) by (nonlinear_arith);
            }
            lemma_basic_div(y as int, pow2(128) as int);
        }
        assert(x * high_bits(y, 128) == 0);
        assert(x * 0 == 0) by (nonlinear_arith);
    }
    let mut q: u128 = 0;
    let mut r: u128 = 0;
    let mut i: u128 = 128;
    while i > 0
        invariant
            i <= 128,
            d > 0,
            qx * d + rx == x,
            rx < d,
            r < d,
            q * d + r == x * (high_bits(y, i as nat)),
            ratio_floor(x as int, y as int, d as int) <= u128::MAX,
        decreases i,
    {
        i = i - 1;
        let p = y >> i;
        let bit = p % 2;
        let ghost prev = high_bits(y, (i + 1) as nat);
        proof {
            lemma_shift_prefix(y, i);
            assert(x * (high_bits(y, i as nat)) <= x * y) by {
                lemma_mul_inequality(high_bits(y, i as nat), y as int, x as int);
                lemma_mul_is_commutative(x as int, high_bits(y, i as nat));
                lemma_mul_is_commutative(x as int, y as int);
            }
            assert(x * (2 * prev) <= x * (high_bits(y, i as nat))) by {
                lemma_mul_inequality(2 * prev, high_bits(y, i as nat), x as int);
                lemma_mul_is_commutative(x as int, 2 * prev);
                lemma_mul_is_commutative(x as int, high_bits(y, i as nat));
            }
            assert(x * (2 * prev) == 2 * (q * d + r)) by (nonlinear_arith)
                requires
                    q * d + r == x * prev,
            ;
            assert(0 <= x * (2 * prev)) by (nonlinear_arith)
                requires
                    prev >= 0,
            ;
        }
        // double the running value
        if r >= d - r {
            proof {
                assert((2 * q + 1) * d + (r - (d - r)) == 2 * (q * d + r)) by (nonlinear_arith);
                lemma_quotient_bound(
                    2 * q + 1,
                    r - (d - r),
                    d as int,
                    x * (2 * prev),
                    x * y,
                );
            }
            q = 2 * q + 1;
            r = r - (d - r);
        } else {
            proof {
                assert((2 * q) * d + 2 * r == 2 * (q * d + r)) by (nonlinear_arith);
                lemma_quotient_bound(2 * q, 2 * r, d as int, x * (2 * prev), x * y);
            }
            q = 2 * q;
            r = 2 * r;
        }
        assert(q * d + r == x * (2 * prev));
        // add x when the bit is set
        if bit == 1 {
            proof {
                assert(x * (2 * prev + 1) == x * (2 * prev) + x) by (nonlinear_arith);
            }
            if r >= d - rx {
                proof {
                    assert((q + qx + 1) * d + (r - (d - rx)) == (q * d + r) + (qx * d + rx))
                        by (nonlinear_arith);
                    lemma_quotient_bound(
                        q + qx + 1,
                        r - (d - rx),
                        d as int,
                        x * (high_bits(y, i as nat)),
                        x * y,
                    );
                }
                q = q + qx + 1;
                r = r - (d - rx);
            } else {
                proof {
                    assert((q + qx) * d + (r + rx) == (q * d + r) + (qx * d + rx))
                        by (nonlinear_arith);
                    lemma_quotient_bound(
                        q + qx,
                        r + rx,
                        d as int,
                        x * (high_bits(y, i as nat)),
                        x * y,
                    );
                }
                q = q + qx;
                r = r + rx;
            }
        } else {
            assert(bit == 0);
        }
    }
    proof {
        lemma2_to64();
        assert(high_bits(y, 0) == y);
        lemma_fundamental_div_mod_converse(x * y, d as int, q as int, r as int);
    }
    q
}

/// A fixed-point fraction with eighteen decimal digits: the value is
/// `atomics / DECIMAL_FRACTIONAL`.
#[derive(Clone, Copy, Debug, PartialEq, Eq, Structural)]
pub struct Decimal {
    pub atomics: u128,
}

/// `floor(amount * d)` for a decimal `d` given by its atomics.
pub open spec fn decimal_mul_floor(amount: int, atomics: int) -> int {
    ratio_floor(amount, atomics, DECIMAL_FRACTIONAL as int)
}

impl Decimal {
    pub fn zero() -> (r: Decimal)
        ensures
            r.atomics == 0,
    {
        Decimal { atomics: 0 }
    }

    pub fn one() -> (r: Decimal)
        ensures
            r.atomics == DECIMAL_FRACTIONAL,
    {
        Decimal { atomics: DECIMAL_FRACTIONAL }
    }

    /// `x / 100`.
    pub fn percent(x: u64) -> (r: Decimal)
        ensures
            r.atomics == x * 10_000_000_000_000_000,
    {
        proof {
            assert(x * 10_000_000_000_000_000 <= u128::MAX) by (nonlinear_arith)
                requires
                    x <= u64::MAX,
            ;
        }
        Decimal { atomics: x as u128 * 10_000_000_000_000_000 }
    }

    /// `floor(amount * self)`.
    pub fn mul_floor(self, amount: u128) -> (r: u128)
        requires
            self.atomics <= DECIMAL_FRACTIONAL,
        ensures
            r == decimal_mul_floor(amount as int, self.atomics as int),
            r <= amount,
    {
        proof {
            lemma_ratio_floor_le(amount as int, self.atomics as int, DECIMAL_FRACTIONAL as int);
        }
        multiply_ratio(amount, self.atomics, DECIMAL_FRACTIONAL)
    }
}

/// A share of at most the whole never exceeds the amount it is taken of.
pub proof fn lemma_ratio_floor_le(x: int, y: int, d: int)
    requires
        x >= 0,
        0 <= y <= d,
        d > 0,
    ensures
        0 <= ratio_floor(x, y, d) <= x,
{
    lemma_mul_inequality(y, d, x);
    lemma_mul_is_commutative(x, y);
    lemma_mul_is_commutative(x, d);
    lemma_div_is_ordered(x * y, x * d, d);
    lemma_div_multiples_vanish(x, d);
    lemma_mul_nonnegative(x, y);
    lemma_div_pos_is_pos(x * y, d);
}

/// Ratio shares grow with the share taken.
pub proof fn lemma_ratio_floor_monotone(x: int, y1: int, y2: int, d: int)
    requires
        x >= 0,
        0 <= y1 <= y2,
        d > 0,
    ensures
        ratio_floor(x, y1, d) <= ratio_floor(x, y2, d),
{
    lemma_mul_inequality(y1, y2, x);
    lemma_mul_is_commutative(x, y1);
    lemma_mul_is_commutative(x, y2);
    lemma_div_is_ordered(x * y1, x * y2, d);
}

/// The character of a single decimal digit.
pub open spec fn digit_char(d: nat) -> char {
    if d == 0 {
        '0'
    } else if d == 1 {
        '1'
    } else if d == 2 {
        '2'
    } else if d == 3 {
        '3'
    } else if d == 4 {
        '4'
    } else if d == 5 {
        '5'
    } else if d == 6 {
        '6'
    } else if d == 7 {
        '7'
    } else if d == 8 {
        '8'
    } else {
        '9'
    }
}

/// The decimal digits of `n`, most significant first, without sign or padding.
pub open spec fn decimal_digits(n: nat) -> Seq<char>
    decreases n,
{
    if n < 10 {
        seq![digit_char(n)]
    } else {
        decimal_digits(n / 10).push(digit_char(n % 10))
    }
}

/// The text of a single decimal digit.
fn digit_str(d: u128) -> (r: &'static str)
    requires
        d < 10,
    ensures
        r@ =~= seq![digit_char(d as nat)],
{
    if d == 0 {
        proof {
            reveal_strlit("0");
        }
        "0"
    } else if d == 1 {
        proof {
            reveal_strlit("1");
        }
        "1"
    } else if d == 2 {
        proof {
            reveal_strlit("2");
        }
        "2"
    } else if d == 3 {
        proof {
            reveal_strlit("3");
        }
        "3"
    } else if d == 4 {
        proof {
            reveal_strlit("4");
        }
        "4"
    } else if d == 5 {
        proof {
            reveal_strlit("5");
        }
        "5"
    } else if d == 6 {
        proof {
            reveal_strlit("6");
        }
        "6"
    } else if d == 7 {
        proof {
            reveal_strlit("7");
        }
        "7"
    } else if d == 8 {
        proof {
            reveal_strlit("8");
        }
        "8"
    } else {
        proof {
            reveal_strlit("9");
        }
        "9"
    }
}

/// The decimal text of `n`, as `Display` writes it for integers.
pub fn decimal_text(n: u128) -> (r: String)
    ensures
        r@ == decimal_digits(n as nat),
    decreases n,
{
    let mut text = if n < 10 {
        String::new()
    } else {
        decimal_text(n / 10)
    };
    text.append(digit_str(n % 10));
    assert(text@ =~= decimal_digits(n as nat));
    text
}

} // verus!
