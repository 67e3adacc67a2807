//! Clock arithmetic: rates and durations. All times are in nanoseconds.
use vstd::arithmetic::div_mod::lemma_fundamental_div_mod_converse;
use vstd::prelude::*;

verus! {

/// Nanoseconds in a second.
pub const SECOND_NS: u128 = 1_000_000_000;

/// One more than the largest value of a 64-bit clock.
pub const CLOCK_RANGE: u128 = 0x1_0000_0000_0000_0000;

/// A rate of grains or samples, `numerator / denominator` per second.
#[derive(Debug, Clone, Copy, PartialEq, Eq, Structural)]
pub struct Rational {
    pub numerator: i64,
    pub denominator: i64,
}

/// A step that streams cannot take; the stream ends with an error.
#[derive(Debug, Clone, Copy, PartialEq, Eq, Structural)]
pub enum FlowError {
    Error,
}

/// What a flow carries.
#[derive(Debug, Clone, Copy, PartialEq, Eq, Structural)]
pub enum Media {
    Video,
    Audio,
}

pub open spec fn max(a: int, b: int) -> int {
    if a >= b {
        a
    } else {
        b
    }
}

pub open spec fn min(a: int, b: int) -> int {
    if a <= b {
        a
    } else {
        b
    }
}

/// `a - b`, or zero where that is negative.
pub open spec fn monus(a: int, b: int) -> int {
    if a >= b {
        a - b
    } else {
        0
    }
}

/// A signed rate component as an unsigned 128-bit number, in two's complement.
pub open spec fn unsigned(x: i64) -> int {
    if x >= 0 {
        x as int
    } else {
        x + 0x1_0000_0000_0000_0000_0000_0000_0000_0000
    }
}

fn to_unsigned(x: i64) -> (wide: u128)
    ensures
        wide == unsigned(x),
{
    proof {
        assert(x >= 0 ==> (x as u128) as int == x) by (bit_vector);
        assert(x < 0 ==> (x as u128) as int == x + 0x1_0000_0000_0000_0000_0000_0000_0000_0000)
            by (bit_vector);
    }
    x as u128
}

/// The low 64 bits of a duration, which is how a clock holds it.
pub fn to_clock(ns: u128) -> (clock: u64)
    ensures
        clock == ns % CLOCK_RANGE,
{
    proof {
        assert((ns as u64) as int == ns % 0x1_0000_0000_0000_0000) by (bit_vector);
    }
    ns as u64
}

/// How long `count` grains or samples last at `rate`, rounded down.
pub open spec fn span(count: int, rate: Rational) -> int {
    (count * SECOND_NS * unsigned(rate.denominator)) / unsigned(rate.numerator)
}

/// Whether the duration of `count` grains or samples can be computed: the rate
/// is not zero and the product of count, second and denominator fits 128 bits.
pub open spec fn can_span(count: int, rate: Rational) -> bool {
    &&& rate.numerator != 0
    &&& count * SECOND_NS * unsigned(rate.denominator) <= u128::MAX
}

/// Tells whether [`span_ns`] can be asked for `count` and `rate`.
pub fn check_span(count: u64, rate: Rational) -> (ok: bool)
    ensures
        ok == can_span(count as int, rate),
{
    let ns: u128 = count as u128 * SECOND_NS;
    rate.numerator != 0 && ns.checked_mul(to_unsigned(rate.denominator)).is_some()
}

/// How long `count` grains or samples last at `rate`, rounded down.
pub fn span_ns(count: u64, rate: Rational) -> (ns: u128)
    requires
        can_span(count as int, rate),
    ensures
        ns == span(count as int, rate),
{
    let ns: u128 = count as u128 * SECOND_NS;
    let ns: u128 = ns * to_unsigned(rate.denominator);
    ns / to_unsigned(rate.numerator)
}

/// Longer runs last no shorter.
pub proof fn lemma_span_monotone(a: int, b: int, rate: Rational)
    requires
        0 <= a <= b,
        rate.numerator != 0,
    ensures
        0 <= span(a, rate) <= span(b, rate),
{
    let d = unsigned(rate.denominator);
    let n = unsigned(rate.numerator);
    let s = SECOND_NS as int;
    assert(0 <= a * s * d <= b * s * d) by (nonlinear_arith)
        requires
            0 <= a <= b,
            s >= 0,
            d >= 0,
    ;
    assert(0 <= (a * s * d) / n <= (b * s * d) / n) by (nonlinear_arith)
        requires
            0 <= a * s * d <= b * s * d,
            n > 0,
    ;
}

/// A duration is the largest whole number of nanoseconds that does not exceed
/// the exact one.
pub proof fn law_durations_round_down(count: u64, rate: Rational)
    requires
        rate.numerator > 0,
        rate.denominator >= 0,
    ensures
        span(count as int, rate) * rate.numerator <= count * 1_000_000_000 * rate.denominator < (span(
            count as int,
            rate,
        ) + 1) * rate.numerator,
{
    let total = count * SECOND_NS * rate.denominator;
    let n = rate.numerator as int;
    assert((total / n) * n <= total < (total / n + 1) * n) by (nonlinear_arith)
        requires
            n > 0,
    ;
}

/// At every rate that a flow description can give, the duration of any number
/// of grains or samples can be computed.
pub proof fn law_described_rates_can_be_timed(count: u64, rate: Rational)
    requires
        rate.numerator != 0,
        0 <= rate.denominator <= i32::MAX,
    ensures
        can_span(count as int, rate),
{
    let c = count as int;
    let s = SECOND_NS as int;
    let d = rate.denominator as int;
    assert(c * s * d <= 0xffff_ffff_ffff_ffff * 1_000_000_000 * 0x7fff_ffff) by (nonlinear_arith)
        requires
            0 <= c <= 0xffff_ffff_ffff_ffff,
            s == 1_000_000_000,
            0 <= d <= 0x7fff_ffff,
    ;
}

/// The duration of `count` grains or samples is known by what it has to
/// satisfy: it is the one whole number of nanoseconds that does not exceed
/// `count * denominator / numerator` seconds and whose successor does.
pub proof fn law_durations_are_unique(count: u64, rate: Rational, ns: int)
    requires
        rate.numerator > 0,
        rate.denominator >= 0,
        ns * rate.numerator <= count * 1_000_000_000 * rate.denominator < (ns + 1)
            * rate.numerator,
    ensures
        span(count as int, rate) == ns,
{
    let n = rate.numerator as int;
    let total = count * 1_000_000_000 * rate.denominator;
    assert((ns + 1) * n == ns * n + n) by (nonlinear_arith);
    lemma_fundamental_div_mod_converse(total, n, ns, total - ns * n);
    assert(count * SECOND_NS * unsigned(rate.denominator) == total);
}

/// A duration can be computed exactly if the numerator is not zero and the
/// product of count, second and denominator is below 2^128. A negative
/// denominator counts as a number close to 2^128, which only a count of zero
/// leaves in range.
pub proof fn law_durations_that_can_be_computed(count: u64, rate: Rational)
    ensures
        can_span(count as int, rate) <==> rate.numerator != 0 && (if rate.denominator >= 0 {
            count * 1_000_000_000 * rate.denominator < 0x1_0000_0000_0000_0000_0000_0000_0000_0000
        } else {
            count == 0
        }),
{
    let d = unsigned(rate.denominator);
    let c = count as int;
    if rate.denominator < 0 && count > 0 {
        assert(c * 1_000_000_000 * d >= d * 1_000_000_000) by (nonlinear_arith)
            requires
                c >= 1,
                d >= 0,
        ;
    }
    if count == 0 {
        assert(c * 1_000_000_000 * d == 0) by (nonlinear_arith)
            requires
                c == 0,
        ;
    }
}

/// A negative numerator counts as a number close to 2^128 too.
pub proof fn law_durations_at_negative_rates(count: u64, rate: Rational)
    requires
        rate.numerator < 0,
        rate.denominator >= 0,
    ensures
        ({
            let n = 0x1_0000_0000_0000_0000_0000_0000_0000_0000 + rate.numerator;
            span(count as int, rate) * n <= count * 1_000_000_000 * rate.denominator < (span(
                count as int,
                rate,
            ) + 1) * n
        }),
{
    let total = count * SECOND_NS * rate.denominator;
    let n = unsigned(rate.numerator);
    assert((total / n) * n <= total < (total / n + 1) * n) by (nonlinear_arith)
        requires
            n > 0,
    ;
}

} // verus!
