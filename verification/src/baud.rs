//! Speed of the serial line between the FPGA and the hashing chips.

use crate::error::ErrorKind;
use crate::text::{decimal, push_decimal};
use vstd::prelude::*;
use vstd::string::*;

verus! {

/// Oscillator speed for all chips on S9 hash boards.
pub const CHIP_OSC_CLK_HZ: usize = 25_000_000;

/// Exact value of the initial baud rate after reset of the hashing chips.
pub const INIT_CHIP_BAUD_RATE: usize = 115740;

/// Exact desired target baud rate when hashing at full speed (matches the divisor, too).
pub const TARGET_CHIP_BAUD_RATE: usize = 1562500;

/// Base clock speed of the IP core running in the FPGA.
pub const FPGA_IPCORE_F_CLK_SPEED_HZ: usize = 50_000_000;

/// Divisor of the base clock. The resulting clock is connected to UART.
pub const FPGA_IPCORE_F_CLK_BASE_BAUD_DIV: usize = 16;

/// By how many percent the actual baud rate may differ from the requested one.
pub const MAX_BAUD_RATE_ERR_PERC: usize = 5;

/// The quotient `a / b`, rounded to the nearest integer, halves up.
pub open spec fn rounded_quotient(a: int, b: int) -> int {
    (2 * a + b) / (2 * b)
}

/// Whether the line can be made to run at about this speed: the base clock is not
/// divided by less than one.
pub open spec fn reachable(baud_rate: int, base_clock_hz: int, base_clock_div: int) -> bool {
    rounded_quotient(base_clock_hz, base_clock_div * baud_rate) >= 1
}

/// The value of the baud rate register that comes closest to `baud_rate`: the
/// line runs at the base clock divided by this value plus one. For a speed that is
/// out of reach it is the value at which the line is fastest.
pub open spec fn baud_div(baud_rate: int, base_clock_hz: int, base_clock_div: int) -> int {
    if reachable(baud_rate, base_clock_hz, base_clock_div) {
        rounded_quotient(base_clock_hz, base_clock_div * baud_rate) - 1
    } else {
        0
    }
}

/// The baud rate that a value of the baud rate register gives.
pub open spec fn actual_baud_rate(div: int, base_clock_hz: int, base_clock_div: int) -> int {
    base_clock_hz / (base_clock_div * (div + 1))
}

pub open spec fn distance(a: int, b: int) -> int {
    if a > b {
        a - b
    } else {
        b - a
    }
}

/// Whether a baud rate is close enough to the requested one.
pub open spec fn baud_rate_acceptable(requested: int, actual: int) -> bool {
    distance(actual, requested) <= MAX_BAUD_RATE_ERR_PERC * requested / 100
}

/// The text of the error for a baud rate that cannot be reached.
pub open spec fn baud_error_text(requested: int, actual: int) -> Seq<char> {
    "requested "@ + decimal(requested as nat) + " baud, resulting "@ + decimal(actual as nat)
        + " baud"@
}

/// Whether `r` is the outcome of calculating a divisor: the divisor and the
/// actual baud rate, if the requested one is within reach and the actual one is
/// close enough to it.
pub open spec fn is_baud_outcome(
    r: Result<(usize, usize), ErrorKind>,
    baud_rate: int,
    base_clock_hz: int,
    base_clock_div: int,
) -> bool {
    let div = baud_div(baud_rate, base_clock_hz, base_clock_div);
    let actual = actual_baud_rate(div, base_clock_hz, base_clock_div);
    if reachable(baud_rate, base_clock_hz, base_clock_div) && baud_rate_acceptable(
        baud_rate,
        actual,
    ) {
        r matches Ok((d, a)) && d == div && a == actual
    } else {
        r matches Err(ErrorKind::BaudRate(text)) && text@ == baud_error_text(baud_rate, actual)
    }
}

/// The arguments for which the divisor can be calculated: there is something to
/// divide by, and ten times the clock speed fits the machine.
pub open spec fn baud_args_ok(baud_rate: usize, base_clock_hz: usize, base_clock_div: usize) -> bool {
    &&& 0 < baud_rate
    &&& 0 < base_clock_div
    &&& 10 * base_clock_hz <= usize::MAX
}

/// Calculates the baud rate clock divisor for the specified baud rate.
///
/// The calculation follows the same scheme for the hashing chips as well as for
/// the FPGA IP core.
///
/// * `baud_rate` - requested baud rate
/// * `base_clock_hz` - base clock for the UART peripheral
/// * `base_clock_div` - divisor for the base clock
///
/// Returns the divisor and the actual baud rate, or an error if the requested baud
/// rate is out of reach or the two baud rates differ by more than a few percent.
pub fn calc_baud_clock_div(
    baud_rate: usize,
    base_clock_hz: usize,
    base_clock_div: usize,
) -> (r: Result<(usize, usize), ErrorKind>)
    requires
        baud_args_ok(baud_rate, base_clock_hz, base_clock_div),
    ensures
        is_baud_outcome(r, baud_rate as int, base_clock_hz as int, base_clock_div as int),
{
    // The actual calculation is:
    // base_clock_hz / (base_clock_div * baud_rate) - 1
    // The calculated divisor is rounded in fixed point arithmetic.
    proof {
        lemma_baud_arithmetic(baud_rate as int, base_clock_hz as int, base_clock_div as int);
    }
    let rounded: usize = match base_clock_div.checked_mul(baud_rate) {
        Some(divisor) => (10 * base_clock_hz / divisor + 5) / 10,
        None => 0,
    };
    if rounded == 0 {
        return Err(ErrorKind::BaudRate(baud_error(baud_rate, base_clock_hz / base_clock_div)));
    }
    let baud_div: usize = rounded - 1;
    let actual_baud_rate: usize = base_clock_hz / (base_clock_div * (baud_div + 1));
    let baud_rate_diff: usize = if actual_baud_rate > baud_rate {
        actual_baud_rate - baud_rate
    } else {
        baud_rate - actual_baud_rate
    };
    if baud_rate_diff > MAX_BAUD_RATE_ERR_PERC * baud_rate / 100 {
        return Err(ErrorKind::BaudRate(baud_error(baud_rate, actual_baud_rate)));
    }
    Ok((baud_div, actual_baud_rate))
}

/// The text of the error for a baud rate that cannot be reached.
fn baud_error(requested: usize, actual: usize) -> (text: String)
    ensures
        text@ == baud_error_text(requested as int, actual as int),
{
    let mut text = "requested ".to_owned();
    push_decimal(&mut text, requested);
    text.append(" baud, resulting ");
    push_decimal(&mut text, actual);
    text.append(" baud");
    text
}

/// The rounding in fixed point arithmetic is the exact one, and nothing in the
/// calculation overflows.
proof fn lemma_baud_arithmetic(b: int, c: int, d: int)
    requires
        0 < b,
        0 < d,
        0 <= c,
        10 * c <= usize::MAX,
    ensures
        0 < d * b,
        d <= d * b,
        b <= d * b,
        10 * c / (d * b) <= 10 * c,
        (10 * c / (d * b) + 5) / 10 == rounded_quotient(c, d * b),
        rounded_quotient(c, d * b) >= 0,
        reachable(b, c, d) <==> d * b <= 2 * c,
        reachable(b, c, d) ==> 0 < d * rounded_quotient(c, d * b) <= usize::MAX,
{
    let m = d * b;
    let q = 10 * c / m;
    let r = (q + 5) / 10;
    assert(0 < m && d <= m && b <= m) by (nonlinear_arith)
        requires
            m == d * b,
            0 < b,
            0 < d,
    ;
    assert(m * q <= 10 * c < m * q + m && q >= 0) by (nonlinear_arith)
        requires
            m > 0,
            c >= 0,
            q == 10 * c / m,
    ;
    assert(q <= 10 * c) by (nonlinear_arith)
        requires
            m * q <= 10 * c,
            m > 0,
            q >= 0,
    ;
    // 10 r <= q + 5 < 10 r + 10
    assert(m * (10 * r) <= m * (q + 5)) by (nonlinear_arith)
        requires
            10 * r <= q + 5,
            m > 0,
    ;
    assert(m * (q + 5) <= m * (10 * r + 9)) by (nonlinear_arith)
        requires
            q + 5 <= 10 * r + 9,
            m > 0,
    ;
    assert(2 * m * r <= 2 * c + m < 2 * m * r + 2 * m) by (nonlinear_arith)
        requires
            m * (10 * r) <= m * (q + 5),
            m * (q + 5) <= m * (10 * r + 9),
            m * q <= 10 * c < m * q + m,
    ;
    assert((2 * c + m) / (2 * m) == r) by (nonlinear_arith)
        requires
            2 * m * r <= 2 * c + m < 2 * m * r + 2 * m,
            m > 0,
    ;
    assert(r >= 1 <==> m <= 2 * c) by (nonlinear_arith)
        requires
            2 * m * r <= 2 * c + m < 2 * m * r + 2 * m,
            m > 0,
            r >= 0,
    ;
    if r >= 1 {
        assert(d * r <= m * r && 0 < d * r) by (nonlinear_arith)
            requires
                d <= m,
                r >= 1,
                d > 0,
        ;
        assert(m * r == r * m && 2 * m * r == 2 * (m * r)) by (nonlinear_arith);
    }
}

/// A speed is within reach unless it is more than twice that of the base clock. The
/// divisor for a speed within reach is the one nearest to the exact quotient, and
/// the baud rate that an accepted divisor gives is within a twentieth of the
/// requested one. At a speed that is out of reach, even the fastest the line can
/// run is less than half of what was requested.
pub proof fn law_baud_div_is_nearest(baud_rate: usize, base_clock_hz: usize, base_clock_div: usize)
    requires
        baud_args_ok(baud_rate, base_clock_hz, base_clock_div),
    ensures
        ({
            let b = baud_rate as int;
            let c = base_clock_hz as int;
            let d = base_clock_div as int;
            let div = baud_div(b, c, d);
            let actual = actual_baud_rate(div, c, d);
            &&& div >= 0
            &&& reachable(b, c, d) <==> d * b <= 2 * c
            &&& reachable(b, c, d) ==> 2 * distance(c, (div + 1) * (d * b)) <= d * b
            &&& baud_rate_acceptable(b, actual) ==> 20 * distance(actual, b) <= b
            &&& !reachable(b, c, d) ==> 2 * actual < b
        }),
{
    let b = baud_rate as int;
    let c = base_clock_hz as int;
    let d = base_clock_div as int;
    let m = d * b;
    let r = rounded_quotient(c, m);
    lemma_baud_arithmetic(b, c, d);
    assert(2 * m * r <= 2 * c + m < 2 * m * r + 2 * m) by (nonlinear_arith)
        requires
            r == (2 * c + m) / (2 * m),
            m > 0,
            c >= 0,
    ;
    assert(2 * m * r == 2 * (r * m)) by (nonlinear_arith);
    if !reachable(b, c, d) {
        let fastest = c / d;
        assert(d * fastest <= c) by (nonlinear_arith)
            requires
                d > 0,
                c >= 0,
                fastest == c / d,
        ;
        assert(2 * fastest < b) by (nonlinear_arith)
            requires
                d * fastest <= c,
                d * b > 2 * c,
                d > 0,
        ;
        assert(d * (0 + 1) == d) by (nonlinear_arith);
    }
}

/// An accepted divisor is the exact quotient rounded to the nearest integer, halves up;
/// the baud rate that comes with it is what the base clock gives when divided by it,
/// rounded down; and that is within a twentieth of the requested one.
pub proof fn law_accepted_divisor(
    baud_rate: usize,
    base_clock_hz: usize,
    base_clock_div: usize,
    div: usize,
    actual: usize,
)
    requires
        0 < baud_rate,
        0 < base_clock_div,
        10 * base_clock_hz <= usize::MAX,
        is_baud_outcome(
            Ok((div, actual)),
            baud_rate as int,
            base_clock_hz as int,
            base_clock_div as int,
        ),
    ensures
        ({
            let m = base_clock_div * baud_rate;
            let n = base_clock_div * (div + 1);
            &&& (2 * div + 1) * m <= 2 * base_clock_hz < (2 * div + 3) * m
            &&& actual * n <= base_clock_hz < (actual + 1) * n
            &&& 20 * (actual - baud_rate) <= baud_rate
            &&& 20 * (baud_rate - actual) <= baud_rate
        }),
{
    let b = baud_rate as int;
    let c = base_clock_hz as int;
    let d = base_clock_div as int;
    let m = d * b;
    let r = rounded_quotient(c, m);
    lemma_baud_arithmetic(b, c, d);
    assert(2 * m * r <= 2 * c + m < 2 * m * r + 2 * m) by (nonlinear_arith)
        requires
            r == (2 * c + m) / (2 * m),
            m > 0,
            c >= 0,
    ;
    assert((2 * div + 1) * m <= 2 * c < (2 * div + 3) * m) by (nonlinear_arith)
        requires
            2 * m * r <= 2 * c + m < 2 * m * r + 2 * m,
            r == div + 1,
    ;
    let n = d * (div + 1);
    assert(actual * n <= c < (actual + 1) * n) by (nonlinear_arith)
        requires
            n > 0,
            c >= 0,
            actual == c / n,
    ;
}

/// A divisor that is the exact quotient rounded to the nearest integer, halves up, is
/// accepted if the baud rate that it gives, rounded down, is within a twentieth of the
/// requested one. In all other cases there is an error, which names the requested baud
/// rate and the one that the line would run at: if the divisor would be less than one,
/// that is the rate of the undivided clock.
pub proof fn law_divisor_is_owed(
    r: Result<(usize, usize), ErrorKind>,
    baud_rate: usize,
    base_clock_hz: usize,
    base_clock_div: usize,
    quotient: int,
    actual: int,
)
    requires
        0 < baud_rate,
        0 < base_clock_div,
        10 * base_clock_hz <= usize::MAX,
        is_baud_outcome(r, baud_rate as int, base_clock_hz as int, base_clock_div as int),
        0 <= quotient,
        ({
            let m = base_clock_div * baud_rate;
            (2 * quotient - 1) * m <= 2 * base_clock_hz < (2 * quotient + 1) * m
        }),
        ({
            let n = base_clock_div * (if quotient == 0 {
                1
            } else {
                quotient
            });
            actual * n <= base_clock_hz < (actual + 1) * n
        }),
    ensures
        if quotient >= 1 && 20 * (actual - baud_rate) <= baud_rate && 20 * (baud_rate - actual)
            <= baud_rate {
            r matches Ok((d, a)) && d == quotient - 1 && a == actual
        } else {
            r matches Err(ErrorKind::BaudRate(text)) && text@ == "requested "@ + decimal(
                baud_rate as nat,
            ) + " baud, resulting "@ + decimal(actual as nat) + " baud"@
        },
{
    let b = baud_rate as int;
    let c = base_clock_hz as int;
    let d = base_clock_div as int;
    let m = d * b;
    lemma_baud_arithmetic(b, c, d);
    assert((2 * c + m) / (2 * m) == quotient) by (nonlinear_arith)
        requires
            (2 * quotient - 1) * m <= 2 * c < (2 * quotient + 1) * m,
            m > 0,
    ;
    let div = baud_div(b, c, d);
    let n = d * (div + 1);
    assert(n > 0) by (nonlinear_arith)
        requires
            n == d * (div + 1),
            d > 0,
            div >= 0,
    ;
    assert(c / n == actual) by (nonlinear_arith)
        requires
            actual * n <= c < (actual + 1) * n,
            n > 0,
    ;
}

/// The divisor can be calculated for every speed and every divisor of the base clock
/// but zero, as long as ten times the clock speed fits the machine.
pub proof fn law_every_speed_has_an_outcome(
    baud_rate: usize,
    base_clock_hz: usize,
    base_clock_div: usize,
)
    requires
        0 < baud_rate,
        0 < base_clock_div,
        10 * base_clock_hz <= usize::MAX,
    ensures
        baud_args_ok(baud_rate, base_clock_hz, base_clock_div),
{
}

} // verus!
