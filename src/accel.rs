use vstd::prelude::*;

use crate::config::NavigationConfig;

verus! {

/// Distances are counted in thousandths of a pixel.
pub const SUBPIXELS: u64 = 1000;

/// Hold durations are counted in milliseconds.
pub const MILLIS_PER_SECOND: u64 = 1000;

/// Largest speed that can be represented; faster requests saturate here.
pub const SPEED_LIMIT: u64 = 0xffff_ffff_ffff_ffff;

pub open spec fn min(a: int, b: int) -> int {
    if a <= b {
        a
    } else {
        b
    }
}

pub open spec fn pow_nat(b: nat, e: nat) -> nat
    decreases e,
{
    if e == 0 {
        1
    } else {
        b * pow_nat(b, (e - 1) as nat)
    }
}

/// `base ^ (hold_ms / 1000)` in thousandths, where the fraction of the
/// current second moves linearly from one whole power to the next.
pub open spec fn growth(base: nat, hold_ms: nat) -> int {
    pow_nat(base, hold_ms / 1000) * (1000 + (base - 1) * (hold_ms % 1000))
}

/// `initial + multiplier * growth`, in thousandths of a pixel per tick.
pub open spec fn raw_speed(cfg: NavigationConfig, hold_ms: nat) -> int {
    cfg.initial_move_step * SUBPIXELS + cfg.acceleration_multiplier * growth(
        cfg.acceleration_base as nat,
        hold_ms,
    )
}

/// The speed before the ceiling is applied: saturated at the largest
/// representable speed, then divided while precision mode is on.
pub open spec fn uncapped_speed(cfg: NavigationConfig, hold_ms: nat, precision: bool) -> int {
    let r = min(raw_speed(cfg, hold_ms), SPEED_LIMIT as int);
    if precision {
        r / (cfg.precision_divisor as int)
    } else {
        r
    }
}

/// The speed, in thousandths of a pixel per tick, of a key held for
/// `hold_ms` milliseconds.
pub open spec fn speed_of(cfg: NavigationConfig, hold_ms: nat, precision: bool) -> int {
    match cfg.max_move_step {
        Some(m) => min(uncapped_speed(cfg, hold_ms, precision), m * SUBPIXELS),
        None => uncapped_speed(cfg, hold_ms, precision),
    }
}

/// The highest speed that an uncapped configuration can reach.
pub open spec fn speed_ceiling(cfg: NavigationConfig, precision: bool) -> int {
    if precision {
        (SPEED_LIMIT as int) / (cfg.precision_divisor as int)
    } else {
        SPEED_LIMIT as int
    }
}

proof fn lemma_pow_positive(b: nat, e: nat)
    requires
        b >= 1,
    ensures
        pow_nat(b, e) >= 1,
    decreases e,
{
    if e > 0 {
        lemma_pow_positive(b, (e - 1) as nat);
        assert(b * pow_nat(b, (e - 1) as nat) >= 1) by (nonlinear_arith)
            requires
                b >= 1,
                pow_nat(b, (e - 1) as nat) >= 1,
        ;
    }
}

proof fn lemma_pow_one(e: nat)
    ensures
        pow_nat(1, e) == 1,
    decreases e,
{
    if e > 0 {
        lemma_pow_one((e - 1) as nat);
    }
}

proof fn lemma_pow_monotone(b: nat, e1: nat, e2: nat)
    requires
        b >= 1,
        e1 <= e2,
    ensures
        pow_nat(b, e1) <= pow_nat(b, e2),
    decreases e2,
{
    if e1 < e2 {
        lemma_pow_monotone(b, e1, (e2 - 1) as nat);
        let p = pow_nat(b, (e2 - 1) as nat);
        assert(p <= b * p) by (nonlinear_arith)
            requires
                b >= 1,
                p >= 0,
        ;
    }
}

proof fn lemma_pow_at_least_two_pow(b: nat, e: nat)
    requires
        b >= 2,
    ensures
        pow_nat(b, e) >= pow_nat(2, e),
    decreases e,
{
    if e > 0 {
        lemma_pow_at_least_two_pow(b, (e - 1) as nat);
        let p = pow_nat(b, (e - 1) as nat);
        let q = pow_nat(2, (e - 1) as nat);
        assert(b * p >= 2 * q) by (nonlinear_arith)
            requires
                b >= 2,
                p >= q,
                q >= 0,
        ;
    }
}

proof fn lemma_growth_monotone(b: nat, h1: nat, h2: nat)
    requires
        b >= 1,
        h1 <= h2,
    ensures
        0 <= growth(b, h1) <= growth(b, h2),
{
    let s1 = h1 / 1000;
    let s2 = h2 / 1000;
    let f1 = h1 % 1000;
    let f2 = h2 % 1000;
    let p1 = pow_nat(b, s1);
    let p2 = pow_nat(b, s2);
    lemma_pow_positive(b, s1);
    assert(s1 <= s2) by (nonlinear_arith)
        requires
            h1 <= h2,
            s1 == h1 / 1000,
            s2 == h2 / 1000,
    ;
    assert(0 <= p1 * (1000 + (b - 1) * f1)) by (nonlinear_arith)
        requires
            p1 >= 1,
            b >= 1,
            f1 >= 0,
    ;
    if s1 == s2 {
        assert(f1 <= f2);
        assert(p1 * (1000 + (b - 1) * f1) <= p1 * (1000 + (b - 1) * f2)) by (nonlinear_arith)
            requires
                p1 >= 1,
                b >= 1,
                0 <= f1 <= f2,
        ;
    } else {
        let p_next = pow_nat(b, (s1 + 1) as nat);
        assert(p_next == b * p1);
        lemma_pow_monotone(b, (s1 + 1) as nat, s2);
        assert(p1 * (1000 + (b - 1) * f1) <= p_next * 1000) by (nonlinear_arith)
            requires
                p1 >= 1,
                b >= 1,
                0 <= f1 < 1000,
                p_next == b * p1,
        ;
        assert(p_next * 1000 <= p2 * (1000 + (b - 1) * f2)) by (nonlinear_arith)
            requires
                p_next <= p2,
                b >= 1,
                f2 >= 0,
                p_next >= 0,
        ;
    }
}

/// A longer hold never gives a lower speed.
pub proof fn lemma_speed_monotone(cfg: NavigationConfig, h1: nat, h2: nat, precision: bool)
    requires
        cfg.wf(),
        h1 <= h2,
    ensures
        speed_of(cfg, h1, precision) <= speed_of(cfg, h2, precision),
{
    let b = cfg.acceleration_base as nat;
    lemma_growth_monotone(b, h1, h2);
    let g1 = growth(b, h1);
    let g2 = growth(b, h2);
    let m = cfg.acceleration_multiplier as int;
    assert(m * g1 <= m * g2) by (nonlinear_arith)
        requires
            m >= 0,
            g1 <= g2,
    ;
    let r1 = min(raw_speed(cfg, h1), SPEED_LIMIT as int);
    let r2 = min(raw_speed(cfg, h2), SPEED_LIMIT as int);
    assert(r1 <= r2);
    if precision {
        let d = cfg.precision_divisor as int;
        assert(r1 / d <= r2 / d) by (nonlinear_arith)
            requires
                r1 <= r2,
                d >= 1,
        ;
    }
}

/// With a ceiling configured, no hold duration exceeds it.
pub proof fn lemma_speed_capped(cfg: NavigationConfig, hold_ms: nat, precision: bool)
    requires
        cfg.max_move_step is Some,
    ensures
        speed_of(cfg, hold_ms, precision) <= cfg.max_move_step->Some_0 * SUBPIXELS,
{
}

/// Without a ceiling, and with a base of at least two and a positive
/// multiplier, every speed up to the largest representable one is reached
/// by holding long enough.
pub proof fn lemma_speed_unbounded(cfg: NavigationConfig, precision: bool, bound: int)
    requires
        cfg.wf(),
        cfg.max_move_step is None,
        cfg.acceleration_base >= 2,
        cfg.acceleration_multiplier >= 1,
        bound <= speed_ceiling(cfg, precision),
    ensures
        exists|h: nat| speed_of(cfg, h, precision) >= bound,
{
    let h: nat = 64000;
    let b = cfg.acceleration_base as nat;
    lemma_pow_at_least_two_pow(b, 64);
    assert(pow_nat(2, 64) == 0x1_0000_0000_0000_0000) by {
        reveal_with_fuel(pow_nat, 65);
    }
    let p = pow_nat(b, 64);
    let g = growth(b, h);
    assert(h / 1000 == 64 && h % 1000 == 0);
    assert(g == p * 1000);
    let m = cfg.acceleration_multiplier as int;
    assert(m * g >= SPEED_LIMIT as int) by (nonlinear_arith)
        requires
            m >= 1,
            g == p * 1000,
            p >= 0x1_0000_0000_0000_0000,
    ;
    assert(speed_of(cfg, h, precision) >= bound);
}

/// Precision mode divides the speed before the ceiling by the divisor.
pub proof fn lemma_precision_scaling(cfg: NavigationConfig, hold_ms: nat)
    requires
        cfg.wf(),
    ensures
        uncapped_speed(cfg, hold_ms, true) == uncapped_speed(cfg, hold_ms, false)
            / (cfg.precision_divisor as int),
{
}

proof fn lemma_saturated_product(a: int, b: int)
    requires
        a >= 0,
        b >= 0,
    ensures
        min(min(a, SPEED_LIMIT as int) * min(b, SPEED_LIMIT as int), SPEED_LIMIT as int) == min(
            a * b,
            SPEED_LIMIT as int,
        ),
{
    let l = SPEED_LIMIT as int;
    let ma = min(a, l);
    let mb = min(b, l);
    if a == 0 || b == 0 {
        assert(ma == 0 || mb == 0);
        assert(a * b == 0 && ma * mb == 0) by (nonlinear_arith)
            requires
                a == 0 || b == 0,
                ma == 0 || mb == 0,
        ;
    } else if a >= l || b >= l {
        assert(ma >= 1 && mb >= 1 && (ma == l || mb == l));
        assert(ma * mb >= l && a * b >= l) by (nonlinear_arith)
            requires
                a >= 1,
                b >= 1,
                a >= l || b >= l,
                ma >= 1,
                mb >= 1,
                ma == l || mb == l,
        ;
    }
}

/// `a * b`, or the speed limit where the product exceeds it.
fn saturating_mul(a: u64, b: u64) -> (r: u64)
    ensures
        r == min(a * b, SPEED_LIMIT as int),
{
    match a.checked_mul(b) {
        Some(v) => v,
        None => SPEED_LIMIT,
    }
}

/// `base ^ exp`, or the speed limit where the power exceeds it.
fn saturating_pow(base: u64, exp: u64) -> (r: u64)
    requires
        base >= 1,
    ensures
        r == min(pow_nat(base as nat, exp as nat) as int, SPEED_LIMIT as int),
{
    if base == 1 {
        proof {
            lemma_pow_one(exp as nat);
        }
        return 1;
    }
    let mut acc: u64 = 1;
    let mut i: u64 = 0;
    while i < exp && acc < SPEED_LIMIT
        invariant
            base >= 2,
            i <= exp,
            acc == min(pow_nat(base as nat, i as nat) as int, SPEED_LIMIT as int),
        decreases exp - i,
    {
        proof {
            lemma_pow_positive(base as nat, i as nat);
            lemma_saturated_product(pow_nat(base as nat, i as nat) as int, base as int);
            assert(pow_nat(base as nat, (i + 1) as nat) == base * pow_nat(base as nat, i as nat));
        }
        acc = saturating_mul(acc, base);
        i = i + 1;
    }
    proof {
        if i < exp {
            lemma_pow_monotone(base as nat, i as nat, exp as nat);
        }
    }
    acc
}

/// The speed, in thousandths of a pixel per tick, of a key held for
/// `hold_ms` milliseconds, with or without precision mode.
pub fn speed(hold_ms: u64, config: &NavigationConfig, precision: bool) -> (r: u64)
    requires
        config.wf(),
    ensures
        r == speed_of(*config, hold_ms as nat, precision),
{
    let base = config.acceleration_base;
    let seconds = hold_ms / MILLIS_PER_SECOND;
    let fraction = hold_ms % MILLIS_PER_SECOND;
    let power = saturating_pow(base, seconds);
    let step = saturating_mul(base - 1, fraction);
    let within = step.saturating_add(1000);
    let g = saturating_mul(power, within);
    let start = saturating_mul(config.initial_move_step, SUBPIXELS);
    let gained = saturating_mul(config.acceleration_multiplier, g);
    let raw = start.saturating_add(gained);
    proof {
        let b = base as nat;
        let p = pow_nat(b, seconds as nat);
        let w = 1000 + (b - 1) * fraction;
        lemma_pow_positive(b, seconds as nat);
        assert((b - 1) * fraction >= 0) by (nonlinear_arith)
            requires
                b >= 1,
                fraction >= 0,
        ;
        assert(within == min(w, SPEED_LIMIT as int));
        lemma_saturated_product(p as int, w);
        assert(g == min(growth(b, hold_ms as nat), SPEED_LIMIT as int));
        lemma_growth_monotone(b, 0, hold_ms as nat);
        let m = config.acceleration_multiplier as int;
        lemma_saturated_product(m, growth(b, hold_ms as nat));
        assert(min(m, SPEED_LIMIT as int) == m);
        assert(raw == min(raw_speed(*config, hold_ms as nat), SPEED_LIMIT as int));
    }
    let scaled = if precision {
        raw / config.precision_divisor
    } else {
        raw
    };
    match config.max_move_step {
        Some(m) => {
            let cap = saturating_mul(m, SUBPIXELS);
            if scaled < cap {
                scaled
            } else {
                cap
            }
        },
        None => scaled,
    }
}

} // verus!
