//! Which readings a chart draws.
//!
//! A day of readings is thousands of samples, but a card is a few hundred
//! pixels wide, so a long series is thinned to evenly spaced readings before it
//! is drawn. Turning the kept readings into pixel coordinates is done where
//! the chart is drawn.

use vstd::prelude::*;
use vstd::arithmetic::div_mod::lemma_fundamental_div_mod;
use vstd::arithmetic::div_mod::lemma_fundamental_div_mod_converse;
use vstd::arithmetic::div_mod::lemma_div_is_ordered;

verus! {

/// A chart wider than this many pixels still only gets this many points.
pub const MAX_POINTS: usize = 240;

/// A chart needs at least two readings before there is a line to draw.
pub const MIN_POINTS: usize = 2;

/// Which reading the `index`-th of `points` evenly spaced ones is, in a series
/// of `len`: `index * (len - 1) / (points - 1)` rounded half up, so the first
/// and the last reading are always kept.
pub open spec fn source_index(index: nat, len: nat, points: nat) -> int {
    (2 * index * (len - 1) + (points - 1)) / (2 * (points - 1))
}

/// The number of points a series is thinned to: at least two.
pub open spec fn point_budget(max_points: usize) -> nat {
    if max_points < MIN_POINTS {
        MIN_POINTS as nat
    } else {
        max_points as nat
    }
}

/// Thinning keeps the first and the last reading and never reorders: the
/// kept readings are taken at source positions that only grow, all inside the
/// series.
pub proof fn thinning_keeps_the_ends_in_order(len: nat, points: nat, i: nat, j: nat)
    requires
        2 <= points < len,
        i <= j < points,
    ensures
        source_index(0, len, points) == 0,
        source_index((points - 1) as nat, len, points) == len - 1,
        source_index(i, len, points) <= source_index(j, len, points),
        0 <= source_index(i, len, points) < len,
{
    let d: int = points - 1;
    lemma_fundamental_div_mod_converse(d, 2 * d, 0, d);
    assert(2 * 0 * (len - 1) + d == d) by (nonlinear_arith);
    assert(2 * d * (len - 1) + d == (len - 1) * (2 * d) + d) by (nonlinear_arith);
    lemma_fundamental_div_mod_converse(2 * d * (len - 1) + d, 2 * d, len - 1, d);
    assert(2 * i * (len - 1) <= 2 * j * (len - 1)) by (nonlinear_arith)
        requires
            i <= j,
            len >= 1,
    ;
    lemma_div_is_ordered(2 * i * (len - 1) + d, 2 * j * (len - 1) + d, 2 * d);
    assert(2 * j * (len - 1) <= 2 * d * (len - 1)) by (nonlinear_arith)
        requires
            j <= d,
            len >= 1,
    ;
    lemma_div_is_ordered(2 * j * (len - 1) + d, 2 * d * (len - 1) + d, 2 * d);
    lemma_div_is_ordered(d, 2 * i * (len - 1) + d, 2 * d);
}

/// The source position of the `index`-th kept reading.
fn source_position(index: usize, len: usize, points: usize) -> (position: usize)
    requires
        2 <= points < len,
        index < points,
    ensures
        position == source_index(index as nat, len as nat, points as nat),
        position < len,
{
    let d: u128 = (points - 1) as u128;
    let span: u128 = (len - 1) as u128;
    let i: u128 = index as u128;
    let a: u128 = span / d;
    let b: u128 = span % d;
    proof {
        lemma_fundamental_div_mod(span as int, d as int);
    }
    assert(i * b < d * d) by (nonlinear_arith)
        requires
            i < d + 1,
            b < d,
            0 <= i,
            0 <= b,
    ;
    assert(d * d <= 0xffff_ffff_ffff_ffff_ffff_ffff_ffff_ffff) by (nonlinear_arith)
        requires
            d < 0x1_0000_0000_0000_0000,
    ;
    let p: u128 = i * b;
    let q: u128 = p / d;
    let r: u128 = p % d;
    proof {
        lemma_fundamental_div_mod(p as int, d as int);
    }
    assert(i * a <= span) by (nonlinear_arith)
        requires
            i <= d,
            span == d * a + b,
            0 <= a,
            0 <= b,
    ;
    let whole: u128 = i * a;
    let bump: u128 = if 2 * r >= d {
        1
    } else {
        0
    };
    proof {
        let x = 2 * i * span + d;
        assert(x == (whole + q) * (2 * d) + (2 * r + d)) by (nonlinear_arith)
            requires
                x == 2 * i * span + d,
                span == d * a + b,
                p == d * q + r,
                p == i * b,
                whole == i * a,
        ;
        if 2 * r >= d {
            assert(x == (whole + q + 1) * (2 * d) + (2 * r - d)) by (nonlinear_arith)
                requires
                    x == (whole + q) * (2 * d) + (2 * r + d),
            ;
            lemma_fundamental_div_mod_converse(x as int, 2 * d as int, (whole + q + 1) as int, (2 * r - d) as int);
        } else {
            lemma_fundamental_div_mod_converse(x as int, 2 * d as int, (whole + q) as int, (2 * r + d) as int);
        }
        assert(q * d <= p) by (nonlinear_arith)
            requires
                p == d * q + r,
                0 <= r,
        ;
        assert(i * span <= d * span) by (nonlinear_arith)
            requires
                i <= d,
                0 <= span,
        ;
        assert(whole + q + bump <= span) by (nonlinear_arith)
            requires
                x == 2 * i * span + d,
                i * span <= d * span,
                (whole + q + bump) * (2 * d) <= x,
                d >= 1,
        ;
    }
    (whole + q + bump) as usize
}

/// Reduce a series to at most `max_points` (but at least two) evenly spaced
/// readings, keeping the first and the last.
pub fn downsample<T: Copy>(values: &[T], max_points: usize) -> (kept: Vec<T>)
    ensures
        values@.len() <= point_budget(max_points) ==> kept@ == values@,
        values@.len() > point_budget(max_points) ==> {
            &&& kept@.len() == point_budget(max_points)
            &&& forall|i: int|
                0 <= i < kept@.len() ==> #[trigger] kept@[i] == values@[source_index(
                    i as nat,
                    values@.len(),
                    point_budget(max_points),
                )]
        },
{
    let points = if max_points < MIN_POINTS {
        MIN_POINTS
    } else {
        max_points
    };
    let len = values.len();
    let mut kept: Vec<T> = Vec::new();
    if len <= points {
        let mut i: usize = 0;
        while i < len
            invariant
                len == values@.len(),
                i <= len,
                kept@ == values@.subrange(0, i as int),
            decreases len - i,
        {
            kept.push(values[i]);
            i = i + 1;
            assert(kept@ =~= values@.subrange(0, i as int));
        }
        assert(kept@ =~= values@);
        return kept;
    }
    let mut i: usize = 0;
    while i < points
        invariant
            len == values@.len(),
            2 <= points < len,
            points == point_budget(max_points),
            i <= points,
            kept@.len() == i,
            forall|j: int|
                0 <= j < i ==> #[trigger] kept@[j] == values@[source_index(
                    j as nat,
                    len as nat,
                    points as nat,
                )],
        decreases points - i,
    {
        let source = source_position(i, len, points);
        kept.push(values[source]);
        i = i + 1;
    }
    kept
}

} // verus!
