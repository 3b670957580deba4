use vstd::prelude::*;

verus! {

/// The number of equally likely spark values drawn for each source cell.
pub const SPARK_RANGE: u32 = 524288;

pub open spec fn pow5(n: int) -> int {
    (n * n) * (n * n) * n
}

pub open spec fn abs(n: int) -> int {
    if n < 0 {
        -n
    } else {
        n
    }
}

/// Twice the column's distance from the centre line at `width / 2`.
pub open spec fn center_offset(x: int, width: int) -> int {
    abs(2 * x - width)
}

/// The centre bias `1 - |x - width/2| / (width/2)` scaled by `width`: it is
/// `width` on the centre line and `0` at the left edge.
pub open spec fn center_weight(x: int, width: int) -> int {
    width - center_offset(x, width)
}

/// A source cell ignites when the spark, read as a fraction of `SPARK_RANGE`,
/// is below the fifth root of the centre bias; that is, when
/// `(spark / SPARK_RANGE)^5 < center_weight / width`. For a uniform spark this
/// happens with probability `center_bias ^ 0.2`.
pub open spec fn ignites_spec(x: int, width: int, spark: int) -> bool {
    pow5(spark) * width < pow5(SPARK_RANGE as int) * center_weight(x, width)
}

proof fn lemma_pow5_bound(s: int)
    requires
        0 <= s < SPARK_RANGE,
    ensures
        0 <= s * s <= 274876858369,
        0 <= (s * s) * (s * s) <= 75557287266811285340161,
        0 <= pow5(s) < 39614081257132168796771975168,
        pow5(SPARK_RANGE as int) == 39614081257132168796771975168,
{
    let q = s * s;
    assert(0 <= q <= 274876858369) by (nonlinear_arith)
        requires
            q == s * s,
            0 <= s <= 524287,
    ;
    let f = q * q;
    assert(0 <= f <= 75557287266811285340161) by (nonlinear_arith)
        requires
            f == q * q,
            0 <= q <= 274876858369,
    ;
    assert(0 <= f * s <= 39613703469254688357136990207) by (nonlinear_arith)
        requires
            0 <= f <= 75557287266811285340161,
            0 <= s <= 524287,
    ;
    assert(524288 * 524288 == 274877906944int);
    assert(274877906944int * 274877906944int == 75557863725914323419136int);
    assert(75557863725914323419136int * 524288 == 39614081257132168796771975168int);
}

/// Whether the source cell in column `x` of a grid `width` wide ignites on the
/// given spark.
pub fn ignites(x: u16, width: u16, spark: u32) -> (r: bool)
    requires
        x < width,
        spark < SPARK_RANGE,
    ensures
        r == ignites_spec(x as int, width as int, spark as int),
{
    let offset: u32 = if 2 * (x as u32) >= width as u32 {
        2 * (x as u32) - width as u32
    } else {
        width as u32 - 2 * (x as u32)
    };
    let weight: u32 = width as u32 - offset;
    proof {
        lemma_pow5_bound(spark as int);
    }
    let s = spark as u128;
    let q = s * s;
    let f = q * q;
    let p = f * s;
    proof {
        assert(p * (width as int) <= 39614081257132168796771975168 * 65535) by (nonlinear_arith)
            requires
                0 <= p < 39614081257132168796771975168,
                0 <= width <= 65535,
        ;
        assert(39614081257132168796771975168 * (weight as int) <= 39614081257132168796771975168
            * 65535) by (nonlinear_arith)
            requires
                0 <= weight <= 65535,
        ;
    }
    p * (width as u128) < 39614081257132168796771975168u128 * (weight as u128)
}

proof fn lemma_pow5_step(s: int)
    requires
        0 <= s < SPARK_RANGE,
    ensures
        0 <= pow5(s + 1) - pow5(s) <= 377789318629571617095680,
{
    let t = s + 1;
    let a = pow5(t);
    let b = pow5(s);
    assert(a - b == t * t * t * t + t * t * t * s + t * t * s * s + t * s * s * s + s * s * s * s)
        by (nonlinear_arith)
        requires
            t == s + 1,
            a == (t * t) * (t * t) * t,
            b == (s * s) * (s * s) * s,
    ;
    assert(0 <= t * t * t * t + t * t * t * s + t * t * s * s + t * s * s * s + s * s * s * s <= 5
        * (t * t * t * t)) by (nonlinear_arith)
        requires
            0 <= s <= t,
    ;
    assert(t * t * t * t <= 524288 * 524288 * 524288 * 524288) by (nonlinear_arith)
        requires
            0 <= t <= 524288,
    ;
    assert(524288 * 524288 * 524288 * 524288 == 75557863725914323419136int);
}

/// Walks the spark upwards from `s` to one that ignites at centre weight `hi`
/// but not at centre weight `lo`.
proof fn lemma_spark_between(s: int, width: int, lo: int, hi: int) -> (r: int)
    requires
        0 <= s < SPARK_RANGE,
        1 <= width <= 65535,
        0 <= lo < hi <= width,
        pow5(s) * width < pow5(SPARK_RANGE as int) * hi,
    ensures
        0 <= r < SPARK_RANGE,
        pow5(SPARK_RANGE as int) * lo <= pow5(r) * width,
        pow5(r) * width < pow5(SPARK_RANGE as int) * hi,
    decreases SPARK_RANGE - s,
{
    lemma_pow5_bound(s);
    let big = pow5(SPARK_RANGE as int);
    if big * lo <= pow5(s) * width {
        s
    } else {
        lemma_pow5_step(s);
        let a = pow5(s + 1);
        let b = pow5(s);
        let d = a - b;
        assert(d * width <= 377789318629571617095680 * 65535) by (nonlinear_arith)
            requires
                0 <= d <= 377789318629571617095680,
                0 <= width <= 65535,
        ;
        assert(a * width == b * width + d * width) by (nonlinear_arith)
            requires
                d == a - b,
        ;
        assert(big * lo + big <= big * hi) by (nonlinear_arith)
            requires
                lo + 1 <= hi,
                big > 0,
        ;
        if s + 1 == SPARK_RANGE {
            assert(big * width >= big * hi) by (nonlinear_arith)
                requires
                    hi <= width,
                    big > 0,
            ;
            assert(false);
        }
        lemma_spark_between(s + 1, width, lo, hi)
    }
}

/// Ignition strictly favours columns nearer the centre line. Every spark that
/// ignites a column also ignites any column nearer the centre, and some spark
/// ignites the nearer column but not the farther one; so under a uniform spark
/// the nearer column ignites with strictly greater probability.
pub proof fn lemma_center_bias(width: int, near: int, far: int)
    requires
        0 <= near < width,
        0 <= far < width,
        width <= 65535,
        center_offset(near, width) < center_offset(far, width),
    ensures
        forall|s: int|
            0 <= s < SPARK_RANGE && #[trigger] ignites_spec(far, width, s) ==> ignites_spec(
                near,
                width,
                s,
            ),
        exists|s: int|
            0 <= s < SPARK_RANGE && ignites_spec(near, width, s) && !ignites_spec(far, width, s),
{
    lemma_pow5_bound(0);
    let big = pow5(SPARK_RANGE as int);
    let lo = center_weight(far, width);
    let hi = center_weight(near, width);
    assert(big * lo <= big * hi) by (nonlinear_arith)
        requires
            lo <= hi,
            big > 0,
    ;
    assert(pow5(0) * width < big * hi) by (nonlinear_arith)
        requires
            pow5(0) == 0,
            hi >= 1,
            big > 0,
    ;
    let s = lemma_spark_between(0, width, lo, hi);
    assert(ignites_spec(near, width, s) && !ignites_spec(far, width, s));
}

} // verus!
