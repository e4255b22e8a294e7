//! Fixed-point numbers: a model unit is `ONE` micro-units.

use vstd::prelude::*;

verus! {

/// Micro-units in one model unit.
pub const ONE: i64 = 1_000_000;

/// Largest magnitude of a model coordinate (one hundred units).
pub const COORD_LIMIT: i64 = 100_000_000;

/// Integer division rounding toward zero, as Rust's `/` does.
pub open spec fn tdiv(a: int, b: int) -> int {
    if a >= 0 {
        a / b
    } else {
        -((-a) / b)
    }
}

pub open spec fn abs(a: int) -> int {
    if a >= 0 {
        a
    } else {
        -a
    }
}

/// Divides by a positive number, rounding toward zero.
pub fn div_toward_zero(a: i64, b: i64) -> (r: i64)
    requires
        b > 0,
        a > i64::MIN,
    ensures
        r == tdiv(a as int, b as int),
{
    if a >= 0 {
        a / b
    } else {
        -((-a) / b)
    }
}

/// Divides by a positive number, rounding toward zero, in 128 bits.
pub fn div_toward_zero_wide(a: i128, b: i128) -> (r: i128)
    requires
        b > 0,
        a > i128::MIN,
    ensures
        r == tdiv(a as int, b as int),
{
    if a >= 0 {
        a / b
    } else {
        -((-a) / b)
    }
}

/// A quotient rounded toward zero is no larger in size than the exact one.
pub proof fn lemma_tdiv_shrinks(a: int, b: int)
    requires
        b > 0,
    ensures
        abs(tdiv(a, b)) * b <= abs(a),
        tdiv(a, b) * tdiv(a, b) * (b * b) <= a * a,
        abs(tdiv(a, b)) <= abs(a),
{
    let q = tdiv(a, b);
    let m = abs(a);
    assert(abs(q) == m / b);
    assert((m / b) * b <= m) by (nonlinear_arith)
        requires
            b > 0,
            m >= 0,
    ;
    assert(m / b <= m) by (nonlinear_arith)
        requires
            b > 0,
            m >= 0,
    ;
    let aq = abs(q);
    assert(aq * b <= m);
    assert(aq >= 0);
    assert((aq * b) * (aq * b) <= m * m) by (nonlinear_arith)
        requires
            0 <= aq * b <= m,
    ;
    assert(q * q == aq * aq) by (nonlinear_arith)
        requires
            aq == q || aq == -q,
    ;
    assert(a * a == m * m) by (nonlinear_arith)
        requires
            m == a || m == -a,
    ;
    assert(q * q * (b * b) == (aq * b) * (aq * b)) by (nonlinear_arith)
        requires
            q * q == aq * aq,
    ;
}

/// A quotient rounded toward zero misses the exact one by less than one.
pub proof fn lemma_tdiv_close(a: int, b: int)
    requires
        b > 0,
    ensures
        abs(a) < (abs(tdiv(a, b)) + 1) * b,
        abs(tdiv(a, b)) >= 0,
{
    let m = abs(a);
    assert(abs(tdiv(a, b)) == m / b);
    assert(m < (m / b + 1) * b) by (nonlinear_arith)
        requires
            b > 0,
            m >= 0,
    ;
    assert(m / b >= 0) by (nonlinear_arith)
        requires
            b > 0,
            m >= 0,
    ;
}

/// A square no larger than `l * l` bounds its root by `l`.
pub proof fn lemma_square_bound(x: int, l: int)
    requires
        l >= 0,
        x * x <= l * l,
    ensures
        -l <= x <= l,
{
    if x > l {
        assert(x * x > l * l) by (nonlinear_arith)
            requires
                x > l,
                l >= 0,
        ;
    }
    if x < -l {
        assert(x * x > l * l) by (nonlinear_arith)
            requires
                x < -l,
                l >= 0,
        ;
    }
}

/// The least value of a sequence; zero for an empty one.
pub open spec fn seq_min(s: Seq<i64>) -> int
    decreases s.len(),
{
    if s.len() == 0 {
        0
    } else if s.len() == 1 {
        s[0] as int
    } else {
        let m = seq_min(s.drop_last());
        if (s.last() as int) < m {
            s.last() as int
        } else {
            m
        }
    }
}

/// The greatest value of a sequence; zero for an empty one.
pub open spec fn seq_max(s: Seq<i64>) -> int
    decreases s.len(),
{
    if s.len() == 0 {
        0
    } else if s.len() == 1 {
        s[0] as int
    } else {
        let m = seq_max(s.drop_last());
        if (s.last() as int) > m {
            s.last() as int
        } else {
            m
        }
    }
}

/// The least and the greatest value lie among the values and bound them all.
pub proof fn lemma_min_max_bound(s: Seq<i64>)
    requires
        s.len() > 0,
    ensures
        forall|i: int| 0 <= i < s.len() ==> seq_min(s) <= #[trigger] s[i] <= seq_max(s),
        exists|i: int| 0 <= i < s.len() && s[i] == seq_min(s),
        exists|i: int| 0 <= i < s.len() && s[i] == seq_max(s),
    decreases s.len(),
{
    if s.len() > 1 {
        lemma_min_max_bound(s.drop_last());
        let d = s.drop_last();
        assert forall|i: int| 0 <= i < s.len() implies seq_min(s) <= #[trigger] s[i] <= seq_max(
            s,
        ) by {
            if i < s.len() - 1 {
                assert(s[i] == d[i]);
            }
        }
        if (s.last() as int) < seq_min(d) {
            assert(s[s.len() - 1] == seq_min(s));
        } else {
            let j = choose|j: int| 0 <= j < d.len() && d[j] == seq_min(d);
            assert(s[j] == seq_min(s));
        }
        if (s.last() as int) > seq_max(d) {
            assert(s[s.len() - 1] == seq_max(s));
        } else {
            let j = choose|j: int| 0 <= j < d.len() && d[j] == seq_max(d);
            assert(s[j] == seq_max(s));
        }
    } else {
        assert(s[0] == seq_min(s));
        assert(s[0] == seq_max(s));
    }
}

/// The least and the greatest value of `vals`.
pub fn min_max(vals: &Vec<i64>) -> (r: (i64, i64))
    ensures
        r.0 == seq_min(vals@),
        r.1 == seq_max(vals@),
{
    if vals.len() == 0 {
        return (0, 0);
    }
    let mut lo = vals[0];
    let mut hi = vals[0];
    let mut i: usize = 1;
    assert(vals@.take(1).drop_last() =~= Seq::<i64>::empty());
    while i < vals.len()
        invariant
            1 <= i <= vals.len(),
            lo == seq_min(vals@.take(i as int)),
            hi == seq_max(vals@.take(i as int)),
        decreases vals.len() - i,
    {
        assert(vals@.take(i as int + 1).drop_last() =~= vals@.take(i as int));
        let v = vals[i];
        if v < lo {
            lo = v;
        }
        if v > hi {
            hi = v;
        }
        i = i + 1;
    }
    assert(vals@.take(i as int) =~= vals@);
    (lo, hi)
}

} // verus!
