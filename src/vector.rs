//! Mathematical models of dense fixed-point vectors.
use vstd::prelude::*;
use crate::num::{fits, fx_mul};

verus! {

/// Every entry of `s` scaled by `rate`.
pub open spec fn scaled(s: Seq<i64>, rate: int) -> Seq<i64> {
    Seq::new(s.len(), |i: int| fx_mul(s[i] as int, rate) as i64)
}

/// Whether scaling every entry of `s` by `rate` stays representable.
pub open spec fn scaled_fits(s: Seq<i64>, rate: int) -> bool {
    forall|i: int| 0 <= i < s.len() ==> fits(#[trigger] fx_mul(s[i] as int, rate))
}

/// The entrywise sum of two vectors of one length.
pub open spec fn added(s: Seq<i64>, t: Seq<i64>) -> Seq<i64> {
    Seq::new(s.len(), |i: int| (s[i] + t[i]) as i64)
}

/// Whether the entrywise sum of `s` and `t` stays representable.
pub open spec fn added_fits(s: Seq<i64>, t: Seq<i64>) -> bool {
    forall|i: int| 0 <= i < s.len() ==> fits(#[trigger] s[i] + t[i])
}

/// `s + rate * t`, entrywise.
pub open spec fn axpy(s: Seq<i64>, rate: int, t: Seq<i64>) -> Seq<i64> {
    Seq::new(s.len(), |i: int| (s[i] + fx_mul(t[i] as int, rate)) as i64)
}

/// Whether `s + rate * t` stays representable, entrywise.
pub open spec fn axpy_fits(s: Seq<i64>, rate: int, t: Seq<i64>) -> bool {
    forall|i: int|
        0 <= i < s.len() ==> fits(#[trigger] fx_mul(t[i] as int, rate)) && fits(
            s[i] + fx_mul(t[i] as int, rate),
        )
}

/// The fixed-point inner product of the first `k` entries of `w` and `x`.
pub open spec fn dot_prefix(w: Seq<i64>, x: Seq<i64>, k: int) -> int
    decreases k,
{
    if k <= 0 {
        0
    } else {
        dot_prefix(w, x, k - 1) + fx_mul(w[k - 1] as int, x[k - 1] as int)
    }
}

/// The fixed-point inner product of `w` and `x`.
pub open spec fn dot(w: Seq<i64>, x: Seq<i64>) -> int {
    dot_prefix(w, x, x.len() as int)
}

/// Whether every product and every partial sum of the inner product of `w`
/// and `x` is representable.
pub open spec fn dot_fits(w: Seq<i64>, x: Seq<i64>) -> bool {
    &&& forall|i: int| 0 <= i < x.len() ==> fits(#[trigger] fx_mul(w[i] as int, x[i] as int))
    &&& forall|k: int| 0 <= k <= x.len() ==> fits(#[trigger] dot_prefix(w, x, k))
}

/// The vector with `ONE`-valued entry `i` and zeros elsewhere.
pub open spec fn one_hot(n: int, i: int) -> Seq<i64> {
    Seq::new(n as nat, |j: int| if j == i { crate::num::ONE } else { 0i64 })
}

} // verus!

verus! {

/// The fixed-point inner product of `w` and `x`.
pub fn dot_exec(w: &Vec<i64>, x: &Vec<i64>) -> (r: i64)
    requires
        w@.len() == x@.len(),
        dot_fits(w@, x@),
    ensures
        r == dot(w@, x@),
{
    let n = x.len();
    let mut acc: i64 = 0;
    let mut i: usize = 0;
    while i < n
        invariant
            n == x@.len(),
            w@.len() == n,
            0 <= i <= n,
            dot_fits(w@, x@),
            acc == dot_prefix(w@, x@, i as int),
        decreases n - i,
    {
        assert(fits(fx_mul(w@[i as int] as int, x@[i as int] as int)));
        assert(fits(dot_prefix(w@, x@, i + 1)));
        let p = crate::num::fx_mul_exec(w[i], x[i]);
        acc = acc + p;
        i = i + 1;
    }
    acc
}

/// Adds `rate * t` to `s`, entrywise.
pub fn axpy_exec(s: &mut Vec<i64>, rate: i64, t: &Vec<i64>)
    requires
        old(s)@.len() == t@.len(),
        axpy_fits(old(s)@, rate as int, t@),
    ensures
        final(s)@ == axpy(old(s)@, rate as int, t@),
{
    let n = s.len();
    let mut i: usize = 0;
    while i < n
        invariant
            n == old(s)@.len(),
            t@.len() == n,
            s@.len() == n,
            0 <= i <= n,
            axpy_fits(old(s)@, rate as int, t@),
            forall|j: int|
                0 <= j < i ==> s@[j] == old(s)@[j] + fx_mul(t@[j] as int, rate as int),
            forall|j: int| i <= j < n ==> s@[j] == old(s)@[j],
        decreases n - i,
    {
        assert(fits(fx_mul(t@[i as int] as int, rate as int)));
        let d = crate::num::fx_mul_exec(t[i], rate);
        let v = s[i] + d;
        s.set(i, v);
        i = i + 1;
    }
    assert(s@ =~= axpy(old(s)@, rate as int, t@));
}

} // verus!

verus! {

/// `a x + b y`, entrywise.
pub open spec fn lincomb(x: Seq<i64>, a: int, y: Seq<i64>, b: int) -> Seq<i64> {
    Seq::new(x.len(), |i: int| (fx_mul(x[i] as int, a) + fx_mul(y[i] as int, b)) as i64)
}

/// Whether `a x + b y` stays representable, entrywise.
pub open spec fn lincomb_fits(x: Seq<i64>, a: int, y: Seq<i64>, b: int) -> bool {
    forall|i: int|
        0 <= i < x.len() ==> {
            &&& fits(#[trigger] fx_mul(x[i] as int, a))
            &&& fits(fx_mul(y[i] as int, b))
            &&& fits(fx_mul(x[i] as int, a) + fx_mul(y[i] as int, b))
        }
}

/// `a x + b y`, entrywise.
pub fn lincomb_exec(x: &Vec<i64>, a: i64, y: &Vec<i64>, b: i64) -> (r: Vec<i64>)
    requires
        x@.len() == y@.len(),
        lincomb_fits(x@, a as int, y@, b as int),
    ensures
        r@ == lincomb(x@, a as int, y@, b as int),
{
    let n = x.len();
    let mut r: Vec<i64> = Vec::new();
    while r.len() < n
        invariant
            n == x@.len(),
            y@.len() == n,
            r.len() <= n,
            lincomb_fits(x@, a as int, y@, b as int),
            forall|j: int| 0 <= j < r.len() ==> r@[j] == lincomb(x@, a as int, y@, b as int)[j],
        decreases n - r.len(),
    {
        let i = r.len();
        assert(fits(fx_mul(x@[i as int] as int, a as int)));
        let u = crate::num::fx_mul_exec(x[i], a);
        let v = crate::num::fx_mul_exec(y[i], b);
        r.push(u + v);
    }
    assert(r@ =~= lincomb(x@, a as int, y@, b as int));
    r
}

} // verus!
