//! A regular grid over a bounded box, and the linear function over its cells.
use vstd::prelude::*;
use crate::error::Error;
use crate::num::{fits, ONE};
use crate::vector::{axpy, axpy_exec, axpy_fits, dot, dot_exec, dot_fits, one_hot};

verus! {

/// One dimension of a grid: the interval `[lb, ub]` cut into `density` equal
/// cells. Values outside the interval fall into the nearest end cell.
#[derive(Clone, Copy, Debug, PartialEq, Eq, Structural)]
pub struct Partition {
    pub lb: i64,
    pub ub: i64,
    pub density: usize,
}

impl Partition {
    pub open spec fn wf(self) -> bool {
        &&& self.lb < self.ub
        &&& fits(self.ub - self.lb)
        &&& 1 <= self.density <= i64::MAX
    }

    /// The cell that holds `v`.
    pub open spec fn index_spec(self, v: int) -> int {
        let c = if v < self.lb {
            self.lb as int
        } else if v > self.ub {
            self.ub as int
        } else {
            v
        };
        let i = (self.density * (c - self.lb)) / (self.ub - self.lb);
        if i >= self.density {
            self.density - 1
        } else {
            i
        }
    }

    pub fn new(lb: i64, ub: i64, density: usize) -> (r: Partition)
        requires
            lb < ub,
            fits(ub - lb),
            1 <= density <= i64::MAX,
        ensures
            r == (Partition { lb, ub, density }),
            r.wf(),
    {
        Partition { lb, ub, density }
    }

    pub fn density(&self) -> (r: usize)
        ensures
            r == self.density,
    {
        self.density
    }

    /// The cell that holds `v`, counted from the lower bound.
    pub fn to_partition(&self, v: i64) -> (r: usize)
        requires
            self.wf(),
        ensures
            r == self.index_spec(v as int),
            r < self.density,
    {
        let c: i64 = if v < self.lb {
            self.lb
        } else if v > self.ub {
            self.ub
        } else {
            v
        };
        let diff: i128 = (c as i128) - (self.lb as i128);
        let range: i128 = (self.ub as i128) - (self.lb as i128);
        let d: i128 = self.density as i128;
        assert(0 <= d * diff <= d * range) by (nonlinear_arith)
            requires 0 <= diff <= range, d >= 1;
        assert(d * range <= 0x7fff_ffff_ffff_ffff * 0x7fff_ffff_ffff_ffff) by (nonlinear_arith)
            requires 0 < range <= 0x7fff_ffff_ffff_ffff, 1 <= d <= 0x7fff_ffff_ffff_ffff;
        let num: i128 = d * diff;
        let i: i128 = num / range;
        assert(num / range <= d) by (nonlinear_arith)
            requires 0 <= num <= d * range, range > 0;
        if i >= d {
            self.density - 1
        } else {
            i as usize
        }
    }
}

/// The number of cells of the grid made of `dims[j..]`.
pub open spec fn span_from(dims: Seq<Partition>, j: int) -> int
    decreases dims.len() - j,
{
    if j >= dims.len() {
        1
    } else {
        dims[j].density * span_from(dims, j + 1)
    }
}

/// The cell of the grid made of `dims[j..]` that holds `x[j..]`: the first
/// dimension varies fastest.
pub open spec fn hash_from(dims: Seq<Partition>, x: Seq<i64>, j: int) -> int
    decreases dims.len() - j,
{
    if j >= dims.len() {
        0
    } else {
        dims[j].index_spec(x[j] as int) + dims[j].density * hash_from(dims, x, j + 1)
    }
}

proof fn lemma_span_from(dims: Seq<Partition>, j: int)
    requires
        0 <= j <= dims.len(),
        forall|k: int| 0 <= k < dims.len() ==> (#[trigger] dims[k]).wf(),
    ensures
        1 <= span_from(dims, j) <= span_from(dims, 0),
    decreases j,
{
    lemma_span_positive(dims, j);
    if j > 0 {
        lemma_span_from(dims, j - 1);
        let s = span_from(dims, j);
        let d = dims[j - 1].density as int;
        lemma_span_positive(dims, j);
        assert(s <= d * s) by (nonlinear_arith)
            requires s >= 1, d >= 1;
    }
}

proof fn lemma_span_positive(dims: Seq<Partition>, j: int)
    requires
        0 <= j <= dims.len(),
        forall|k: int| 0 <= k < dims.len() ==> (#[trigger] dims[k]).wf(),
    ensures
        span_from(dims, j) >= 1,
    decreases dims.len() - j,
{
    if j < dims.len() {
        lemma_span_positive(dims, j + 1);
        let s = span_from(dims, j + 1);
        let d = dims[j].density as int;
        assert(d * s >= 1) by (nonlinear_arith)
            requires s >= 1, d >= 1;
    }
}

/// A box cut into a regular grid of cells.
#[derive(Debug)]
pub struct RegularSpace {
    pub dims: Vec<Partition>,
}

impl RegularSpace {
    pub open spec fn wf(self) -> bool {
        &&& self.dims@.len() >= 1
        &&& forall|k: int| 0 <= k < self.dims@.len() ==> (#[trigger] self.dims@[k]).wf()
        &&& span_from(self.dims@, 0) <= usize::MAX
    }

    /// The number of cells.
    pub open spec fn span_spec(self) -> int {
        span_from(self.dims@, 0)
    }

    /// The cell that holds `x`.
    pub open spec fn hash_spec(self, x: Seq<i64>) -> int {
        hash_from(self.dims@, x, 0)
    }

    /// A space with no dimensions yet.
    pub fn new() -> (r: RegularSpace)
        ensures
            r.dims@ == Seq::<Partition>::empty(),
    {
        RegularSpace { dims: Vec::new() }
    }

    /// The space with one more dimension, `d`, after the others.
    pub fn push(self, d: Partition) -> (r: RegularSpace)
        ensures
            r.dims@ == self.dims@.push(d),
    {
        let mut dims = self.dims;
        dims.push(d);
        RegularSpace { dims }
    }

    /// The number of dimensions.
    pub fn n_dims(&self) -> (r: usize)
        ensures
            r == self.dims@.len(),
    {
        self.dims.len()
    }

    /// The number of cells, `None` when it does not fit a `usize` or a
    /// dimension is empty or inverted.
    pub fn span(&self) -> (r: Option<usize>)
        ensures
            r is Some <==> self.wf(),
            r is Some ==> r->0 == self.span_spec(),
    {
        let n = self.dims.len();
        if n == 0 {
            return None;
        }
        let mut k: usize = 0;
        while k < n
            invariant
                n == self.dims@.len(),
                0 <= k <= n,
                forall|m: int| 0 <= m < k ==> (#[trigger] self.dims@[m]).wf(),
            decreases n - k,
        {
            let d = self.dims[k];
            if !(d.lb < d.ub && d.density >= 1 && (d.density as u64) <= 0x7fff_ffff_ffff_ffff) {
                return None;
            }
            let w: i128 = (d.ub as i128) - (d.lb as i128);
            if w > 0x7fff_ffff_ffff_ffff {
                return None;
            }
            k = k + 1;
        }
        let mut acc: usize = 1;
        let mut j: usize = n;
        while j > 0
            invariant
                n == self.dims@.len(),
                0 <= j <= n,
                forall|m: int| 0 <= m < n ==> (#[trigger] self.dims@[m]).wf(),
                acc == span_from(self.dims@, j as int),
            decreases j,
        {
            let d = self.dims[j - 1].density;
            proof {
                lemma_span_positive(self.dims@, j as int);
            }
            if acc > usize::MAX / d {
                proof {
                    lemma_span_from(self.dims@, (j - 1) as int);
                    assert(d * acc > usize::MAX) by (nonlinear_arith)
                        requires acc > usize::MAX / d, d >= 1;
                }
                return None;
            }
            assert(d * acc <= usize::MAX) by (nonlinear_arith)
                requires acc <= usize::MAX / d, d >= 1;
            acc = d * acc;
            j = j - 1;
        }
        Some(acc)
    }

    /// The cell that holds `x`; fails when `x` does not have one entry per
    /// dimension.
    pub fn hash(&self, x: &Vec<i64>) -> (r: Result<usize, Error>)
        requires
            self.wf(),
        ensures
            r is Ok <==> x@.len() == self.dims@.len(),
            r is Ok ==> r->Ok_0 == self.hash_spec(x@) && r->Ok_0 < self.span_spec(),
            r is Err ==> r == Err::<usize, Error>(
                Error::DimensionMismatch { expected: self.dims@.len() as usize, found: x@.len() as usize },
            ),
    {
        let n = self.dims.len();
        if x.len() != n {
            return Err(Error::DimensionMismatch { expected: n, found: x.len() });
        }
        let mut acc: usize = 0;
        let mut j: usize = n;
        while j > 0
            invariant
                self.wf(),
                n == self.dims@.len(),
                x@.len() == n,
                0 <= j <= n,
                acc == hash_from(self.dims@, x@, j as int),
                acc < span_from(self.dims@, j as int),
            decreases j,
        {
            let d = self.dims[j - 1];
            let i = d.to_partition(x[j - 1]);
            proof {
                lemma_span_from(self.dims@, (j - 1) as int);
                let s = span_from(self.dims@, j as int);
                let dd = d.density as int;
                assert(i + dd * acc < dd * s) by (nonlinear_arith)
                    requires i < dd, acc < s, acc >= 0;
                assert(0 <= dd * acc) by (nonlinear_arith)
                    requires acc >= 0, dd >= 1;
            }
            acc = i + d.density * acc;
            j = j - 1;
        }
        Ok(acc)
    }

    /// The one-hot feature vector of the cell that holds `x`.
    pub fn project(&self, x: &Vec<i64>) -> (r: Result<Vec<i64>, Error>)
        requires
            self.wf(),
        ensures
            r is Ok <==> x@.len() == self.dims@.len(),
            r is Ok ==> r->Ok_0@ == one_hot(self.span_spec(), self.hash_spec(x@)),
            r is Err ==> r == Err::<Vec<i64>, Error>(
                Error::DimensionMismatch { expected: self.dims@.len() as usize, found: x@.len() as usize },
            ),
    {
        let h = match self.hash(x) {
            Ok(h) => h,
            Err(e) => return Err(e),
        };
        let n = match self.span() {
            Some(n) => n,
            None => 0,
        };
        let mut p: Vec<i64> = Vec::new();
        while p.len() < n
            invariant
                p.len() <= n,
                forall|j: int| 0 <= j < p.len() ==> p@[j] == one_hot(n as int, h as int)[j],
            decreases n - p.len(),
        {
            if p.len() == h {
                p.push(ONE);
            } else {
                p.push(0);
            }
        }
        assert(p@ =~= one_hot(n as int, h as int));
        Ok(p)
    }
}

} // verus!

verus! {

/// A linear function of the one-hot features of a regular grid, with one
/// weight column per output: a table of `n_features` rows and `n_outputs`
/// columns.
pub struct Partitions {
    pub input_space: RegularSpace,
    pub n_features: usize,
    /// `weights[o][f]` is the weight of feature `f` for output `o`.
    pub weights: Vec<Vec<i64>>,
}

impl View for Partitions {
    type V = Seq<Seq<i64>>;

    open spec fn view(&self) -> Seq<Seq<i64>> {
        self.weights@.map_values(|c: Vec<i64>| c@)
    }
}

/// The table `w` with `e` added to the entry of output `o` and feature `f`.
pub open spec fn table_add(w: Seq<Seq<i64>>, o: int, f: int, e: int) -> Seq<Seq<i64>> {
    w.update(o, w[o].update(f, (w[o][f] + e) as i64))
}

impl Partitions {
    pub open spec fn wf(&self) -> bool {
        &&& self.input_space.wf()
        &&& self.n_features == self.input_space.span_spec()
        &&& forall|o: int| 0 <= o < self.weights@.len() ==> (#[trigger] self.weights@[o])@.len() == self.n_features
    }

    pub open spec fn n_outputs_spec(&self) -> nat {
        self.weights@.len()
    }

    /// The cell of the input `x`.
    pub open spec fn cell(&self, x: Seq<i64>) -> int {
        self.input_space.hash_spec(x)
    }

    /// The values of all outputs at the cell of `x`.
    pub open spec fn values_at(&self, x: Seq<i64>) -> Seq<i64> {
        Seq::new(self@.len(), |o: int| self@[o][self.cell(x)])
    }

    /// Whether `x` has one entry per dimension of the input space.
    pub open spec fn accepts(&self, x: Seq<i64>) -> bool {
        x.len() == self.input_space.dims@.len()
    }

    pub open spec fn mismatch(&self, x: Seq<i64>) -> Error {
        Error::DimensionMismatch {
            expected: self.input_space.dims@.len() as usize,
            found: x.len() as usize,
        }
    }

    /// A zero table over the cells of `input_space`, with `n_outputs` columns.
    /// Returns `None` when the space is not a valid grid (no dimension, an
    /// empty interval, or more cells than a `usize` counts).
    pub fn new(input_space: RegularSpace, n_outputs: usize) -> (r: Option<Partitions>)
        ensures
            r is Some <==> input_space.wf(),
            r is Some ==> {
                let p = r->0;
                &&& p.wf()
                &&& p.input_space == input_space
                &&& p@ == Seq::new(n_outputs as nat, |o: int| Seq::new(p.n_features as nat, |f: int| 0i64))
            },
    {
        let n_features = match input_space.span() {
            Some(n) => n,
            None => return None,
        };
        let mut weights: Vec<Vec<i64>> = Vec::new();
        while weights.len() < n_outputs
            invariant
                weights.len() <= n_outputs,
                forall|o: int| 0 <= o < weights.len() ==> (#[trigger] weights@[o])@ == Seq::new(n_features as nat, |f: int| 0i64),
            decreases n_outputs - weights.len(),
        {
            let mut col: Vec<i64> = Vec::new();
            while col.len() < n_features
                invariant
                    col.len() <= n_features,
                    forall|f: int| 0 <= f < col.len() ==> col@[f] == 0,
                decreases n_features - col.len(),
            {
                col.push(0);
            }
            assert(col@ =~= Seq::new(n_features as nat, |f: int| 0i64));
            weights.push(col);
        }
        let r = Partitions { input_space, n_features, weights };
        assert(r@ =~= Seq::new(n_outputs as nat, |o: int| Seq::new(n_features as nat, |f: int| 0i64)));
        Some(r)
    }

    pub fn n_outputs(&self) -> (r: usize)
        ensures
            r == self.n_outputs_spec(),
    {
        self.weights.len()
    }

    pub fn n_features(&self) -> (r: usize)
        ensures
            r == self.n_features,
    {
        self.n_features
    }

    /// The cell of the input `x`.
    pub fn hash(&self, x: &Vec<i64>) -> (r: Result<usize, Error>)
        requires
            self.wf(),
        ensures
            r is Ok <==> self.accepts(x@),
            r is Ok ==> r->Ok_0 == self.cell(x@) && r->Ok_0 < self.n_features,
            r is Err ==> r->Err_0 == self.mismatch(x@),
    {
        self.input_space.hash(x)
    }

    /// The one-hot feature vector of the input `x`.
    pub fn phi(&self, x: &Vec<i64>) -> (r: Result<Vec<i64>, Error>)
        requires
            self.wf(),
        ensures
            r is Ok <==> self.accepts(x@),
            r is Ok ==> r->Ok_0@ == one_hot(self.n_features as int, self.cell(x@)),
            r is Err ==> r->Err_0 == self.mismatch(x@),
    {
        self.input_space.project(x)
    }

    /// The row of the table for the cell of `x`: one value per output.
    pub fn evaluate(&self, x: &Vec<i64>) -> (r: Result<Vec<i64>, Error>)
        requires
            self.wf(),
        ensures
            r is Ok <==> self.accepts(x@),
            r is Ok ==> r->Ok_0@ == self.values_at(x@),
            r is Err ==> r->Err_0 == self.mismatch(x@),
    {
        let h = match self.hash(x) {
            Ok(h) => h,
            Err(e) => return Err(e),
        };
        let n = self.weights.len();
        let mut row: Vec<i64> = Vec::new();
        while row.len() < n
            invariant
                self.wf(),
                n == self@.len(),
                h < self.n_features,
                h == self.cell(x@),
                row.len() <= n,
                forall|o: int| 0 <= o < row.len() ==> row@[o] == self@[o][h as int],
            decreases n - row.len(),
        {
            let o = row.len();
            assert(self.weights@[o as int]@.len() == self.n_features);
            row.push(self.weights[o][h]);
        }
        assert(row@ =~= self.values_at(x@));
        Ok(row)
    }

    /// The value of output `a` at the cell of `x`.
    pub fn evaluate_action(&self, x: &Vec<i64>, a: usize) -> (r: Result<i64, Error>)
        requires
            self.wf(),
            a < self.n_outputs_spec(),
        ensures
            r is Ok <==> self.accepts(x@),
            r is Ok ==> r->Ok_0 == self@[a as int][self.cell(x@)],
            r is Err ==> r->Err_0 == self.mismatch(x@),
    {
        let h = match self.hash(x) {
            Ok(h) => h,
            Err(e) => return Err(e),
        };
        assert(self.weights@[a as int]@.len() == self.n_features);
        Ok(self.weights[a][h])
    }

    /// The value of the first output at the cell of `x`.
    pub fn evaluate_scalar(&self, x: &Vec<i64>) -> (r: Result<i64, Error>)
        requires
            self.wf(),
            self.n_outputs_spec() >= 1,
        ensures
            r is Ok <==> self.accepts(x@),
            r is Ok ==> r->Ok_0 == self@[0][self.cell(x@)],
            r is Err ==> r->Err_0 == self.mismatch(x@),
    {
        self.evaluate_action(x, 0)
    }

    fn add_at(&mut self, o: usize, f: usize, e: i64)
        requires
            old(self).wf(),
            o < old(self).n_outputs_spec(),
            f < old(self).n_features,
            fits(old(self)@[o as int][f as int] + e),
        ensures
            final(self).wf(),
            final(self).input_space == old(self).input_space,
            final(self).n_features == old(self).n_features,
            final(self).n_outputs_spec() == old(self).n_outputs_spec(),
            final(self)@ == table_add(old(self)@, o as int, f as int, e as int),
    {
        assert(self.weights@[o as int]@.len() == self.n_features);
        let mut col = self.weights[o].clone();
        assert(col@ =~= old(self).weights@[o as int]@);
        let v = col[f] + e;
        col.set(f, v);
        self.weights.set(o, col);
        assert(self@ =~= table_add(old(self)@, o as int, f as int, e as int));
    }

    /// Adds `e` to output `a` at the cell of `x`.
    pub fn update_action(&mut self, x: &Vec<i64>, a: usize, e: i64) -> (r: Result<(), Error>)
        requires
            old(self).wf(),
            a < old(self).n_outputs_spec(),
            old(self).accepts(x@) ==> fits(old(self)@[a as int][old(self).cell(x@)] + e),
        ensures
            final(self).wf(),
            final(self).input_space == old(self).input_space,
            final(self).n_features == old(self).n_features,
            final(self).n_outputs_spec() == old(self).n_outputs_spec(),
            r is Ok <==> old(self).accepts(x@),
            r is Ok ==> final(self)@ == table_add(old(self)@, a as int, old(self).cell(x@), e as int),
            r is Err ==> r->Err_0 == old(self).mismatch(x@) && final(self)@ == old(self)@,
    {
        let h = match self.hash(x) {
            Ok(h) => h,
            Err(e) => return Err(e),
        };
        self.add_at(a, h, e);
        Ok(())
    }

    /// Adds `e` to the first output at the cell of `x`.
    pub fn update_scalar(&mut self, x: &Vec<i64>, e: i64) -> (r: Result<(), Error>)
        requires
            old(self).wf(),
            old(self).n_outputs_spec() >= 1,
            old(self).accepts(x@) ==> fits(old(self)@[0][old(self).cell(x@)] + e),
        ensures
            final(self).wf(),
            final(self).input_space == old(self).input_space,
            final(self).n_features == old(self).n_features,
            final(self).n_outputs_spec() == old(self).n_outputs_spec(),
            r is Ok <==> old(self).accepts(x@),
            r is Ok ==> final(self)@ == table_add(old(self)@, 0, old(self).cell(x@), e as int),
            r is Err ==> r->Err_0 == old(self).mismatch(x@) && final(self)@ == old(self)@,
    {
        self.update_action(x, 0, e)
    }

    /// Adds `errors[o]` to every output `o` at the cell of `x`. Fails when `x`
    /// is not a point of the space, or `errors` has not one entry per output.
    pub fn update(&mut self, x: &Vec<i64>, errors: &Vec<i64>) -> (r: Result<(), Error>)
        requires
            old(self).wf(),
            old(self).accepts(x@) && errors@.len() == old(self).n_outputs_spec() ==> forall|o: int|
                0 <= o < errors@.len() ==> fits(
                    old(self)@[o][old(self).cell(x@)] + #[trigger] errors@[o],
                ),
        ensures
            final(self).wf(),
            final(self).input_space == old(self).input_space,
            final(self).n_features == old(self).n_features,
            final(self).n_outputs_spec() == old(self).n_outputs_spec(),
            r is Ok <==> old(self).accepts(x@) && errors@.len() == old(self).n_outputs_spec(),
            r is Ok ==> final(self)@ == Seq::new(
                old(self)@.len(),
                |o: int| old(self)@[o].update(old(self).cell(x@), (old(self)@[o][old(self).cell(x@)] + errors@[o]) as i64),
            ),
            r is Err ==> final(self)@ == old(self)@,
            r is Err && !old(self).accepts(x@) ==> r->Err_0 == old(self).mismatch(x@),
            r is Err && old(self).accepts(x@) ==> r->Err_0 == (Error::DimensionMismatch {
                expected: old(self).n_outputs_spec() as usize,
                found: errors@.len() as usize,
            }),
    {
        let h = match self.hash(x) {
            Ok(h) => h,
            Err(e) => return Err(e),
        };
        let n = self.weights.len();
        if errors.len() != n {
            return Err(Error::DimensionMismatch { expected: n, found: errors.len() });
        }
        let ghost target = Seq::new(
            old(self)@.len(),
            |o: int| old(self)@[o].update(h as int, (old(self)@[o][h as int] + errors@[o]) as i64),
        );
        let mut o: usize = 0;
        while o < n
            invariant
                self.wf(),
                self.input_space == old(self).input_space,
                self.n_features == old(self).n_features,
                n == self@.len(),
                n == old(self)@.len(),
                errors@.len() == n,
                h < self.n_features,
                h == old(self).cell(x@),
                target == Seq::new(
                    old(self)@.len(),
                    |k: int| old(self)@[k].update(h as int, (old(self)@[k][h as int] + errors@[k]) as i64),
                ),
                0 <= o <= n,
                forall|k: int| 0 <= k < n ==> fits(old(self)@[k][h as int] + #[trigger] errors@[k]),
                forall|k: int| 0 <= k < o ==> #[trigger] self@[k] == target[k],
                forall|k: int| o <= k < n ==> #[trigger] self@[k] == old(self)@[k],
            decreases n - o,
        {
            assert(fits(old(self)@[o as int][h as int] + errors@[o as int]));
            let ghost prev = self@;
            assert(prev[o as int] == old(self)@[o as int]);
            self.add_at(o, h, errors[o]);
            assert(self@ == table_add(prev, o as int, h as int, errors@[o as int] as int));
            assert(self@[o as int] == prev[o as int].update(
                h as int,
                (prev[o as int][h as int] + errors@[o as int]) as i64,
            ));
            assert(target[o as int] == old(self)@[o as int].update(
                h as int,
                (old(self)@[o as int][h as int] + errors@[o as int]) as i64,
            ));
            assert(self@[o as int] =~= target[o as int]);
            o = o + 1;
        }
        assert(self@ =~= target);
        Ok(())
    }

    /// The value of output `a` at the feature vector `phi`.
    pub fn evaluate_action_phi(&self, phi: &Vec<i64>, a: usize) -> (r: i64)
        requires
            self.wf(),
            a < self.n_outputs_spec(),
            phi@.len() == self.n_features,
            dot_fits(self@[a as int], phi@),
        ensures
            r == dot(self@[a as int], phi@),
    {
        assert(self.weights@[a as int]@.len() == self.n_features);
        dot_exec(&self.weights[a], phi)
    }

    /// The values of all outputs at the feature vector `phi`.
    pub fn evaluate_phi(&self, phi: &Vec<i64>) -> (r: Vec<i64>)
        requires
            self.wf(),
            phi@.len() == self.n_features,
            forall|o: int| 0 <= o < self@.len() ==> dot_fits(#[trigger] self@[o], phi@),
        ensures
            r@.len() == self@.len(),
            forall|o: int| 0 <= o < self@.len() ==> r@[o] == dot(#[trigger] self@[o], phi@),
    {
        let n = self.weights.len();
        let mut r: Vec<i64> = Vec::new();
        while r.len() < n
            invariant
                self.wf(),
                n == self@.len(),
                phi@.len() == self.n_features,
                forall|o: int| 0 <= o < self@.len() ==> dot_fits(#[trigger] self@[o], phi@),
                r.len() <= n,
                forall|o: int| 0 <= o < r.len() ==> r@[o] == dot(#[trigger] self@[o], phi@),
            decreases n - r.len(),
        {
            let v = self.evaluate_action_phi(phi, r.len());
            r.push(v);
        }
        r
    }

    /// Adds `rate * phi` to the weights of output `a`.
    pub fn update_action_phi(&mut self, phi: &Vec<i64>, a: usize, rate: i64)
        requires
            old(self).wf(),
            a < old(self).n_outputs_spec(),
            phi@.len() == old(self).n_features,
            axpy_fits(old(self)@[a as int], rate as int, phi@),
        ensures
            final(self).wf(),
            final(self).input_space == old(self).input_space,
            final(self).n_features == old(self).n_features,
            final(self).n_outputs_spec() == old(self).n_outputs_spec(),
            final(self)@ == old(self)@.update(a as int, axpy(old(self)@[a as int], rate as int, phi@)),
    {
        assert(self.weights@[a as int]@.len() == self.n_features);
        let mut col = self.weights[a].clone();
        assert(col@ =~= old(self).weights@[a as int]@);
        axpy_exec(&mut col, rate, phi);
        self.weights.set(a, col);
        assert(self@ =~= old(self)@.update(a as int, axpy(old(self)@[a as int], rate as int, phi@)));
    }

    /// A copy of the table.
    pub fn weights(&self) -> (r: Vec<Vec<i64>>)
        requires
            self.wf(),
        ensures
            r@.map_values(|c: Vec<i64>| c@) == self@,
    {
        let n = self.weights.len();
        let mut r: Vec<Vec<i64>> = Vec::new();
        while r.len() < n
            invariant
                n == self.weights@.len(),
                r.len() <= n,
                forall|o: int| 0 <= o < r.len() ==> (#[trigger] r@[o])@ == self.weights@[o]@,
            decreases n - r.len(),
        {
            let c = self.weights[r.len()].clone();
            assert(c@ =~= self.weights@[r.len() as int]@);
            r.push(c);
        }
        assert(r@.map_values(|c: Vec<i64>| c@) =~= self@);
        r
    }
}

} // verus!
