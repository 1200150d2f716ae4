//! Progress of a running operation: the samples that a worker reports and
//! the exact fraction they stand for.
//!
//! Progress is kept as a fraction of byte counts rather than as a rounded
//! number, so that comparing two values is exact. The order on fractions is
//! what keeps the progress that the front-end shows from ever going down.

use vstd::prelude::*;

verus! {

/// One report of a worker: `transferred` bytes out of `total`.
#[derive(Clone, Copy, Debug, PartialEq, Eq, Structural)]
pub struct Sample {
    pub transferred: usize,
    pub total: usize,
}

/// The mathematical value of a [`Progress`]: the fraction `done / total`.
pub struct Fraction {
    pub done: nat,
    pub total: nat,
}

impl Fraction {
    /// A fraction stands for a share between nothing and everything.
    pub open spec fn valid(self) -> bool {
        self.done <= self.total && self.total >= 1
    }

    /// Nothing done yet.
    pub open spec fn zero() -> Fraction {
        Fraction { done: 0, total: 1 }
    }

    /// Everything done: a hundred out of a hundred.
    pub open spec fn full() -> Fraction {
        Fraction { done: 100, total: 100 }
    }

    /// The fraction that a sample reports. A sample never counts for more
    /// than the whole, and one without a total counts for nothing.
    pub open spec fn of_sample(sample: Sample) -> Fraction {
        if sample.total == 0 {
            Fraction::zero()
        } else if sample.transferred >= sample.total {
            Fraction { done: sample.total as nat, total: sample.total as nat }
        } else {
            Fraction { done: sample.transferred as nat, total: sample.total as nat }
        }
    }

    /// `self` is no further along than `other`, compared as exact fractions.
    pub open spec fn le(self, other: Fraction) -> bool {
        self.done * other.total <= other.done * self.total
    }

    /// The further along of two fractions; `self` where both are level.
    pub open spec fn later(self, other: Fraction) -> Fraction {
        if other.le(self) {
            self
        } else {
            other
        }
    }

    /// The share in whole percent, rounded down. A fraction that has
    /// reached its total shows a hundred, whatever the total is.
    pub open spec fn percent(self) -> nat {
        if self.done >= self.total {
            100
        } else {
            self.done * 100 / self.total
        }
    }
}

/// How far an operation has come, kept exactly as a fraction of byte counts.
#[derive(Clone, Copy, Debug, PartialEq, Eq, Structural)]
pub struct Progress {
    done: usize,
    total: usize,
}

impl View for Progress {
    type V = Fraction;

    closed spec fn view(&self) -> Fraction {
        Fraction { done: self.done as nat, total: self.total as nat }
    }
}

impl Progress {
    /// The invariant of the type: the fraction lies between 0 and 1. Every
    /// value that the library hands out has it.
    pub open spec fn wf(&self) -> bool {
        self@.valid()
    }

    /// No progress.
    pub fn zero() -> (p: Progress)
        ensures
            p.wf(),
            p@ == Fraction::zero(),
    {
        Progress { done: 0, total: 1 }
    }

    /// Completed.
    pub fn full() -> (p: Progress)
        ensures
            p.wf(),
            p@ == Fraction::full(),
    {
        Progress { done: 100, total: 100 }
    }

    /// The progress that `sample` reports.
    pub fn from_sample(sample: Sample) -> (p: Progress)
        ensures
            p.wf(),
            p@ == Fraction::of_sample(sample),
    {
        if sample.total == 0 {
            Progress::zero()
        } else if sample.transferred >= sample.total {
            Progress { done: sample.total, total: sample.total }
        } else {
            Progress { done: sample.transferred, total: sample.total }
        }
    }

    /// The numerator of the fraction.
    pub fn done(&self) -> (n: usize)
        ensures
            n == self@.done,
    {
        self.done
    }

    /// The denominator of the fraction.
    pub fn total(&self) -> (n: usize)
        ensures
            n == self@.total,
    {
        self.total
    }

    /// Whether `self` is no further along than `other`.
    pub fn le(&self, other: &Progress) -> (r: bool)
        ensures
            r == self@.le(other@),
    {
        let left: u128 = widening_product(self.done, other.total);
        let right: u128 = widening_product(other.done, self.total);
        left <= right
    }

    /// The further along of `self` and `other`.
    pub fn later(self, other: Progress) -> (p: Progress)
        ensures
            p@ == self@.later(other@),
            self.wf() && other.wf() ==> p.wf(),
    {
        if other.le(&self) {
            self
        } else {
            other
        }
    }

    /// The share in whole percent, rounded down; always within 0..=100.
    pub fn percent(&self) -> (p: u8)
        ensures
            p == self@.percent(),
            p <= 100,
    {
        if self.done >= self.total {
            return 100;
        }
        let scaled: u128 = widening_product(self.done, 100);
        let whole: u128 = self.total as u128;
        let share: u128 = scaled / whole;
        assert(share < 100) by (nonlinear_arith)
            requires
                share == scaled / whole,
                scaled == self.done * 100,
                self.done < whole,
        ;
        share as u8
    }
}

/// The product of two machine words, which always fits 128 bits.
fn widening_product(a: usize, b: usize) -> (p: u128)
    ensures
        p == a * b,
{
    assert(a * b <= 0xffff_ffff_ffff_ffff * 0xffff_ffff_ffff_ffff) by (nonlinear_arith)
        requires
            a <= 0xffff_ffff_ffff_ffff,
            b <= 0xffff_ffff_ffff_ffff,
    ;
    (a as u128) * (b as u128)
}

/// The percentage of a valid fraction is the floor of a hundred times the
/// fraction, and lies between 0 and 100.
pub proof fn lemma_percent_is_floor(f: Fraction)
    requires
        f.valid(),
    ensures
        f.percent() == f.done * 100 / f.total,
        f.percent() <= 100,
{
    let (d, t) = (f.done as int, f.total as int);
    if d >= t {
        assert((t * 100) / t == 100) by (nonlinear_arith)
            requires
                t >= 1,
        ;
    } else {
        assert(d * 100 <= t * 100) by (nonlinear_arith)
            requires
                d <= t,
        ;
        assert((d * 100) / t <= 100) by (nonlinear_arith)
            requires
                d * 100 <= t * 100,
                t >= 1,
                d >= 0,
        ;
    }
}

/// The order on fractions is transitive: what lies behind an earlier point
/// lies behind every later one.
pub proof fn lemma_le_transitive(a: Fraction, b: Fraction, c: Fraction)
    requires
        a.valid(),
        b.valid(),
        c.valid(),
        a.le(b),
        b.le(c),
    ensures
        a.le(c),
{
    let (ad, at) = (a.done as int, a.total as int);
    let (bd, bt) = (b.done as int, b.total as int);
    let (cd, ct) = (c.done as int, c.total as int);
    assert(ad * bt * ct <= bd * at * ct) by (nonlinear_arith)
        requires
            ad * bt <= bd * at,
            ct >= 1,
    ;
    assert(bd * ct * at <= cd * bt * at) by (nonlinear_arith)
        requires
            bd * ct <= cd * bt,
            at >= 1,
    ;
    assert(ad * ct * bt <= cd * at * bt) by (nonlinear_arith)
        requires
            ad * bt * ct <= bd * at * ct,
            bd * ct * at <= cd * bt * at,
    ;
    assert(ad * ct <= cd * at) by (nonlinear_arith)
        requires
            ad * ct * bt <= cd * at * bt,
            bt >= 1,
    ;
}

/// The further along of two fractions is behind neither of them.
pub proof fn lemma_later_bounds(a: Fraction, b: Fraction)
    requires
        a.valid(),
        b.valid(),
    ensures
        a.later(b).valid(),
        a.le(a.later(b)),
        b.le(a.later(b)),
        a.later(b) == a || a.later(b) == b,
{
    assert(a.done * a.total <= a.done * a.total);
    assert(b.done * b.total <= b.done * b.total);
    if !b.le(a) {
        assert(a.done * b.total <= b.done * a.total) by (nonlinear_arith)
            requires
                !(b.done * a.total <= a.done * b.total),
        ;
    }
}

/// A fraction that is further along never shows a smaller percentage.
pub proof fn lemma_percent_monotone(a: Fraction, b: Fraction)
    requires
        a.valid(),
        b.valid(),
        a.le(b),
    ensures
        a.percent() <= b.percent(),
{
    lemma_percent_is_floor(a);
    lemma_percent_is_floor(b);
    let (ad, at) = (a.done as int, a.total as int);
    let (bd, bt) = (b.done as int, b.total as int);
    let p = (ad * 100) / at;
    let q = (bd * 100) / bt;
    if q < p {
        assert(p * at <= ad * 100) by (nonlinear_arith)
            requires
                p == (ad * 100) / at,
                at >= 1,
                ad >= 0,
        ;
        assert(bd * 100 < (q + 1) * bt) by (nonlinear_arith)
            requires
                q == (bd * 100) / bt,
                bt >= 1,
                bd >= 0,
        ;
        assert(bd * 100 < p * bt) by (nonlinear_arith)
            requires
                bd * 100 < (q + 1) * bt,
                q + 1 <= p,
                bt >= 1,
        ;
        assert(false) by (nonlinear_arith)
            requires
                p * at <= ad * 100,
                bd * 100 < p * bt,
                ad * bt <= bd * at,
                at >= 1,
                bt >= 1,
                p >= 0,
        ;
    }
}

} // verus!
