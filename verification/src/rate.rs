//! Accumulation of fractional admission credits from elapsed time.
//!
//! The accumulator converts elapsed wall-clock time into permission to admit
//! items. It works in exact integer arithmetic: the admission rate is given in
//! thousandths of an item per minute, and credits are kept in units of
//! `1 / CREDIT_UNIT` of an item, so that `rate * elapsed_nanoseconds` is the
//! exact credit gained over an interval.

use vstd::prelude::*;

verus! {

/// Number of raw credit units that make up one whole item: one thousandth of
/// an item per minute, sustained for one nanosecond, earns one raw unit, and
/// `1000 * 60_000_000_000` such units make an item.
pub const CREDIT_UNIT: u128 = 60_000_000_000_000;

/// The credit balance after crediting `rate * elapsed_nanos` raw units onto
/// `credits`, saturating at `u128::MAX`.
pub open spec fn advanced_credits(credits: u128, rate: u64, elapsed_nanos: u64) -> u128 {
    if credits + rate * elapsed_nanos <= u128::MAX {
        (credits + rate * elapsed_nanos) as u128
    } else {
        u128::MAX
    }
}

/// How many whole items a raw credit balance admits: `floor(credits)`,
/// capped at what a `usize` can count.
pub open spec fn admissible_of(credits: u128) -> usize {
    if credits / CREDIT_UNIT > usize::MAX as u128 {
        usize::MAX
    } else {
        (credits / CREDIT_UNIT) as usize
    }
}

/// Converts elapsed time into fractional admission credits.
///
/// `credits` never goes negative; it starts at one whole item so the very
/// first tick can admit an item without waiting. The ghost fields record the
/// whole history of the accumulator: how many nanoseconds were ever fed to
/// `advance`, how many items were ever spent, and whether the credit
/// arithmetic ever saturated (which on a real machine it never does).
pub struct RateAccumulator {
    /// Admission rate, in thousandths of an item per minute.
    pub rate: u64,
    /// Accumulated permission, in units of `1 / CREDIT_UNIT` of an item.
    pub credits: u128,
    /// Total nanoseconds ever passed to `advance`.
    pub elapsed: Ghost<nat>,
    /// Total items ever spent through `spend`.
    pub admitted: Ghost<nat>,
    /// True as long as no credit addition has saturated at `u128::MAX`.
    pub exact: Ghost<bool>,
}

impl RateAccumulator {
    /// Credit conservation: everything ever earned was either spent or is
    /// still held. Earned credit is the initial whole item plus
    /// `rate * elapsed`; when no addition has saturated the balance is exact,
    /// and saturation can only lose credit, never invent it.
    pub open spec fn conserved(&self) -> bool {
        &&& self.admitted@ * CREDIT_UNIT + self.credits
            <= CREDIT_UNIT + self.rate * self.elapsed@
        &&& (self.exact@ ==> self.admitted@ * CREDIT_UNIT + self.credits
            == CREDIT_UNIT + self.rate * self.elapsed@)
    }

    /// Whole items currently admissible.
    pub open spec fn spec_admissible(&self) -> usize {
        admissible_of(self.credits)
    }

    /// A fresh accumulator holding exactly one whole item of credit.
    pub fn new(rate: u64) -> (r: Self)
        ensures
            r.rate == rate,
            r.credits == CREDIT_UNIT,
            r.elapsed@ == 0,
            r.admitted@ == 0,
            r.exact@,
            r.conserved(),
    {
        RateAccumulator {
            rate,
            credits: CREDIT_UNIT,
            elapsed: Ghost(0),
            admitted: Ghost(0),
            exact: Ghost(true),
        }
    }

    /// Adds `rate * elapsed_nanos` raw units of credit, saturating at
    /// `u128::MAX` (and recording the loss in `exact`) if the balance would
    /// overflow.
    pub fn advance(&mut self, elapsed_nanos: u64)
        ensures
            final(self).rate == old(self).rate,
            final(self).admitted@ == old(self).admitted@,
            final(self).elapsed@ == old(self).elapsed@ + elapsed_nanos,
            final(self).credits == advanced_credits(
                old(self).credits,
                old(self).rate,
                elapsed_nanos,
            ),
            final(self).exact@ == (old(self).exact@
                && old(self).credits + old(self).rate * elapsed_nanos <= u128::MAX),
            old(self).conserved() ==> final(self).conserved(),
    {
        proof {
            let r = old(self).rate as int;
            let e = old(self).elapsed@ as int;
            let d = elapsed_nanos as int;
            assert(r * d <= u128::MAX as int) by (nonlinear_arith)
                requires
                    0 <= r <= u64::MAX,
                    0 <= d <= u64::MAX;
            assert(r * (e + d) == r * e + r * d) by (nonlinear_arith);
        }
        let delta: u128 = (self.rate as u128) * (elapsed_nanos as u128);
        if self.credits <= u128::MAX - delta {
            self.credits = self.credits + delta;
        } else {
            self.credits = u128::MAX;
            self.exact = Ghost(false);
        }
        self.elapsed = Ghost(self.elapsed@ + elapsed_nanos as nat);
    }

    /// How many whole items the current balance admits.
    pub fn admissible(&self) -> (n: usize)
        ensures
            n == self.spec_admissible(),
    {
        let q: u128 = self.credits / CREDIT_UNIT;
        if q > usize::MAX as u128 {
            usize::MAX
        } else {
            q as usize
        }
    }

    /// Spends `k` whole items of credit; the fractional remainder is kept,
    /// which is what makes the long-run admission rate exact.
    pub fn spend(&mut self, k: usize)
        requires
            k <= old(self).spec_admissible(),
        ensures
            final(self).rate == old(self).rate,
            final(self).elapsed@ == old(self).elapsed@,
            final(self).exact@ == old(self).exact@,
            final(self).admitted@ == old(self).admitted@ + k,
            final(self).credits == old(self).credits - k * CREDIT_UNIT,
            old(self).conserved() ==> final(self).conserved(),
    {
        proof {
            vstd::arithmetic::div_mod::lemma_fundamental_div_mod(
                old(self).credits as int,
                CREDIT_UNIT as int,
            );
            vstd::arithmetic::mul::lemma_mul_inequality(
                k as int,
                (old(self).credits / CREDIT_UNIT) as int,
                CREDIT_UNIT as int,
            );
            assert((k as int) * (CREDIT_UNIT as int) <= old(self).credits);
            let a = old(self).admitted@ as int;
            let kk = k as int;
            let u = CREDIT_UNIT as int;
            assert((a + kk) * u == a * u + kk * u) by (nonlinear_arith);
        }
        let spent: u128 = (k as u128) * CREDIT_UNIT;
        self.credits = self.credits - spent;
        self.admitted = Ghost(self.admitted@ + k as nat);
    }
}

/// Rate convergence, upper half: the accumulator never admits more than the
/// target rate allows. Over any run, the credit spent on admitted items is at
/// most the initial whole item plus `rate * elapsed`.
pub proof fn lemma_rate_never_exceeded(acc: &RateAccumulator)
    requires
        acc.conserved(),
    ensures
        acc.admitted@ * CREDIT_UNIT <= CREDIT_UNIT + acc.rate * acc.elapsed@,
{
}

/// Rate convergence, lower half: whenever the balance is drained below one
/// whole item (workers kept pace, so every admissible item was taken), the
/// credit spent on admitted items exceeds `rate * elapsed` — together with
/// the upper half, the items admitted by time `T` match `rate * T` to within
/// one item.
pub proof fn lemma_rate_achieved(acc: &RateAccumulator)
    requires
        acc.conserved(),
        acc.exact@,
        acc.credits < CREDIT_UNIT,
    ensures
        acc.admitted@ * CREDIT_UNIT > acc.rate * acc.elapsed@,
{
}

} // verus!
