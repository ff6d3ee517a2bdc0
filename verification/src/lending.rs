use vstd::prelude::*;

verus! {

/// Basis points in one whole: utilization is scaled by this factor, and the
/// slope of the rate applies per this many basis points of utilization.
pub const BASIS_POINTS: i128 = 10_000;

/// The instance-storage slots of the lending contract.
#[derive(Clone, Copy, Debug, PartialEq, Eq, Structural)]
pub enum DataKey {
    TotalSupply,
    TotalBorrowed,
    InterestParams,
}

/// Parameters of the utilization-based interest rate, in basis points.
#[derive(Clone, Copy, Debug, PartialEq, Eq, Structural)]
pub struct InterestParams {
    /// The rate at zero utilization (e.g. 2% = 200).
    pub base_rate: i128,
    /// Rate added per full (10 000 bp) utilization.
    pub slope: i128,
    /// The cap on the rate.
    pub max_rate: i128,
}

/// The lending pool's instance storage: each slot is absent until written.
#[derive(Clone, Copy, Debug, PartialEq, Eq, Structural)]
pub struct LendingContract {
    pub params: Option<InterestParams>,
    pub total_supply: Option<i128>,
    pub total_borrowed: Option<i128>,
}

/// Whether `x` fits in an `i128`.
pub open spec fn fits_i128(x: int) -> bool {
    i128::MIN <= x <= i128::MAX
}

/// Integer division rounding toward zero, as Rust's `/` on signed integers.
pub open spec fn div_toward_zero(x: int, d: int) -> int {
    if x == 0 {
        0
    } else if x > 0 && d > 0 {
        x / d
    } else if x < 0 && d < 0 {
        (-x) / (-d)
    } else if x < 0 {
        -((-x) / d)
    } else {
        -(x / (-d))
    }
}

/// A stored amount, with an absent slot read as zero.
pub open spec fn or_zero(slot: Option<i128>) -> int {
    match slot {
        Some(v) => v as int,
        None => 0,
    }
}

/// Utilization in basis points: borrowed * 10 000 / supply, and 0 on an empty pool.
pub open spec fn utilization(supply: int, borrowed: int) -> int {
    if supply == 0 {
        0
    } else {
        div_toward_zero(borrowed * 10_000, supply)
    }
}

/// Whether computing the utilization stays within `i128`.
pub open spec fn utilization_defined(supply: int, borrowed: int) -> bool {
    supply != 0 ==> fits_i128(borrowed * 10_000) && fits_i128(
        div_toward_zero(borrowed * 10_000, supply),
    )
}

/// The rate before the cap: base + utilization * slope / 10 000.
pub open spec fn uncapped_rate(params: InterestParams, util: int) -> int {
    params.base_rate + div_toward_zero(util * params.slope, 10_000)
}

/// The interest rate: the uncapped rate, cut down to `max_rate`.
pub open spec fn interest_rate(params: InterestParams, util: int) -> int {
    let raw = uncapped_rate(params, util);
    if raw > params.max_rate {
        params.max_rate as int
    } else {
        raw
    }
}

/// Whether computing the rate from `util` stays within `i128`.
pub open spec fn rate_defined(params: InterestParams, util: int) -> bool {
    fits_i128(util * params.slope) && fits_i128(uncapped_rate(params, util))
}

/// Division rounding toward zero on `i128`.
pub fn div_i128(x: i128, d: i128) -> (q: i128)
    requires
        d != 0,
        fits_i128(div_toward_zero(x as int, d as int)),
    ensures
        q == div_toward_zero(x as int, d as int),
{
    match x.checked_div(d) {
        Some(q) => q,
        None => 0,
    }
}

impl LendingContract {
    /// The storage of a contract that has not been initialized.
    pub fn new() -> (r: LendingContract)
        ensures
            r.params is None,
            r.total_supply is None,
            r.total_borrowed is None,
    {
        LendingContract { params: None, total_supply: None, total_borrowed: None }
    }

    /// Stores the rate parameters and resets supply and borrowed to zero.
    pub fn init(&mut self, base_rate: i128, slope: i128, max_rate: i128)
        ensures
            final(self).params == Some(InterestParams { base_rate, slope, max_rate }),
            final(self).total_supply == Some(0i128),
            final(self).total_borrowed == Some(0i128),
    {
        let params = InterestParams { base_rate, slope, max_rate };
        self.params = Some(params);
        self.total_supply = Some(0);
        self.total_borrowed = Some(0);
    }

    /// Adds `amount` (a deposit, or a withdrawal when negative) to the total supply.
    pub fn update_supply(&mut self, amount: i128)
        requires
            fits_i128(or_zero(old(self).total_supply) + amount),
        ensures
            final(self).total_supply == Some((or_zero(old(self).total_supply) + amount) as i128),
            final(self).total_borrowed == old(self).total_borrowed,
            final(self).params == old(self).params,
    {
        let supply: i128 = match self.total_supply {
            Some(v) => v,
            None => 0,
        };
        self.total_supply = Some(supply + amount);
    }

    /// Adds `amount` (a loan, or a repayment when negative) to the total borrowed.
    pub fn update_borrowed(&mut self, amount: i128)
        requires
            fits_i128(or_zero(old(self).total_borrowed) + amount),
        ensures
            final(self).total_borrowed == Some(
                (or_zero(old(self).total_borrowed) + amount) as i128,
            ),
            final(self).total_supply == old(self).total_supply,
            final(self).params == old(self).params,
    {
        let borrowed: i128 = match self.total_borrowed {
            Some(v) => v,
            None => 0,
        };
        self.total_borrowed = Some(borrowed + amount);
    }

    /// Utilization in basis points: borrowed * 10 000 / supply, 0 when supply is 0.
    pub fn get_utilization(&self) -> (r: i128)
        requires
            utilization_defined(or_zero(self.total_supply), or_zero(self.total_borrowed)),
        ensures
            r == utilization(or_zero(self.total_supply), or_zero(self.total_borrowed)),
    {
        let supply: i128 = match self.total_supply {
            Some(v) => v,
            None => 0,
        };
        let borrowed: i128 = match self.total_borrowed {
            Some(v) => v,
            None => 0,
        };
        if supply == 0 {
            return 0;
        }
        div_i128(borrowed * BASIS_POINTS, supply)
    }

    /// The interest rate: base_rate + utilization * slope / 10 000, capped at max_rate.
    pub fn get_interest_rate(&self) -> (r: i128)
        requires
            self.params is Some,
            utilization_defined(or_zero(self.total_supply), or_zero(self.total_borrowed)),
            rate_defined(
                self.params->0,
                utilization(or_zero(self.total_supply), or_zero(self.total_borrowed)),
            ),
        ensures
            r == interest_rate(
                self.params->0,
                utilization(or_zero(self.total_supply), or_zero(self.total_borrowed)),
            ),
            r <= self.params->0.max_rate,
    {
        let params = match self.params {
            Some(p) => p,
            None => InterestParams { base_rate: 0, slope: 0, max_rate: 0 },
        };
        let util = self.get_utilization();
        let mut rate = params.base_rate + div_i128(util * params.slope, BASIS_POINTS);
        if rate > params.max_rate {
            rate = params.max_rate;
        }
        rate
    }
}


/// A freshly initialized pool has zero utilization, so its rate is the base
/// rate, cut down to the cap.
pub proof fn lemma_fresh_pool_rate(base_rate: i128, slope: i128, max_rate: i128)
    ensures
        utilization(0, 0) == 0,
        interest_rate(InterestParams { base_rate, slope, max_rate }, utilization(0, 0)) == if base_rate
            > max_rate {
            max_rate
        } else {
            base_rate
        },
{
}

/// The rate never exceeds the cap, whatever the utilization.
pub proof fn lemma_rate_capped(params: InterestParams, util: int)
    ensures
        interest_rate(params, util) <= params.max_rate,
{
}


/// `q` is `x / d` rounded toward zero: `q * d` lies between 0 and `x`, less
/// than one `d` away from `x`.
pub open spec fn is_quotient_toward_zero(q: int, x: int, d: int) -> bool {
    &&& (x >= 0 ==> 0 <= q * d <= x)
    &&& (x < 0 ==> x <= q * d <= 0)
    &&& (d > 0 ==> -d < x - q * d < d)
    &&& (d < 0 ==> d < x - q * d < -d)
}

/// Division rounding toward zero gives the quotient toward zero.
pub proof fn lemma_div_toward_zero(x: int, d: int)
    requires
        d != 0,
    ensures
        is_quotient_toward_zero(div_toward_zero(x, d), x, d),
{
    let q = div_toward_zero(x, d);
    if x == 0 {
    } else if x > 0 && d > 0 {
        assert(0 <= (x / d) * d <= x && x - (x / d) * d < d) by (nonlinear_arith)
            requires
                x > 0,
                d > 0,
        ;
    } else if x < 0 && d < 0 {
        let (a, b) = (-x, -d);
        assert(0 <= (a / b) * b <= a && a - (a / b) * b < b) by (nonlinear_arith)
            requires
                a > 0,
                b > 0,
        ;
        assert(q * d == -((a / b) * b)) by (nonlinear_arith)
            requires
                q == a / b,
                d == -b,
        ;
    } else if x < 0 {
        let a = -x;
        assert(0 <= (a / d) * d <= a && a - (a / d) * d < d) by (nonlinear_arith)
            requires
                a > 0,
                d > 0,
        ;
        assert(q * d == -((a / d) * d)) by (nonlinear_arith)
            requires
                q == -(a / d),
        ;
    } else {
        let b = -d;
        assert(0 <= (x / b) * b <= x && x - (x / b) * b < b) by (nonlinear_arith)
            requires
                x > 0,
                b > 0,
        ;
        assert(q * d == (x / b) * b) by (nonlinear_arith)
            requires
                q == -(x / b),
                d == -b,
        ;
        assert(x - q * d < b);
    }
}

/// Utilization is 0 for an empty pool, and otherwise `borrowed * 10 000`
/// divided by the supply, rounded toward zero.
pub proof fn lemma_utilization_rule(supply: int, borrowed: int)
    ensures
        supply == 0 ==> utilization(supply, borrowed) == 0,
        supply != 0 ==> is_quotient_toward_zero(
            utilization(supply, borrowed),
            borrowed * 10_000,
            supply,
        ),
{
    if supply != 0 {
        lemma_div_toward_zero(borrowed * 10_000, supply);
    }
}

/// The rate is the base rate plus `utilization * slope / 10 000` (rounded
/// toward zero), cut down to the cap.
pub proof fn lemma_interest_rate_rule(params: InterestParams, util: int)
    ensures
        exists|q: int|
            #[trigger] is_quotient_toward_zero(q, util * params.slope, 10_000) && interest_rate(params, util)
                == if params.base_rate + q > params.max_rate {
                params.max_rate as int
            } else {
                params.base_rate + q
            },
{
    let q = div_toward_zero(util * params.slope, 10_000);
    lemma_div_toward_zero(util * params.slope, 10_000);
    assert(is_quotient_toward_zero(q, util * params.slope, 10_000));
}

} // verus!
