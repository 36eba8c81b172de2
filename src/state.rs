//! Pool configuration and the fee model.
use crate::error::PoolError;
use vstd::prelude::*;

verus! {

/// Fee rates are expressed in millionths of the redeemed size.
pub const FEE_RATE_DENOMINATOR: u64 = 1_000_000;

/// The pool's configuration.
#[derive(Clone, Copy, Debug, PartialEq, Eq, Structural)]
pub struct PoolState {
    /// Bound on one user's share balance after a creation.
    pub max_single_deposit: u64,
    /// Bound on the shares outstanding.
    pub max_capacity: u64,
    /// Fee paid to the pool's owner on a redemption, in millionths.
    pub pool_fee_rate: u64,
    /// Fee paid to the referrer on a redemption, in millionths.
    pub referrer_fee_rate: u64,
}

/// The fee owed on one redemption, by beneficiary, in pool shares.
#[derive(Clone, Copy, Debug, PartialEq, Eq, Structural)]
pub struct Fees {
    pub pool_fee: u64,
    pub referrer_fee: u64,
}

impl Fees {
    pub open spec fn total(&self) -> int {
        self.pool_fee + self.referrer_fee
    }

    /// The sum of the components.
    pub fn total_fee(&self) -> (r: u64)
        requires
            self.total() <= u64::MAX,
        ensures
            r == self.total(),
    {
        self.pool_fee + self.referrer_fee
    }
}

/// The share of `size` that a fee rate takes, rounded down.
pub open spec fn fee_component(size: u64, rate: u64) -> int {
    (size as int) * (rate as int) / (FEE_RATE_DENOMINATOR as int)
}

/// The fees owed on a redemption of `size` shares.
pub open spec fn fees_spec(state: PoolState, size: u64) -> Result<Fees, PoolError> {
    let p = fee_component(size, state.pool_fee_rate);
    let q = fee_component(size, state.referrer_fee_rate);
    if p + q > u64::MAX {
        Err(PoolError::ArithmeticOverflow)
    } else {
        Ok(Fees { pool_fee: p as u64, referrer_fee: q as u64 })
    }
}

fn rate_share(size: u64, rate: u64) -> (r: u128)
    ensures
        r as int == fee_component(size, rate),
{
    proof {
        assert((size as int) * (rate as int) <= (u64::MAX as int) * (u64::MAX as int))
            by (nonlinear_arith)
            requires
                size <= u64::MAX,
                rate <= u64::MAX,
        ;
    }
    (size as u128) * (rate as u128) / (FEE_RATE_DENOMINATOR as u128)
}

/// Computes the fees of `fees_spec`.
pub fn compute_fees(state: &PoolState, size: u64) -> (r: Result<Fees, PoolError>)
    ensures
        r == fees_spec(*state, size),
{
    let p = rate_share(size, state.pool_fee_rate);
    let q = rate_share(size, state.referrer_fee_rate);
    if p > u64::MAX as u128 || q > u64::MAX as u128 || p + q > u64::MAX as u128 {
        return Err(PoolError::ArithmeticOverflow);
    }
    Ok(Fees { pool_fee: p as u64, referrer_fee: q as u64 })
}

} // verus!
