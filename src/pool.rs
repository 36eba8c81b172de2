//! The extension point that every pool strategy implements, and the
//! orchestration of creation, redemption and swap on top of it.
use crate::basket::{basket_result_view, Basket};
use crate::context::{settles_as, ContextView, PoolContext};
use crate::error::PoolError;
use crate::state::{fees_spec, PoolState};
use solana_program::account_info::AccountInfo;
use solana_program::pubkey::Pubkey;
use vstd::prelude::*;

verus! {

#[verifier::external_type_specification]
#[verifier::external_body]
pub struct ExPubkey(Pubkey);

#[verifier::external_type_specification]
#[verifier::external_body]
pub struct ExAccountInfo<'a>(AccountInfo<'a>);

/// The capacity guard: why a creation of `size` shares is refused before any
/// basket is computed, if it is.
pub open spec fn capacity_check(v: ContextView, state: PoolState, size: u64) -> Result<(), PoolError> {
    match v.user {
        None => Err(PoolError::InvalidArgument),
        Some(u) => if u.pool_tokens + size > state.max_single_deposit {
            Err(PoolError::InvalidArgument)
        } else if u.pool_tokens + v.supply > state.max_capacity {
            Err(PoolError::InvalidArgument)
        } else {
            Ok(())
        },
    }
}

/// The context after a creation of `size` shares whose basket computation
/// gave `basket`: guard, then the basket moves in, then the shares are issued.
pub open spec fn creation_outcome(
    v: ContextView,
    state: PoolState,
    size: u64,
    basket: Result<Seq<u64>, PoolError>,
) -> Result<ContextView, PoolError> {
    match capacity_check(v, state, size) {
        Err(e) => Err(e),
        Ok(_) => match basket {
            Err(e) => Err(e),
            Ok(b) => match v.deposit(b) {
                Err(e) => Err(e),
                Ok(v1) => v1.mint(size),
            },
        },
    }
}

/// The size left to redeem once the fees are taken out, where there is one.
pub open spec fn net_redemption(state: PoolState, size: u64) -> u64 {
    match fees_spec(state, size) {
        Ok(f) => if f.total() <= size {
            (size - f.total()) as u64
        } else {
            0
        },
        Err(_) => 0,
    }
}

/// The context after a redemption of `size` shares whose basket computation,
/// on the size net of fees, gave `basket`: fees, then the shares are given up
/// and the fees routed, then the basket moves out.
pub open spec fn redemption_outcome(
    v: ContextView,
    state: PoolState,
    size: u64,
    basket: Result<Seq<u64>, PoolError>,
) -> Result<ContextView, PoolError> {
    match fees_spec(state, size) {
        Err(e) => Err(e),
        Ok(f) => if size < f.total() {
            Err(PoolError::ArithmeticOverflow)
        } else {
            match basket {
                Err(e) => Err(e),
                Ok(b) => match v.burn_and_collect((size - f.total()) as u64, f) {
                    Err(e) => Err(e),
                    Ok(v1) => v1.withdraw(b),
                },
            }
        },
    }
}

/// A pool strategy. A strategy states which basket it asks for a creation and
/// hands out for a redemption; the settlement of each operation is shared.
pub trait Pool {
    /// The basket that a creation of `size` shares asks of the user.
    spec fn creation_basket(ctx: ContextView, state: PoolState, size: u64) -> Result<
        Seq<u64>,
        PoolError,
    >;

    /// The basket that a redemption of `size` shares, net of fees, hands out.
    spec fn redemption_basket(ctx: ContextView, state: PoolState, size: u64) -> Result<
        Seq<u64>,
        PoolError,
    >;

    /// The basket that a swap request prices. Swaps need a pricing rule of the
    /// strategy's own.
    spec fn swap_basket(ctx: ContextView, state: PoolState, request: Seq<u64>) -> Result<
        Seq<u64>,
        PoolError,
    >;

    /// One-time setup of a new pool; by default it accepts the configuration
    /// as it is.
    fn initialize_pool(context: &PoolContext, state: &mut PoolState) -> (r: Result<(), PoolError>)
        default_ensures
            r is Ok,
            *final(state) == *old(state),
    {
        Ok(())
    }

    /// Computes `creation_basket`.
    fn get_creation_basket(context: &PoolContext, state: &PoolState, creation_size: u64) -> (r:
        Result<Basket, PoolError>)
        ensures
            basket_result_view(r) == Self::creation_basket(context@, *state, creation_size),
    ;

    /// Computes `redemption_basket`.
    fn get_redemption_basket(context: &PoolContext, state: &PoolState, redemption_size: u64) -> (r:
        Result<Basket, PoolError>)
        ensures
            basket_result_view(r) == Self::redemption_basket(context@, *state, redemption_size),
    ;

    /// Computes `swap_basket`.
    fn get_swap_basket(context: &PoolContext, state: &PoolState, request: &[u64]) -> (r: Result<
        Basket,
        PoolError,
    >)
        ensures
            basket_result_view(r) == Self::swap_basket(context@, *state, request@),
    ;

    /// Creates `creation_size` shares for the user against the creation basket,
    /// after the capacity guard; all of it or nothing.
    fn process_creation(context: &mut PoolContext, state: &mut PoolState, creation_size: u64) -> (r:
        Result<(), PoolError>)
        ensures
            settles_as(
                r,
                old(context)@,
                final(context)@,
                creation_outcome(
                    old(context)@,
                    *old(state),
                    creation_size,
                    Self::creation_basket(old(context)@, *old(state), creation_size),
                ),
            ),
            *final(state) == *old(state),
    {
        let user_tokens = match &context.user_accounts {
            Some(u) => u.pool_tokens,
            None => {
                return Err(PoolError::InvalidArgument);
            },
        };
        if (user_tokens as u128) + (creation_size as u128) > state.max_single_deposit as u128 {
            return Err(PoolError::InvalidArgument);
        }
        let supply = context.pool_token_supply;
        if (user_tokens as u128) + (supply as u128) > state.max_capacity as u128 {
            return Err(PoolError::InvalidArgument);
        }
        let basket = Self::get_creation_basket(context, state, creation_size)?;
        context.check_deposit(&basket)?;
        context.check_mint(creation_size)?;
        context.transfer_basket_from_user(&basket)?;
        context.mint_tokens(creation_size)?;
        Ok(())
    }

    /// Redeems `redemption_size` shares of the user: the fees go to their
    /// beneficiaries, the rest is burned against the redemption basket of the
    /// net size; all of it or nothing.
    fn process_redemption(context: &mut PoolContext, state: &mut PoolState, redemption_size: u64) -> (r:
        Result<(), PoolError>)
        ensures
            settles_as(
                r,
                old(context)@,
                final(context)@,
                redemption_outcome(
                    old(context)@,
                    *old(state),
                    redemption_size,
                    Self::redemption_basket(
                        old(context)@,
                        *old(state),
                        net_redemption(*old(state), redemption_size),
                    ),
                ),
            ),
            *final(state) == *old(state),
    {
        let fees = context.get_fees(state, redemption_size)?;
        let total = fees.total_fee();
        if redemption_size < total {
            return Err(PoolError::ArithmeticOverflow);
        }
        let net = redemption_size - total;
        let basket = Self::get_redemption_basket(context, state, net)?;
        context.check_burn(net, &fees)?;
        context.check_withdraw(&basket)?;
        context.burn_tokens_and_collect_fees(net, &fees)?;
        context.transfer_basket_to_user(&basket)?;
        Ok(())
    }

    /// Exchanges one basket shape for another; the shares outstanding never
    /// change. The shared core delegates to `get_swap_basket` and refuses the
    /// request with the strategy's error. How a priced basket is settled is
    /// the strategy's own rule: without it, a priced request is refused with
    /// `InvalidArgument`. A refused request changes nothing.
    fn process_swap(context: &mut PoolContext, state: &mut PoolState, request: &[u64]) -> (r: Result<
        (),
        PoolError,
    >)
        ensures
            r is Ok ==> final(context)@.supply == old(context)@.supply,
        default_ensures
            Self::swap_basket(old(context)@, *old(state), request@) matches Err(e) ==> r == Err::<
                (),
                PoolError,
            >(e),
            Self::swap_basket(old(context)@, *old(state), request@) is Ok ==> r == Err::<
                (),
                PoolError,
            >(PoolError::InvalidArgument),
            final(context)@ == old(context)@,
            *final(state) == *old(state),
    {
        match Self::get_swap_basket(context, state, request) {
            Err(e) => Err(e),
            Ok(_) => Err(PoolError::InvalidArgument),
        }
    }

    /// Instructions that the shared core does not know; by default none is
    /// accepted.
    fn process_foreign_instruction(
        program_id: &Pubkey,
        accounts: &[AccountInfo],
        instruction_data: &[u8],
    ) -> (r: Result<
        (),
        PoolError,
    >)
        default_ensures
            r == Err::<(), PoolError>(PoolError::InvalidInstructionData),
    {
        Err(PoolError::InvalidInstructionData)
    }
}

/// The strategy that asks and hands out baskets in proportion to the reserves,
/// and prices no swap.
pub struct SimplePool;

impl Pool for SimplePool {
    open spec fn creation_basket(ctx: ContextView, state: PoolState, size: u64) -> Result<
        Seq<u64>,
        PoolError,
    > {
        ctx.simple_basket(size, true)
    }

    open spec fn redemption_basket(ctx: ContextView, state: PoolState, size: u64) -> Result<
        Seq<u64>,
        PoolError,
    > {
        ctx.simple_basket(size, false)
    }

    open spec fn swap_basket(ctx: ContextView, state: PoolState, request: Seq<u64>) -> Result<
        Seq<u64>,
        PoolError,
    > {
        Err(PoolError::InvalidArgument)
    }

    fn get_creation_basket(context: &PoolContext, state: &PoolState, creation_size: u64) -> (r:
        Result<Basket, PoolError>) {
        context.get_simple_basket(creation_size, true)
    }

    fn get_redemption_basket(context: &PoolContext, state: &PoolState, redemption_size: u64) -> (r:
        Result<Basket, PoolError>) {
        context.get_simple_basket(redemption_size, false)
    }

    fn get_swap_basket(context: &PoolContext, state: &PoolState, request: &[u64]) -> (r: Result<
        Basket,
        PoolError,
    >) {
        Err(PoolError::InvalidArgument)
    }
}

/// Conservation on creation: a creation that succeeds with basket `b` moves
/// exactly `b` from the user's asset accounts into the pool's custody and
/// issues exactly `size` new shares to the user; no fee account changes.
pub proof fn lemma_creation_conserves(v: ContextView, state: PoolState, size: u64, b: Seq<u64>)
    requires
        creation_outcome(v, state, size, Ok(b)) is Ok,
    ensures
        ({
            let w = creation_outcome(v, state, size, Ok(b))->Ok_0;
            let u = v.user->Some_0;
            let wu = w.user->Some_0;
            &&& v.user is Some && w.user is Some
            &&& b.len() == v.vault.len() && w.vault.len() == v.vault.len()
            &&& u.assets.len() == b.len() && wu.assets.len() == b.len()
            &&& forall|i: int|
                0 <= i < b.len() ==> w.vault[i] == v.vault[i] + b[i] && wu.assets[i] == u.assets[i]
                    - b[i]
            &&& w.supply == v.supply + size
            &&& wu.pool_tokens == u.pool_tokens + size
            &&& w.pool_fees == v.pool_fees && w.referrer_fees == v.referrer_fees
        }),
{
}

/// Conservation on redemption: a redemption of `size` shares that succeeds
/// with basket `b` takes exactly `size` shares from the user, routes the fee
/// components to their beneficiaries, burns the rest, and moves exactly `b`
/// out of the pool's custody to the user. The basket is the one for the size
/// net of fees.
pub proof fn lemma_redemption_conserves(v: ContextView, state: PoolState, size: u64, b: Seq<u64>)
    requires
        redemption_outcome(v, state, size, Ok(b)) is Ok,
    ensures
        ({
            let w = redemption_outcome(v, state, size, Ok(b))->Ok_0;
            let f = fees_spec(state, size)->Ok_0;
            let u = v.user->Some_0;
            let wu = w.user->Some_0;
            &&& fees_spec(state, size) is Ok && f.total() <= size
            &&& net_redemption(state, size) == size - f.total()
            &&& v.user is Some && w.user is Some
            &&& b.len() == v.vault.len() && w.vault.len() == v.vault.len()
            &&& u.assets.len() == b.len() && wu.assets.len() == b.len()
            &&& forall|i: int|
                0 <= i < b.len() ==> w.vault[i] == v.vault[i] - b[i] && wu.assets[i] == u.assets[i]
                    + b[i]
            &&& wu.pool_tokens == u.pool_tokens - size
            &&& w.supply == v.supply - (size - f.total())
            &&& w.pool_fees == v.pool_fees + f.pool_fee
            &&& w.referrer_fees == v.referrer_fees + f.referrer_fee
        }),
{
}

/// The capacity guard: a creation that would lift the user's share balance
/// above `max_single_deposit` is refused with `InvalidArgument`, whatever the
/// basket.
pub proof fn lemma_capacity_enforced(
    v: ContextView,
    state: PoolState,
    size: u64,
    basket: Result<Seq<u64>, PoolError>,
)
    requires
        v.user is Some,
        v.user->Some_0.pool_tokens + size > state.max_single_deposit,
    ensures
        creation_outcome(v, state, size, basket) == Err::<ContextView, PoolError>(
            PoolError::InvalidArgument,
        ),
{
}

/// A redemption smaller than its fees is refused with `ArithmeticOverflow`,
/// before any shares or assets move, whatever the basket.
pub proof fn lemma_fee_underflow(
    v: ContextView,
    state: PoolState,
    size: u64,
    basket: Result<Seq<u64>, PoolError>,
)
    requires
        fees_spec(state, size) is Ok,
        size < fees_spec(state, size)->Ok_0.total(),
    ensures
        redemption_outcome(v, state, size, basket) == Err::<ContextView, PoolError>(
            PoolError::ArithmeticOverflow,
        ),
{
}

/// Atomicity of creation: where moving the basket in fails, or issuing the
/// shares after it fails, the creation fails with that step's error.
pub proof fn lemma_creation_step_failures(v: ContextView, state: PoolState, size: u64, b: Seq<u64>)
    requires
        capacity_check(v, state, size) is Ok,
    ensures
        v.deposit(b) is Err ==> creation_outcome(v, state, size, Ok(b)) == Err::<
            ContextView,
            PoolError,
        >(v.deposit(b)->Err_0),
        v.deposit(b) is Ok && v.deposit(b)->Ok_0.mint(size) is Err ==> creation_outcome(
            v,
            state,
            size,
            Ok(b),
        ) == Err::<ContextView, PoolError>(v.deposit(b)->Ok_0.mint(size)->Err_0),
{
}

/// Atomicity of redemption: where burning the shares and routing the fees
/// fails, or moving the basket out after it fails, the redemption fails with
/// that step's error.
pub proof fn lemma_redemption_step_failures(v: ContextView, state: PoolState, size: u64, b: Seq<u64>)
    requires
        fees_spec(state, size) is Ok,
        fees_spec(state, size)->Ok_0.total() <= size,
    ensures
        ({
            let f = fees_spec(state, size)->Ok_0;
            let burn = v.burn_and_collect((size - f.total()) as u64, f);
            &&& burn is Err ==> redemption_outcome(v, state, size, Ok(b)) == Err::<
                ContextView,
                PoolError,
            >(burn->Err_0)
            &&& burn is Ok && burn->Ok_0.withdraw(b) is Err ==> redemption_outcome(
                v,
                state,
                size,
                Ok(b),
            ) == Err::<ContextView, PoolError>(burn->Ok_0.withdraw(b)->Err_0)
        }),
{
}

/// An operation that settles as a failed step leaves every balance and the
/// share supply as they were.
pub proof fn lemma_failure_changes_nothing(
    r: Result<(), PoolError>,
    before: ContextView,
    after: ContextView,
    step: Result<ContextView, PoolError>,
)
    requires
        settles_as(r, before, after, step),
        r is Err,
    ensures
        after == before,
        step is Err,
{
}

} // verus!
