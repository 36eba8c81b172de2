//! The execution context of one operation: the share supply, the pool's
//! custody of each asset, the requesting user's accounts, and the movements
//! between them. Each movement either happens whole or leaves the context
//! as it was.
use crate::basket::{simple_basket, simple_basket_spec, basket_result_view, Basket};
use crate::error::PoolError;
use crate::state::{compute_fees, fees_spec, Fees, PoolState};
use crate::token::{le_value, mint_readable, token_account_readable, unpack_mint_supply, unpack_token_account_amount, MINT_LEN, TOKEN_ACCOUNT_LEN};
use vstd::prelude::*;

verus! {

/// The requesting user's accounts.
#[derive(Clone, Debug, PartialEq, Eq)]
pub struct UserAccounts {
    /// The user's balance of pool shares.
    pub pool_tokens: u64,
    /// The user's balance of each asset, in the order of the pool's asset list.
    pub assets: Vec<u64>,
}

pub struct UserView {
    pub pool_tokens: u64,
    pub assets: Seq<u64>,
}

impl View for UserAccounts {
    type V = UserView;

    open spec fn view(&self) -> UserView {
        UserView { pool_tokens: self.pool_tokens, assets: self.assets@ }
    }
}

/// The balances that one operation reads and moves.
#[derive(Clone, Debug, PartialEq, Eq)]
pub struct PoolContext {
    /// Pool shares outstanding.
    pub pool_token_supply: u64,
    /// The pool's custody of each asset: its reserves.
    pub vault: Vec<u64>,
    /// The accounts of the user who made the request, where they were supplied.
    pub user_accounts: Option<UserAccounts>,
    /// Shares routed to the pool's owner as fees.
    pub pool_fees_collected: u64,
    /// Shares routed to the referrer as fees.
    pub referrer_fees_collected: u64,
}

pub struct ContextView {
    pub supply: u64,
    pub vault: Seq<u64>,
    pub user: Option<UserView>,
    pub pool_fees: u64,
    pub referrer_fees: u64,
}

impl View for PoolContext {
    type V = ContextView;

    open spec fn view(&self) -> ContextView {
        ContextView {
            supply: self.pool_token_supply,
            vault: self.vault@,
            user: match self.user_accounts {
                Some(u) => Some(u@),
                None => None,
            },
            pool_fees: self.pool_fees_collected,
            referrer_fees: self.referrer_fees_collected,
        }
    }
}

/// `a` with `b` added to each entry.
pub open spec fn add_each(a: Seq<u64>, b: Seq<u64>) -> Seq<u64> {
    Seq::new(a.len(), |i: int| (a[i] + b[i]) as u64)
}

/// `a` with `b` taken from each entry.
pub open spec fn sub_each(a: Seq<u64>, b: Seq<u64>) -> Seq<u64> {
    Seq::new(a.len(), |i: int| (a[i] - b[i]) as u64)
}

/// Why moving `b` out of `from` into `to` fails, if it does.
pub open spec fn move_check(from: Seq<u64>, to: Seq<u64>, b: Seq<u64>) -> Result<(), PoolError> {
    if b.len() != to.len() || from.len() != to.len() {
        Err(PoolError::InvalidArgument)
    } else if exists|i: int| 0 <= i < b.len() && from[i] < b[i] {
        Err(PoolError::InsufficientFunds)
    } else if exists|i: int| 0 <= i < b.len() && to[i] + b[i] > u64::MAX {
        Err(PoolError::ArithmeticOverflow)
    } else {
        Ok(())
    }
}

impl ContextView {
    /// The proportional basket for `size` shares against this context's
    /// reserves and supply.
    pub open spec fn simple_basket(self, size: u64, is_creation: bool) -> Result<Seq<u64>, PoolError> {
        simple_basket_spec(self.vault, self.supply, size, is_creation)
    }

    /// The context after the user's assets `b` move into the pool's custody.
    pub open spec fn deposit(self, b: Seq<u64>) -> Result<ContextView, PoolError> {
        match self.user {
            None => Err(PoolError::InvalidArgument),
            Some(u) => match move_check(u.assets, self.vault, b) {
                Err(e) => Err(e),
                Ok(_) => Ok(
                    ContextView {
                        vault: add_each(self.vault, b),
                        user: Some(UserView { assets: sub_each(u.assets, b), ..u }),
                        ..self
                    },
                ),
            },
        }
    }

    /// The context after the pool's custody hands assets `b` to the user.
    pub open spec fn withdraw(self, b: Seq<u64>) -> Result<ContextView, PoolError> {
        match self.user {
            None => Err(PoolError::InvalidArgument),
            Some(u) => match move_check(self.vault, u.assets, b) {
                Err(e) => Err(e),
                Ok(_) => Ok(
                    ContextView {
                        vault: sub_each(self.vault, b),
                        user: Some(UserView { assets: add_each(u.assets, b), ..u }),
                        ..self
                    },
                ),
            },
        }
    }

    /// The context after `amount` new shares are issued to the user.
    pub open spec fn mint(self, amount: u64) -> Result<ContextView, PoolError> {
        match self.user {
            None => Err(PoolError::InvalidArgument),
            Some(u) => if self.supply + amount > u64::MAX || u.pool_tokens + amount > u64::MAX {
                Err(PoolError::ArithmeticOverflow)
            } else {
                Ok(
                    ContextView {
                        supply: (self.supply + amount) as u64,
                        user: Some(UserView { pool_tokens: (u.pool_tokens + amount) as u64, ..u }),
                        ..self
                    },
                )
            },
        }
    }

    /// The context after the user gives up `burned + fees.total()` shares:
    /// `burned` leave the supply, the fee components go to their beneficiaries.
    pub open spec fn burn_and_collect(self, burned: u64, fees: Fees) -> Result<ContextView, PoolError> {
        match self.user {
            None => Err(PoolError::InvalidArgument),
            Some(u) => if u.pool_tokens < burned + fees.total() {
                Err(PoolError::InsufficientFunds)
            } else if self.supply < burned || self.pool_fees + fees.pool_fee > u64::MAX
                || self.referrer_fees + fees.referrer_fee > u64::MAX {
                Err(PoolError::ArithmeticOverflow)
            } else {
                Ok(
                    ContextView {
                        supply: (self.supply - burned) as u64,
                        user: Some(
                            UserView { pool_tokens: (u.pool_tokens - burned - fees.total()) as u64, ..u },
                        ),
                        pool_fees: (self.pool_fees + fees.pool_fee) as u64,
                        referrer_fees: (self.referrer_fees + fees.referrer_fee) as u64,
                        ..self
                    },
                )
            },
        }
    }
}

/// What a step's outcome says of success: which error, if any.
pub open spec fn status(step: Result<ContextView, PoolError>) -> Result<(), PoolError> {
    match step {
        Ok(_) => Ok(()),
        Err(e) => Err(e),
    }
}

/// A call that returned `r` and left `after` carried out `step` from `before`:
/// the step's result on success, and no change with the step's error otherwise.
pub open spec fn settles_as(
    r: Result<(), PoolError>,
    before: ContextView,
    after: ContextView,
    step: Result<ContextView, PoolError>,
) -> bool {
    match step {
        Ok(v) => r is Ok && after == v,
        Err(e) => r == Err::<(), PoolError>(e) && after == before,
    }
}

impl UserAccounts {
    /// The user's accounts, with the share balance read from a packed token
    /// account.
    pub fn load(token_account: &[u8], assets: Vec<u64>) -> (r: Result<UserAccounts, PoolError>)
        ensures
            token_account@.len() != TOKEN_ACCOUNT_LEN ==> r == Err::<UserAccounts, PoolError>(
                PoolError::InvalidAccountData,
            ),
            r is Ok <==> token_account_readable(token_account@),
            r is Err ==> r == Err::<UserAccounts, PoolError>(PoolError::InvalidAccountData),
            r matches Ok(u) ==> u.pool_tokens as nat == le_value(token_account@.subrange(64, 72))
                && u.assets@ == assets@,
    {
        match unpack_token_account_amount(token_account) {
            Ok(amount) => Ok(UserAccounts { pool_tokens: amount, assets }),
            Err(_) => Err(PoolError::InvalidAccountData),
        }
    }
}

impl PoolContext {
    /// A context whose share supply is read from a packed mint, with no fees
    /// collected yet.
    pub fn load(pool_token_mint: &[u8], vault: Vec<u64>, user_accounts: Option<UserAccounts>) -> (r:
        Result<PoolContext, PoolError>)
        ensures
            pool_token_mint@.len() != MINT_LEN ==> r == Err::<PoolContext, PoolError>(
                PoolError::InvalidAccountData,
            ),
            r is Ok <==> mint_readable(pool_token_mint@),
            r is Err ==> r == Err::<PoolContext, PoolError>(PoolError::InvalidAccountData),
            r matches Ok(c) ==> c.pool_token_supply as nat == le_value(
                pool_token_mint@.subrange(36, 44),
            ) && c.vault@ == vault@ && c.user_accounts == user_accounts && c.pool_fees_collected
                == 0 && c.referrer_fees_collected == 0,
    {
        match unpack_mint_supply(pool_token_mint) {
            Ok(supply) => Ok(
                PoolContext {
                    pool_token_supply: supply,
                    vault,
                    user_accounts,
                    pool_fees_collected: 0,
                    referrer_fees_collected: 0,
                },
            ),
            Err(_) => Err(PoolError::InvalidAccountData),
        }
    }

    /// The proportional basket for `size` shares: rounded up for a creation,
    /// down for a redemption.
    pub fn get_simple_basket(&self, size: u64, is_creation: bool) -> (r: Result<Basket, PoolError>)
        ensures
            basket_result_view(r) == self@.simple_basket(size, is_creation),
    {
        simple_basket(&self.vault, self.pool_token_supply, size, is_creation)
    }

    /// The fees owed on a redemption of `size` shares.
    pub fn get_fees(&self, state: &PoolState, size: u64) -> (r: Result<Fees, PoolError>)
        ensures
            r == fees_spec(*state, size),
    {
        compute_fees(state, size)
    }

    /// Whether `transfer_basket_from_user` would succeed, and if not why.
    pub fn check_deposit(&self, basket: &Basket) -> (r: Result<(), PoolError>)
        ensures
            r == status(self@.deposit(basket@)),
    {
        match &self.user_accounts {
            None => Err(PoolError::InvalidArgument),
            Some(u) => check_move(&u.assets, &self.vault, &basket.quantities),
        }
    }

    /// Whether `transfer_basket_to_user` would succeed, and if not why.
    pub fn check_withdraw(&self, basket: &Basket) -> (r: Result<(), PoolError>)
        ensures
            r == status(self@.withdraw(basket@)),
    {
        match &self.user_accounts {
            None => Err(PoolError::InvalidArgument),
            Some(u) => check_move(&self.vault, &u.assets, &basket.quantities),
        }
    }

    /// Whether `mint_tokens` would succeed, and if not why.
    pub fn check_mint(&self, amount: u64) -> (r: Result<(), PoolError>)
        ensures
            r == status(self@.mint(amount)),
    {
        match &self.user_accounts {
            None => Err(PoolError::InvalidArgument),
            Some(u) => if self.pool_token_supply > u64::MAX - amount || u.pool_tokens > u64::MAX
                - amount {
                Err(PoolError::ArithmeticOverflow)
            } else {
                Ok(())
            },
        }
    }

    /// Whether `burn_tokens_and_collect_fees` would succeed, and if not why.
    pub fn check_burn(&self, burned: u64, fees: &Fees) -> (r: Result<(), PoolError>)
        ensures
            r == status(self@.burn_and_collect(burned, *fees)),
    {
        match &self.user_accounts {
            None => Err(PoolError::InvalidArgument),
            Some(u) => if (u.pool_tokens as u128) < (burned as u128) + (fees.pool_fee as u128)
                + (fees.referrer_fee as u128) {
                Err(PoolError::InsufficientFunds)
            } else if self.pool_token_supply < burned || self.pool_fees_collected > u64::MAX
                - fees.pool_fee || self.referrer_fees_collected > u64::MAX - fees.referrer_fee {
                Err(PoolError::ArithmeticOverflow)
            } else {
                Ok(())
            },
        }
    }

    /// Moves `basket` from the user's asset accounts into the pool's custody.
    pub fn transfer_basket_from_user(&mut self, basket: &Basket) -> (r: Result<(), PoolError>)
        ensures
            settles_as(r, old(self)@, final(self)@, old(self)@.deposit(basket@)),
    {
        let c = self.check_deposit(basket);
        if let Err(e) = c {
            return Err(e);
        }
        match &mut self.user_accounts {
            Some(u) => {
                sub_from(&mut u.assets, &basket.quantities);
            },
            None => {},
        }
        add_into(&mut self.vault, &basket.quantities);
        Ok(())
    }

    /// Moves `basket` from the pool's custody to the user's asset accounts.
    pub fn transfer_basket_to_user(&mut self, basket: &Basket) -> (r: Result<(), PoolError>)
        ensures
            settles_as(r, old(self)@, final(self)@, old(self)@.withdraw(basket@)),
    {
        let c = self.check_withdraw(basket);
        if let Err(e) = c {
            return Err(e);
        }
        match &mut self.user_accounts {
            Some(u) => {
                add_into(&mut u.assets, &basket.quantities);
            },
            None => {},
        }
        sub_from(&mut self.vault, &basket.quantities);
        Ok(())
    }

    /// Issues `amount` new shares to the user.
    pub fn mint_tokens(&mut self, amount: u64) -> (r: Result<(), PoolError>)
        ensures
            settles_as(r, old(self)@, final(self)@, old(self)@.mint(amount)),
    {
        let c = self.check_mint(amount);
        if let Err(e) = c {
            return Err(e);
        }
        match &mut self.user_accounts {
            Some(u) => {
                u.pool_tokens = u.pool_tokens + amount;
            },
            None => {},
        }
        self.pool_token_supply = self.pool_token_supply + amount;
        Ok(())
    }

    /// Takes `burned` plus the fees from the user's shares: `burned` leave the
    /// supply, each fee component goes to its beneficiary.
    pub fn burn_tokens_and_collect_fees(&mut self, burned: u64, fees: &Fees) -> (r: Result<(), PoolError>)
        ensures
            settles_as(r, old(self)@, final(self)@, old(self)@.burn_and_collect(burned, *fees)),
    {
        let c = self.check_burn(burned, fees);
        if let Err(e) = c {
            return Err(e);
        }
        match &mut self.user_accounts {
            Some(u) => {
                u.pool_tokens = u.pool_tokens - burned - fees.pool_fee - fees.referrer_fee;
            },
            None => {},
        }
        self.pool_token_supply = self.pool_token_supply - burned;
        self.pool_fees_collected = self.pool_fees_collected + fees.pool_fee;
        self.referrer_fees_collected = self.referrer_fees_collected + fees.referrer_fee;
        Ok(())
    }
}

fn check_move(from: &Vec<u64>, to: &Vec<u64>, b: &Vec<u64>) -> (r: Result<(), PoolError>)
    ensures
        r == move_check(from@, to@, b@),
{
    if b.len() != to.len() || from.len() != to.len() {
        return Err(PoolError::InvalidArgument);
    }
    let mut i: usize = 0;
    while i < b.len()
        invariant
            0 <= i <= b.len(),
            b@.len() == from@.len(),
            b@.len() == to@.len(),
            forall|j: int| 0 <= j < i ==> from@[j] >= b@[j],
        decreases b.len() - i,
    {
        if from[i] < b[i] {
            assert(from@[i as int] < b@[i as int]);
            return Err(PoolError::InsufficientFunds);
        }
        i += 1;
    }
    let mut i: usize = 0;
    while i < b.len()
        invariant
            0 <= i <= b.len(),
            b@.len() == to@.len(),
            b@.len() == from@.len(),
            forall|j: int| 0 <= j < b@.len() ==> from@[j] >= b@[j],
            forall|j: int| 0 <= j < i ==> to@[j] + b@[j] <= u64::MAX,
        decreases b.len() - i,
    {
        if to[i] > u64::MAX - b[i] {
            assert(to@[i as int] + b@[i as int] > u64::MAX);
            return Err(PoolError::ArithmeticOverflow);
        }
        i += 1;
    }
    Ok(())
}

fn add_into(a: &mut Vec<u64>, b: &Vec<u64>)
    requires
        old(a)@.len() == b@.len(),
        forall|j: int| 0 <= j < b@.len() ==> old(a)@[j] + b@[j] <= u64::MAX,
    ensures
        final(a)@ == add_each(old(a)@, b@),
{
    let mut i: usize = 0;
    while i < b.len()
        invariant
            0 <= i <= b.len(),
            a@.len() == b@.len(),
            forall|j: int| 0 <= j < b@.len() ==> old(a)@[j] + b@[j] <= u64::MAX,
            forall|j: int| 0 <= j < i ==> a@[j] == old(a)@[j] + b@[j],
            forall|j: int| i <= j < b@.len() ==> a@[j] == old(a)@[j],
        decreases b.len() - i,
    {
        let v = a[i] + b[i];
        a.set(i, v);
        i += 1;
    }
    assert(a@ =~= add_each(old(a)@, b@));
}

fn sub_from(a: &mut Vec<u64>, b: &Vec<u64>)
    requires
        old(a)@.len() == b@.len(),
        forall|j: int| 0 <= j < b@.len() ==> old(a)@[j] >= b@[j],
    ensures
        final(a)@ == sub_each(old(a)@, b@),
{
    let mut i: usize = 0;
    while i < b.len()
        invariant
            0 <= i <= b.len(),
            a@.len() == b@.len(),
            forall|j: int| 0 <= j < b@.len() ==> old(a)@[j] >= b@[j],
            forall|j: int| 0 <= j < i ==> a@[j] == old(a)@[j] - b@[j],
            forall|j: int| i <= j < b@.len() ==> a@[j] == old(a)@[j],
        decreases b.len() - i,
    {
        let v = a[i] - b[i];
        a.set(i, v);
        i += 1;
    }
    assert(a@ =~= sub_each(old(a)@, b@));
}

} // verus!
