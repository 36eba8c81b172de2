use serum_pool::basket::{simple_basket, Basket};
use serum_pool::context::{PoolContext, UserAccounts};
use serum_pool::error::PoolError;
use serum_pool::pool::{Pool, SimplePool};
use serum_pool::state::{compute_fees, Fees, PoolState};
use solana_program::pubkey::Pubkey;

fn state(max_single_deposit: u64, max_capacity: u64) -> PoolState {
    PoolState {
        max_single_deposit,
        max_capacity,
        pool_fee_rate: 0,
        referrer_fee_rate: 0,
    }
}

fn context(supply: u64, vault: Vec<u64>, pool_tokens: u64, assets: Vec<u64>) -> PoolContext {
    PoolContext {
        pool_token_supply: supply,
        vault,
        user_accounts: Some(UserAccounts { pool_tokens, assets }),
        pool_fees_collected: 0,
        referrer_fees_collected: 0,
    }
}

fn user(ctx: &PoolContext) -> &UserAccounts {
    ctx.user_accounts.as_ref().unwrap()
}

fn packed_token_account(amount: u64, state_byte: u8) -> Vec<u8> {
    let mut data = vec![0u8; 165];
    data[64..72].copy_from_slice(&amount.to_le_bytes());
    data[108] = state_byte;
    data
}

fn packed_mint(supply: u64, initialized: u8) -> Vec<u8> {
    let mut data = vec![0u8; 82];
    data[36..44].copy_from_slice(&supply.to_le_bytes());
    data[45] = initialized;
    data
}

#[test]
fn creation_scenario_ceiling_basket() {
    let mut ctx = context(1000, vec![1000, 2000], 0, vec![5000, 5000]);
    let mut st = state(1000, 1_000_000);
    let basket = SimplePool::get_creation_basket(&ctx, &st, 500).unwrap();
    assert_eq!(basket.quantities, vec![500, 1000]);
    assert_eq!(SimplePool::process_creation(&mut ctx, &mut st, 500), Ok(()));
    assert_eq!(user(&ctx).pool_tokens, 500);
    assert_eq!(user(&ctx).assets, vec![4500, 4000]);
    assert_eq!(ctx.vault, vec![1500, 3000]);
    assert_eq!(ctx.pool_token_supply, 1500);
    assert_eq!(st, state(1000, 1_000_000));
}

#[test]
fn redemption_scenario_net_of_fees() {
    let mut ctx = context(1000, vec![1000, 2000], 600, vec![0, 0]);
    let mut st = PoolState {
        max_single_deposit: 1000,
        max_capacity: 1_000_000,
        pool_fee_rate: 6000,
        referrer_fee_rate: 4000,
    };
    let fees = ctx.get_fees(&st, 500).unwrap();
    assert_eq!(fees, Fees { pool_fee: 3, referrer_fee: 2 });
    assert_eq!(fees.total_fee(), 5);
    let basket = SimplePool::get_redemption_basket(&ctx, &st, 495).unwrap();
    assert_eq!(basket.quantities, vec![495, 990]);
    assert_eq!(SimplePool::process_redemption(&mut ctx, &mut st, 500), Ok(()));
    assert_eq!(user(&ctx).pool_tokens, 100);
    assert_eq!(user(&ctx).assets, vec![495, 990]);
    assert_eq!(ctx.vault, vec![505, 1010]);
    assert_eq!(ctx.pool_token_supply, 505);
    assert_eq!(ctx.pool_fees_collected + ctx.referrer_fees_collected, 5);
    assert_eq!(ctx.pool_fees_collected, 3);
    assert_eq!(ctx.referrer_fees_collected, 2);
}

#[test]
fn rounding_up_for_creation_down_for_redemption() {
    let reserves = vec![10, 7, 0];
    let up = simple_basket(&reserves, 3, 1, true).unwrap();
    let down = simple_basket(&reserves, 3, 1, false).unwrap();
    assert_eq!(up.quantities, vec![4, 3, 0]);
    assert_eq!(down.quantities, vec![3, 2, 0]);
}

#[test]
fn basket_without_outstanding_shares_is_refused() {
    assert_eq!(simple_basket(&vec![10], 0, 1, true), Err(PoolError::InvalidArgument));
}

#[test]
fn basket_quantity_overflow_is_refused() {
    assert_eq!(
        simple_basket(&vec![u64::MAX, 1], 1, 2, false),
        Err(PoolError::ArithmeticOverflow)
    );
    let big = simple_basket(&vec![u64::MAX], u64::MAX, u64::MAX, true).unwrap();
    assert_eq!(big.quantities, vec![u64::MAX]);
}

#[test]
fn empty_pool_basket_is_empty() {
    let b = simple_basket(&Vec::new(), 5, 7, true).unwrap();
    assert_eq!(b, Basket { quantities: Vec::new() });
}

#[test]
fn per_user_cap_refuses_and_changes_nothing() {
    let mut ctx = context(1000, vec![1000, 2000], 600, vec![5000, 5000]);
    let before = ctx.clone();
    let mut st = state(1000, 1_000_000);
    assert_eq!(
        SimplePool::process_creation(&mut ctx, &mut st, 401),
        Err(PoolError::InvalidArgument)
    );
    assert_eq!(ctx, before);
    assert_eq!(SimplePool::process_creation(&mut ctx, &mut st, 400), Ok(()));
    assert_eq!(user(&ctx).pool_tokens, 1000);
}

#[test]
fn pool_cap_compares_user_balance_plus_supply() {
    // The guard adds the user's balance, not the requested size, to the supply.
    let mut st = state(10_000, 1100);
    let mut ctx = context(1000, vec![1000], 100, vec![5000]);
    assert_eq!(SimplePool::process_creation(&mut ctx, &mut st, 500), Ok(()));
    assert_eq!(ctx.pool_token_supply, 1500);
    let mut ctx = context(1000, vec![1000], 101, vec![5000]);
    let before = ctx.clone();
    assert_eq!(
        SimplePool::process_creation(&mut ctx, &mut st, 1),
        Err(PoolError::InvalidArgument)
    );
    assert_eq!(ctx, before);
}

#[test]
fn creation_without_user_accounts_is_refused() {
    let mut ctx = context(1000, vec![1000], 0, vec![0]);
    ctx.user_accounts = None;
    let mut st = state(1000, 1_000_000);
    assert_eq!(
        SimplePool::process_creation(&mut ctx, &mut st, 1),
        Err(PoolError::InvalidArgument)
    );
    assert_eq!(
        SimplePool::process_redemption(&mut ctx, &mut st, 1),
        Err(PoolError::InvalidArgument)
    );
}

#[test]
fn fee_above_size_fails_before_any_movement() {
    let mut ctx = context(1000, vec![1000], 600, vec![0]);
    let before = ctx.clone();
    let mut st = PoolState {
        max_single_deposit: 1000,
        max_capacity: 1_000_000,
        pool_fee_rate: 1_500_000,
        referrer_fee_rate: 0,
    };
    assert_eq!(
        SimplePool::process_redemption(&mut ctx, &mut st, 10),
        Err(PoolError::ArithmeticOverflow)
    );
    assert_eq!(ctx, before);
}

#[test]
fn fee_overflow_is_refused() {
    let st = PoolState {
        max_single_deposit: 0,
        max_capacity: 0,
        pool_fee_rate: u64::MAX,
        referrer_fee_rate: 0,
    };
    assert_eq!(compute_fees(&st, u64::MAX), Err(PoolError::ArithmeticOverflow));
}

#[test]
fn default_swap_is_refused() {
    let mut ctx = context(1000, vec![1000, 2000], 0, vec![5000, 5000]);
    let before = ctx.clone();
    let mut st = state(1000, 1_000_000);
    assert_eq!(
        SimplePool::process_swap(&mut ctx, &mut st, &[]),
        Err(PoolError::InvalidArgument)
    );
    assert_eq!(
        SimplePool::process_swap(&mut ctx, &mut st, &[1, 2]),
        Err(PoolError::InvalidArgument)
    );
    assert_eq!(
        SimplePool::get_swap_basket(&ctx, &st, &[1, 2]),
        Err(PoolError::InvalidArgument)
    );
    assert_eq!(ctx, before);
}

#[test]
fn failed_transfer_in_leaves_everything() {
    let mut ctx = context(1000, vec![1000, 2000], 0, vec![500, 999]);
    let before = ctx.clone();
    let mut st = state(1000, 1_000_000);
    assert_eq!(
        SimplePool::process_creation(&mut ctx, &mut st, 500),
        Err(PoolError::InsufficientFunds)
    );
    assert_eq!(ctx, before);
}

#[test]
fn failed_mint_after_transfer_leaves_everything() {
    let mut ctx = context(u64::MAX - 1, vec![1, 1], 0, vec![10, 10]);
    let before = ctx.clone();
    let mut st = state(1000, u64::MAX);
    assert_eq!(
        SimplePool::process_creation(&mut ctx, &mut st, 2),
        Err(PoolError::ArithmeticOverflow)
    );
    assert_eq!(ctx, before);
}

#[test]
fn failed_burn_leaves_everything() {
    let mut ctx = context(1000, vec![1000], 10, vec![0]);
    let before = ctx.clone();
    let mut st = state(1000, 1_000_000);
    assert_eq!(
        SimplePool::process_redemption(&mut ctx, &mut st, 11),
        Err(PoolError::InsufficientFunds)
    );
    assert_eq!(ctx, before);
}

#[test]
fn failed_transfer_out_leaves_everything() {
    let mut ctx = context(1000, vec![1000, 2000], 600, vec![0, u64::MAX]);
    let before = ctx.clone();
    let mut st = state(1000, 1_000_000);
    assert_eq!(
        SimplePool::process_redemption(&mut ctx, &mut st, 500),
        Err(PoolError::ArithmeticOverflow)
    );
    assert_eq!(ctx, before);
}

#[test]
fn basket_of_wrong_shape_is_refused() {
    let mut ctx = context(1000, vec![1000, 2000], 0, vec![5000]);
    let before = ctx.clone();
    assert_eq!(
        ctx.transfer_basket_from_user(&Basket { quantities: vec![1, 1] }),
        Err(PoolError::InvalidArgument)
    );
    assert_eq!(ctx, before);
}

#[test]
fn primitives_move_exact_amounts() {
    let mut ctx = context(100, vec![10, 20], 50, vec![7, 8]);
    assert_eq!(ctx.transfer_basket_from_user(&Basket { quantities: vec![7, 1] }), Ok(()));
    assert_eq!(ctx.vault, vec![17, 21]);
    assert_eq!(user(&ctx).assets, vec![0, 7]);
    assert_eq!(ctx.transfer_basket_to_user(&Basket { quantities: vec![17, 0] }), Ok(()));
    assert_eq!(ctx.vault, vec![0, 21]);
    assert_eq!(user(&ctx).assets, vec![17, 7]);
    assert_eq!(ctx.mint_tokens(5), Ok(()));
    assert_eq!((ctx.pool_token_supply, user(&ctx).pool_tokens), (105, 55));
    let fees = Fees { pool_fee: 1, referrer_fee: 2 };
    assert_eq!(ctx.burn_tokens_and_collect_fees(10, &fees), Ok(()));
    assert_eq!((ctx.pool_token_supply, user(&ctx).pool_tokens), (95, 42));
    assert_eq!((ctx.pool_fees_collected, ctx.referrer_fees_collected), (1, 2));
}

#[test]
fn user_accounts_read_from_token_account() {
    let data = packed_token_account(0x0102_0304_0506_0708, 1);
    let u = UserAccounts::load(&data, vec![3, 4]).unwrap();
    assert_eq!(u.pool_tokens, 0x0102_0304_0506_0708);
    assert_eq!(u.assets, vec![3, 4]);
    let frozen = UserAccounts::load(&packed_token_account(9, 2), Vec::new()).unwrap();
    assert_eq!(frozen.pool_tokens, 9);
}

#[test]
fn unreadable_token_account_is_refused() {
    assert_eq!(
        UserAccounts::load(&packed_token_account(5, 0), Vec::new()),
        Err(PoolError::InvalidAccountData)
    );
    assert_eq!(
        UserAccounts::load(&vec![0u8; 164], Vec::new()),
        Err(PoolError::InvalidAccountData)
    );
}

#[test]
fn context_supply_read_from_mint() {
    let ctx = PoolContext::load(&packed_mint(1234, 1), vec![1, 2], None).unwrap();
    assert_eq!(ctx.pool_token_supply, 1234);
    assert_eq!(ctx.vault, vec![1, 2]);
    assert_eq!(ctx.user_accounts, None);
    assert_eq!(
        PoolContext::load(&packed_mint(1234, 0), vec![1, 2], None),
        Err(PoolError::InvalidAccountData)
    );
    assert_eq!(
        PoolContext::load(&vec![0u8; 83], Vec::new(), None),
        Err(PoolError::InvalidAccountData)
    );
}

#[test]
fn loaded_context_runs_a_creation() {
    let user = UserAccounts::load(&packed_token_account(0, 1), vec![5000, 5000]).unwrap();
    let mut ctx = PoolContext::load(&packed_mint(1000, 1), vec![1000, 2000], Some(user)).unwrap();
    let mut st = state(1000, 1_000_000);
    assert_eq!(SimplePool::process_creation(&mut ctx, &mut st, 500), Ok(()));
    assert_eq!(ctx.user_accounts.unwrap().pool_tokens, 500);
}

#[test]
fn default_initialize_and_foreign_instruction() {
    let ctx = context(0, Vec::new(), 0, Vec::new());
    let mut st = state(1, 2);
    assert_eq!(SimplePool::initialize_pool(&ctx, &mut st), Ok(()));
    assert_eq!(st, state(1, 2));
    let id = Pubkey::new_from_array([7u8; 32]);
    assert_eq!(
        SimplePool::process_foreign_instruction(&id, &[], &[1, 2, 3]),
        Err(PoolError::InvalidInstructionData)
    );
}

#[test]
fn malformed_option_tags_are_refused() {
    let mut account = packed_token_account(5, 1);
    account[72] = 2;
    assert_eq!(
        UserAccounts::load(&account, Vec::new()),
        Err(PoolError::InvalidAccountData)
    );
    let mut account = packed_token_account(5, 1);
    account[129] = 1;
    assert_eq!(UserAccounts::load(&account, Vec::new()).unwrap().pool_tokens, 5);
    let mut mint = packed_mint(7, 1);
    mint[47] = 1;
    assert_eq!(
        PoolContext::load(&mint, Vec::new(), None),
        Err(PoolError::InvalidAccountData)
    );
    let mut mint = packed_mint(7, 1);
    mint[0] = 1;
    assert_eq!(PoolContext::load(&mint, Vec::new(), None).unwrap().pool_token_supply, 7);
}
