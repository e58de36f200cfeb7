use anchor_lang::solana_program::program_error::ProgramError;
use nft_programs::address::Address;
use nft_programs::staking::{
    stake, unstake, CustomError, NFTStakingError, Stake, StakeAccount, StakeBumps, StakeConfig, StakingError, Unstake,
    UserAccount, SECONDS_PER_DAY,
};

fn addr(b: u8) -> Address {
    [b; 32]
}

fn config() -> StakeConfig {
    StakeConfig { points_per_stake: 10, max_stake: 2, freeze_period: 3, bump: 250 }
}

fn stake_accounts(amount_staked: u8) -> Stake {
    Stake {
        user: addr(1),
        nft_mint: addr(2),
        collection_mint: addr(3),
        user_nft_ata: addr(4),
        metadata: addr(5),
        edition: addr(6),
        stake_config_key: addr(7),
        stake_config: config(),
        stake_account_key: addr(8),
        stake_account: StakeAccount { owner: addr(0), mint: addr(0), staked_at: 0, bump: 0 },
        user_account_key: addr(9),
        user_account: UserAccount { points: 40, amount_staked, bump: 251 },
    }
}

fn unstake_accounts(s: &Stake) -> Unstake {
    Unstake {
        user: s.user,
        nft_mint: s.nft_mint,
        user_nft_ata: s.user_nft_ata,
        collection_mint: s.collection_mint,
        edition: s.edition,
        stake_config_key: s.stake_config_key,
        stake_config: s.stake_config,
        stake_account_key: s.stake_account_key,
        stake_account: s.stake_account,
        user_account_key: s.user_account_key,
        user_account: s.user_account,
    }
}

fn stake_seed_bytes(mint: &Address, config: &Address, bump: u8) -> Vec<Vec<u8>> {
    vec![b"stake".to_vec(), mint.to_vec(), config.to_vec(), vec![bump]]
}

const BUMPS: StakeBumps = StakeBumps { metadata: 253, edition: 252, stake_account: 249 };

#[test]
fn stake_writes_record_and_counts() {
    let mut s = stake_accounts(0);
    let a = s.stake_at(&BUMPS, 1_000_000).unwrap();
    assert_eq!(s.stake_account, StakeAccount { owner: addr(1), mint: addr(2), staked_at: 1_000_000, bump: 249 });
    assert_eq!(s.user_account.amount_staked, 1);
    assert_eq!(s.user_account.points, 40);
    assert_eq!(a.approval.to, addr(4));
    assert_eq!(a.approval.delegate, addr(8));
    assert_eq!(a.approval.authority, addr(1));
    assert_eq!(a.approval.amount, 1);
    assert_eq!(a.freeze.delegate, addr(8));
    assert_eq!(a.freeze.token_account, addr(4));
    assert_eq!(a.freeze.edition, addr(6));
    assert_eq!(a.freeze.mint, addr(2));
    assert_eq!(a.freeze.signer_seeds, stake_seed_bytes(&addr(2), &addr(7), 249));
}

#[test]
fn stake_at_maximum_is_refused() {
    let mut s = stake_accounts(2);
    let before = s;
    assert_eq!(
        s.stake_at(&BUMPS, 5),
        Err(StakingError::Staking(NFTStakingError::MaxStakeReachedError))
    );
    assert_eq!(s, before);
    assert_eq!(
        stake(&mut s, &BUMPS),
        Err(StakingError::Staking(NFTStakingError::MaxStakeReachedError))
    );
    assert_eq!(s, before);
}

#[test]
fn stake_up_to_the_maximum() {
    let mut s = stake_accounts(0);
    assert!(s.stake_at(&BUMPS, 10).is_ok());
    assert!(s.stake_at(&BUMPS, 20).is_ok());
    assert_eq!(s.user_account.amount_staked, 2);
    assert!(s.stake_at(&BUMPS, 30).is_err());
    assert_eq!(s.user_account.amount_staked, 2);
}

#[test]
fn stake_without_a_clock_is_refused() {
    let mut s = stake_accounts(0);
    let before = s;
    assert_eq!(stake(&mut s, &BUMPS), Err(StakingError::Sysvar(ProgramError::UnsupportedSysvar)));
    assert_eq!(s, before);
}

#[test]
fn unstake_without_a_clock_is_refused() {
    let mut s = stake_accounts(0);
    s.stake_at(&BUMPS, 0).unwrap();
    let mut u = unstake_accounts(&s);
    let before = u;
    assert_eq!(unstake(&mut u), Err(StakingError::Sysvar(ProgramError::UnsupportedSysvar)));
    assert_eq!(u, before);
}

#[test]
fn unstake_within_freeze_period_is_refused() {
    let mut s = stake_accounts(0);
    s.stake_at(&BUMPS, 1_000_000).unwrap();
    let mut u = unstake_accounts(&s);
    let before = u;
    let now = 1_000_000 + 3 * SECONDS_PER_DAY - 1;
    assert_eq!(
        u.unstake_at(now),
        Err(StakingError::Staking(NFTStakingError::FreezePeriodNotElaspedError))
    );
    assert_eq!(u, before);
}

#[test]
fn unstake_credits_points_per_day() {
    let mut s = stake_accounts(0);
    s.stake_at(&BUMPS, 1_000_000).unwrap();
    let mut u = unstake_accounts(&s);
    let a = u.unstake_at(1_000_000 + 5 * SECONDS_PER_DAY + 7).unwrap();
    assert_eq!(u.user_account.points, 40 + 5 * 10);
    assert_eq!(u.user_account.amount_staked, 0);
    assert_eq!(u.stake_account, s.stake_account);
    assert_eq!(a.thaw.delegate, addr(8));
    assert_eq!(a.thaw.token_account, addr(4));
    assert_eq!(a.thaw.edition, addr(6));
    assert_eq!(a.thaw.mint, addr(2));
    assert_eq!(a.thaw.signer_seeds, stake_seed_bytes(&addr(2), &addr(7), 249));
    assert_eq!(a.revocation.source, addr(4));
    assert_eq!(a.revocation.authority, addr(1));
}

#[test]
fn unstake_exactly_at_end_of_freeze() {
    let mut s = stake_accounts(1);
    s.stake_at(&BUMPS, 0).unwrap();
    let mut u = unstake_accounts(&s);
    u.unstake_at(3 * SECONDS_PER_DAY).unwrap();
    assert_eq!(u.user_account.points, 40 + 30);
    assert_eq!(u.user_account.amount_staked, 1);
}

#[test]
fn thaw_signs_like_freeze() {
    let mut s = stake_accounts(0);
    let a = s.stake_at(&BUMPS, 0).unwrap();
    let u = unstake_accounts(&s);
    let thaw = u.unfreeze_delegated_nft_authority();
    assert_eq!(thaw, a.freeze);
    let revocation = u.undelegate_nft_authority();
    assert_eq!(revocation.source, a.approval.to);
    assert_eq!(revocation.authority, a.approval.authority);
}

#[test]
fn clock_days_before_stake_wraps_the_day_count() {
    // A clock two days before the stake gives -2 days, which `as u32` wraps
    // to 4294967294: past the freeze period, and with no points per stake
    // the unstake goes through.
    let mut s = stake_accounts(0);
    s.stake_config.points_per_stake = 0;
    s.stake_at(&BUMPS, 1_000_000).unwrap();
    let mut u = unstake_accounts(&s);
    assert!(u.unstake_at(1_000_000 - 2 * SECONDS_PER_DAY - 5).is_ok());
    assert_eq!(u.user_account.points, 40);
    assert_eq!(u.user_account.amount_staked, 0);
}

#[test]
fn clock_days_before_stake_overflows_the_points() {
    let mut s = stake_accounts(0);
    s.stake_at(&BUMPS, 1_000_000).unwrap();
    let mut u = unstake_accounts(&s);
    let before = u;
    assert_eq!(
        u.unstake_at(1_000_000 - 2 * SECONDS_PER_DAY - 5),
        Err(StakingError::Custom(CustomError::Overflow))
    );
    assert_eq!(u, before);
}

#[test]
fn clock_seconds_before_stake_counts_zero_days() {
    let mut s = stake_accounts(0);
    s.stake_config.freeze_period = 0;
    s.stake_at(&BUMPS, 1_000_000).unwrap();
    let mut u = unstake_accounts(&s);
    assert!(u.unstake_at(999_999).is_ok());
    assert_eq!(u.user_account.points, 40);
    assert_eq!(u.user_account.amount_staked, 0);

    let mut s = stake_accounts(0);
    s.stake_at(&BUMPS, 1_000_000).unwrap();
    let mut u = unstake_accounts(&s);
    assert_eq!(
        u.unstake_at(999_999),
        Err(StakingError::Staking(NFTStakingError::FreezePeriodNotElaspedError))
    );
}

#[test]
fn stake_with_clock_uses_the_read() {
    let mut s = stake_accounts(0);
    let a = s.stake_with_clock(&BUMPS, Ok(77)).unwrap();
    assert_eq!(s.stake_account.staked_at, 77);
    assert_eq!(s.user_account.amount_staked, 1);
    assert_eq!(a.approval.amount, 1);
}

#[test]
fn stake_with_failed_clock_carries_its_error() {
    let mut s = stake_accounts(0);
    let before = s;
    assert_eq!(
        s.stake_with_clock(&BUMPS, Err(ProgramError::Custom(7))),
        Err(StakingError::Sysvar(ProgramError::Custom(7)))
    );
    assert_eq!(s, before);
    let mut full = stake_accounts(2);
    assert_eq!(
        full.stake_with_clock(&BUMPS, Err(ProgramError::Custom(7))),
        Err(StakingError::Staking(NFTStakingError::MaxStakeReachedError))
    );
}

#[test]
fn initialize_with_clock_writes_the_record() {
    let mut s = stake_accounts(0);
    s.initialize_stake_account_with_clock(&BUMPS, Ok(123)).unwrap();
    assert_eq!(s.stake_account, StakeAccount { owner: addr(1), mint: addr(2), staked_at: 123, bump: 249 });
    let before = s;
    assert_eq!(
        s.initialize_stake_account_with_clock(&BUMPS, Err(ProgramError::InvalidArgument)),
        Err(StakingError::Sysvar(ProgramError::InvalidArgument))
    );
    assert_eq!(s, before);
}

#[test]
fn unstake_with_clock_uses_the_read() {
    let mut s = stake_accounts(0);
    s.stake_at(&BUMPS, 0).unwrap();
    let mut u = unstake_accounts(&s);
    let before = u;
    assert_eq!(
        u.unstake_with_clock(Err(ProgramError::Custom(3))),
        Err(StakingError::Sysvar(ProgramError::Custom(3)))
    );
    assert_eq!(u, before);
    assert_eq!(
        u.unstake_with_clock(Ok(SECONDS_PER_DAY)),
        Err(StakingError::Staking(NFTStakingError::FreezePeriodNotElaspedError))
    );
    u.unstake_with_clock(Ok(4 * SECONDS_PER_DAY)).unwrap();
    assert_eq!(u.user_account.points, 80);
    assert_eq!(u.user_account.amount_staked, 0);
}

#[test]
fn elapsed_time_overflow_is_refused() {
    let mut s = stake_accounts(0);
    s.stake_at(&BUMPS, i64::MIN).unwrap();
    let mut u = unstake_accounts(&s);
    let before = u;
    assert_eq!(u.unstake_at(i64::MAX), Err(StakingError::Custom(CustomError::Overflow)));
    assert_eq!(u, before);
}

#[test]
fn points_overflow_is_refused() {
    let mut s = stake_accounts(0);
    s.user_account.points = u32::MAX - 5;
    s.stake_at(&BUMPS, 0).unwrap();
    let mut u = unstake_accounts(&s);
    let before = u;
    assert_eq!(u.unstake_at(3 * SECONDS_PER_DAY), Err(StakingError::Custom(CustomError::Overflow)));
    assert_eq!(u, before);
}

#[test]
fn unstake_with_nothing_counted_is_refused() {
    let mut s = stake_accounts(0);
    s.stake_at(&BUMPS, 0).unwrap();
    let mut u = unstake_accounts(&s);
    u.user_account.amount_staked = 0;
    let before = u;
    assert_eq!(u.unstake_at(3 * SECONDS_PER_DAY), Err(StakingError::Custom(CustomError::Underflow)));
    assert_eq!(u, before);
}

#[test]
fn staked_count_follows_stakes_and_unstakes() {
    let mut s = stake_accounts(0);
    s.stake_at(&BUMPS, 0).unwrap();
    let first = unstake_accounts(&s);
    s.nft_mint = addr(20);
    s.stake_at(&BUMPS, 0).unwrap();
    assert_eq!(s.user_account.amount_staked, 2);
    let mut u = unstake_accounts(&s);
    u.nft_mint = first.nft_mint;
    u.stake_account = first.stake_account;
    u.unstake_at(4 * SECONDS_PER_DAY).unwrap();
    assert_eq!(u.user_account.amount_staked, 1);
    assert_eq!(u.user_account.points, 40 + 40);
    s.user_account = u.user_account;
    s.nft_mint = addr(21);
    s.stake_at(&BUMPS, 0).unwrap();
    assert_eq!(s.user_account.amount_staked, 2);
    assert!(s.stake_at(&BUMPS, 0).is_err());
}

#[test]
fn partial_days_round_toward_zero() {
    let mut s = stake_accounts(0);
    s.stake_config.freeze_period = 0;
    s.stake_at(&BUMPS, 0).unwrap();
    let mut u = unstake_accounts(&s);
    u.unstake_at(SECONDS_PER_DAY - 1).unwrap();
    assert_eq!(u.user_account.points, 40);
}
