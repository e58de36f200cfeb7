use vstd::prelude::*;
use vstd::slice::slice_to_vec;
use anchor_lang::solana_program::program_error::ProgramError;
use crate::address::Address;
use crate::address::address_seed;
use crate::address::bump_seed;
use crate::address::push_seed;
use crate::runtime::clock_unix_timestamp;

verus! {

/// Errors of the staking program that concern amounts and rewards.
#[derive(Clone, Copy, Debug, PartialEq, Eq)]
pub enum CustomError {
    NotFrozen,
    NothingToUnstake,
    NoRewardsToClaim,
    Underflow,
    Overflow,
}

/// Errors of the staking program that concern its rules.
#[derive(Clone, Copy, Debug, PartialEq, Eq)]
pub enum NFTStakingError {
    CustomError,
    MaxStakeReachedError,
    FreezePeriodNotElaspedError,
}

/// Why a staking instruction did not go through.
#[derive(Debug, PartialEq, Eq)]
pub enum StakingError {
    Staking(NFTStakingError),
    Custom(CustomError),
    /// The clock sysvar could not be read.
    Sysvar(ProgramError),
}

/// The program-wide staking rules.
#[derive(Clone, Copy, Debug, PartialEq, Eq)]
pub struct StakeConfig {
    pub points_per_stake: u8,
    pub max_stake: u8,
    /// Days an NFT stays frozen before it can be unstaked.
    pub freeze_period: u32,
    pub bump: u8,
}

/// A user's standing.
#[derive(Clone, Copy, Debug, PartialEq, Eq)]
pub struct UserAccount {
    pub points: u32,
    pub amount_staked: u8,
    pub bump: u8,
}

/// The record of one staked NFT.
#[derive(Clone, Copy, Debug, PartialEq, Eq)]
pub struct StakeAccount {
    pub owner: Address,
    pub mint: Address,
    /// Unix time of the stake.
    pub staked_at: i64,
    pub bump: u8,
}

/// The bumps found for the derived accounts of a stake.
#[derive(Clone, Copy, Debug, PartialEq, Eq)]
pub struct StakeBumps {
    pub metadata: u8,
    pub edition: u8,
    pub stake_account: u8,
}

/// The accounts of a stake, as plain values.
#[derive(Clone, Copy, Debug, PartialEq, Eq)]
pub struct Stake {
    pub user: Address,
    pub nft_mint: Address,
    pub collection_mint: Address,
    pub user_nft_ata: Address,
    pub metadata: Address,
    pub edition: Address,
    pub stake_config_key: Address,
    pub stake_config: StakeConfig,
    pub stake_account_key: Address,
    pub stake_account: StakeAccount,
    pub user_account_key: Address,
    pub user_account: UserAccount,
}

/// The accounts of an unstake, as plain values.
#[derive(Clone, Copy, Debug, PartialEq, Eq)]
pub struct Unstake {
    pub user: Address,
    pub nft_mint: Address,
    pub user_nft_ata: Address,
    pub collection_mint: Address,
    pub edition: Address,
    pub stake_config_key: Address,
    pub stake_config: StakeConfig,
    pub stake_account_key: Address,
    pub stake_account: StakeAccount,
    pub user_account_key: Address,
    pub user_account: UserAccount,
}

/// A token approval: `authority` lets `delegate` move `amount` from `to`.
#[derive(Clone, Copy, Debug, PartialEq, Eq)]
pub struct Approval {
    pub to: Address,
    pub delegate: Address,
    pub authority: Address,
    pub amount: u64,
}

/// A freeze or a thaw of a delegated token account, signed by the stake
/// account with its seeds.
#[derive(Clone, Debug, PartialEq, Eq)]
pub struct DelegatedFreeze {
    pub delegate: Address,
    pub token_account: Address,
    pub edition: Address,
    pub mint: Address,
    pub signer_seeds: Vec<Vec<u8>>,
}

/// A revocation of the delegate of `source`.
#[derive(Clone, Copy, Debug, PartialEq, Eq)]
pub struct Revocation {
    pub source: Address,
    pub authority: Address,
}

/// What a stake hands to the token programs, in this order.
#[derive(Clone, Debug, PartialEq, Eq)]
pub struct StakeActions {
    pub approval: Approval,
    pub freeze: DelegatedFreeze,
}

/// What an unstake hands to the token programs, in this order.
#[derive(Clone, Debug, PartialEq, Eq)]
pub struct UnstakeActions {
    pub thaw: DelegatedFreeze,
    pub revocation: Revocation,
}

/// Seconds in a day.
pub const SECONDS_PER_DAY: i64 = 86400;

/// The bytes of the seed `b"stake"`.
pub open spec fn tag_stake() -> Seq<u8> {
    seq![115u8, 116u8, 97u8, 107u8, 101u8]
}

/// The seeds of a stake account: `b"stake"`, the NFT mint, the config, and the bump.
pub open spec fn stake_seeds(nft_mint: Seq<u8>, config: Seq<u8>, bump: u8) -> Seq<Seq<u8>> {
    seq![tag_stake(), nft_mint, config, seq![bump]]
}

/// Integer division rounded toward zero, as `/` on `i64` does.
pub open spec fn quotient_toward_zero(a: int, b: int) -> int {
    if a >= 0 { a / b } else { -((-a) / b) }
}

/// Whole days from `staked_at` to `now`, rounded toward zero and then taken
/// as a `u32` the way `as u32` takes it (modulo 2^32): a clock a day or more
/// before the stake gives a negative count, which wraps to a large one.
pub open spec fn elapsed_days(now: i64, staked_at: i64) -> u32 {
    quotient_toward_zero(now - staked_at, SECONDS_PER_DAY as int) as u32
}

/// Builds the signer seeds of the stake account.
fn stake_signer_seeds(nft_mint: &Address, config: &Address, bump: u8) -> (seeds: Vec<Vec<u8>>)
    ensures
        seeds.deep_view() == stake_seeds(nft_mint@, config@, bump),
{
    let mut seeds: Vec<Vec<u8>> = Vec::new();
    push_seed(&mut seeds, slice_to_vec(&[115u8, 116, 97, 107, 101]));
    push_seed(&mut seeds, address_seed(nft_mint));
    push_seed(&mut seeds, address_seed(config));
    push_seed(&mut seeds, bump_seed(bump));
    assert(seeds.deep_view() =~= stake_seeds(nft_mint@, config@, bump));
    seeds
}

impl Stake {
    /// The user has room for one more staked NFT.
    pub open spec fn may_stake(self) -> bool {
        self.user_account.amount_staked < self.stake_config.max_stake
    }

    /// The accounts once the stake record is written.
    pub open spec fn initialized(self, bumps: StakeBumps, now: i64) -> Stake {
        Stake {
            stake_account: StakeAccount {
                mint: self.nft_mint,
                owner: self.user,
                staked_at: now,
                bump: bumps.stake_account,
            },
            ..self
        }
    }

    /// The accounts after a stake at time `now`.
    pub open spec fn staked(self, bumps: StakeBumps, now: i64) -> Stake {
        let s = self.initialized(bumps, now);
        Stake {
            user_account: UserAccount {
                amount_staked: (s.user_account.amount_staked + 1) as u8,
                ..s.user_account
            },
            ..s
        }
    }

    /// The accounts that an unstake of this NFT works on: the same user,
    /// NFT, config, stake record and user account.
    pub open spec fn unstake_accounts(self) -> Unstake {
        Unstake {
            user: self.user,
            nft_mint: self.nft_mint,
            user_nft_ata: self.user_nft_ata,
            collection_mint: self.collection_mint,
            edition: self.edition,
            stake_config_key: self.stake_config_key,
            stake_config: self.stake_config,
            stake_account_key: self.stake_account_key,
            stake_account: self.stake_account,
            user_account_key: self.user_account_key,
            user_account: self.user_account,
        }
    }

    pub open spec fn is_approval(self, a: Approval) -> bool {
        a == (Approval {
            to: self.user_nft_ata,
            delegate: self.stake_account_key,
            authority: self.user,
            amount: 1,
        })
    }

    pub open spec fn is_freeze(self, f: DelegatedFreeze) -> bool {
        &&& f.delegate == self.stake_account_key
        &&& f.token_account == self.user_nft_ata
        &&& f.edition == self.edition
        &&& f.mint == self.nft_mint
        &&& f.signer_seeds.deep_view() == stake_seeds(
            self.nft_mint@,
            self.stake_config_key@,
            self.stake_account.bump,
        )
    }

    /// Writes the stake record: this NFT, this user, the given time, the found bump.
    pub fn initialize_stake_account_at(&mut self, bumps: &StakeBumps, now: i64)
        ensures
            *final(self) == old(self).initialized(*bumps, now),
    {
        self.stake_account = StakeAccount {
            mint: self.nft_mint,
            owner: self.user,
            staked_at: now,
            bump: bumps.stake_account,
        };
    }

    /// Writes the stake record with the time a clock read gave; a failed read
    /// is refused with its own error, and nothing is written.
    pub fn initialize_stake_account_with_clock(
        &mut self,
        bumps: &StakeBumps,
        clock: Result<i64, ProgramError>,
    ) -> (r: Result<(), StakingError>)
        ensures
            clock matches Ok(now) ==> r is Ok && *final(self) == old(self).initialized(*bumps, now),
            clock matches Err(e) ==> r == Err::<(), StakingError>(StakingError::Sysvar(e))
                && *final(self) == *old(self),
    {
        match clock {
            Ok(now) => {
                self.initialize_stake_account_at(bumps, now);
                Ok(())
            },
            Err(e) => Err(StakingError::Sysvar(e)),
        }
    }

    /// Writes the stake record with the runtime clock's time.
    pub fn initialize_stake_account(&mut self, bumps: &StakeBumps) -> (r: Result<(), StakingError>)
        ensures
            r is Ok ==> *final(self) == old(self).initialized(*bumps, final(self).stake_account.staked_at),
            r matches Err(e) ==> e is Sysvar && *final(self) == *old(self),
    {
        self.initialize_stake_account_with_clock(bumps, clock_unix_timestamp())
    }

    /// The approval that lets the stake account move the user's NFT.
    pub fn delegate_nft_authority(&self) -> (a: Approval)
        ensures
            self.is_approval(a),
    {
        Approval { to: self.user_nft_ata, delegate: self.stake_account_key, authority: self.user, amount: 1 }
    }

    /// The freeze of the user's NFT account, signed by the stake account.
    pub fn freeze_delegated_nft_authority(&self) -> (f: DelegatedFreeze)
        ensures
            self.is_freeze(f),
    {
        DelegatedFreeze {
            delegate: self.stake_account_key,
            token_account: self.user_nft_ata,
            edition: self.edition,
            mint: self.nft_mint,
            signer_seeds: stake_signer_seeds(&self.nft_mint, &self.stake_config_key, self.stake_account.bump),
        }
    }

    /// Stakes at time `now`: refused when the user is at the maximum;
    /// otherwise writes the stake record, counts one more staked NFT, and
    /// gives the approval and the freeze to perform.
    pub fn stake_at(&mut self, bumps: &StakeBumps, now: i64) -> (r: Result<StakeActions, StakingError>)
        ensures
            !old(self).may_stake() ==> r == Err::<StakeActions, StakingError>(
                StakingError::Staking(NFTStakingError::MaxStakeReachedError),
            ) && *final(self) == *old(self),
            old(self).may_stake() ==> r is Ok,
            r matches Ok(a) ==> {
                &&& *final(self) == old(self).staked(*bumps, now)
                &&& final(self).is_approval(a.approval)
                &&& final(self).is_freeze(a.freeze)
            },
    {
        if !(self.user_account.amount_staked < self.stake_config.max_stake) {
            return Err(StakingError::Staking(NFTStakingError::MaxStakeReachedError));
        }
        self.initialize_stake_account_at(bumps, now);
        let approval = self.delegate_nft_authority();
        let freeze = self.freeze_delegated_nft_authority();
        self.user_account.amount_staked = self.user_account.amount_staked + 1;
        Ok(StakeActions { approval, freeze })
    }

    /// Stakes with the time a clock read gave: refused at the maximum (the
    /// read is not looked at); otherwise a failed read is refused with its
    /// own error and nothing changes, and a time stakes as `stake_at` does.
    pub fn stake_with_clock(
        &mut self,
        bumps: &StakeBumps,
        clock: Result<i64, ProgramError>,
    ) -> (r: Result<StakeActions, StakingError>)
        ensures
            !old(self).may_stake() ==> r == Err::<StakeActions, StakingError>(
                StakingError::Staking(NFTStakingError::MaxStakeReachedError),
            ) && *final(self) == *old(self),
            old(self).may_stake() ==> (clock matches Err(e) ==> r == Err::<StakeActions, StakingError>(
                StakingError::Sysvar(e),
            ) && *final(self) == *old(self)),
            old(self).may_stake() ==> (clock matches Ok(now) ==> r is Ok
                && *final(self) == old(self).staked(*bumps, now)),
            r matches Ok(a) ==> {
                &&& final(self).is_approval(a.approval)
                &&& final(self).is_freeze(a.freeze)
            },
    {
        if !(self.user_account.amount_staked < self.stake_config.max_stake) {
            return Err(StakingError::Staking(NFTStakingError::MaxStakeReachedError));
        }
        match clock {
            Ok(now) => self.stake_at(bumps, now),
            Err(e) => Err(StakingError::Sysvar(e)),
        }
    }

    /// Stakes with the runtime clock's time: the check of the maximum comes
    /// first; then the clock is read once and its result handed, unchanged,
    /// to `stake_with_clock`. The reading itself is the runtime's and has no
    /// name here, so the contract pins every field but the recorded time.
    pub fn stake(&mut self, bumps: &StakeBumps) -> (r: Result<StakeActions, StakingError>)
        ensures
            !old(self).may_stake() ==> r == Err::<StakeActions, StakingError>(
                StakingError::Staking(NFTStakingError::MaxStakeReachedError),
            ),
            r matches Err(e) ==> *final(self) == *old(self) && (old(self).may_stake() ==> e is Sysvar),
            r matches Ok(a) ==> {
                &&& *final(self) == old(self).staked(*bumps, final(self).stake_account.staked_at)
                &&& final(self).is_approval(a.approval)
                &&& final(self).is_freeze(a.freeze)
            },
    {
        if !(self.user_account.amount_staked < self.stake_config.max_stake) {
            return Err(StakingError::Staking(NFTStakingError::MaxStakeReachedError));
        }
        self.stake_with_clock(bumps, clock_unix_timestamp())
    }
}

impl Unstake {
    /// Whole days from the stake to `now`, as the program counts them (see
    /// `elapsed_days`).
    pub open spec fn days_at(self, now: i64) -> u32 {
        elapsed_days(now, self.stake_account.staked_at)
    }

    /// `now - staked_at` fits in an `i64`.
    pub open spec fn clock_fits(self, now: i64) -> bool {
        i64::MIN <= now - self.stake_account.staked_at <= i64::MAX
    }

    /// The day count at time `now` is below the freeze period.
    pub open spec fn frozen_at(self, now: i64) -> bool {
        self.days_at(now) < self.stake_config.freeze_period
    }

    /// Points earned by the stake at time `now`.
    pub open spec fn reward_at(self, now: i64) -> int {
        self.days_at(now) * self.stake_config.points_per_stake
    }

    /// The accounts after an unstake at time `now`.
    pub open spec fn unstaked(self, now: i64) -> Unstake {
        Unstake {
            user_account: UserAccount {
                points: (self.user_account.points + self.reward_at(now)) as u32,
                amount_staked: (self.user_account.amount_staked - 1) as u8,
                ..self.user_account
            },
            ..self
        }
    }

    /// Why an unstake at time `now` is refused, if it is: an elapsed time
    /// that overflows, a day count below the freeze period, a point total
    /// that overflows, no NFT counted as staked.
    pub open spec fn unstake_refusal(self, now: i64) -> Option<StakingError> {
        if !self.clock_fits(now) {
            Some(StakingError::Custom(CustomError::Overflow))
        } else if self.frozen_at(now) {
            Some(StakingError::Staking(NFTStakingError::FreezePeriodNotElaspedError))
        } else if self.user_account.points + self.reward_at(now) > u32::MAX {
            Some(StakingError::Custom(CustomError::Overflow))
        } else if self.user_account.amount_staked < 1 {
            Some(StakingError::Custom(CustomError::Underflow))
        } else {
            None
        }
    }

    pub open spec fn is_thaw(self, f: DelegatedFreeze) -> bool {
        &&& f.delegate == self.stake_account_key
        &&& f.token_account == self.user_nft_ata
        &&& f.edition == self.edition
        &&& f.mint == self.nft_mint
        &&& f.signer_seeds.deep_view() == stake_seeds(
            self.nft_mint@,
            self.stake_config_key@,
            self.stake_account.bump,
        )
    }

    pub open spec fn is_revocation(self, r: Revocation) -> bool {
        r == (Revocation { source: self.user_nft_ata, authority: self.user })
    }

    /// The thaw of the user's NFT account, signed by the stake account.
    pub fn unfreeze_delegated_nft_authority(&self) -> (f: DelegatedFreeze)
        ensures
            self.is_thaw(f),
    {
        DelegatedFreeze {
            delegate: self.stake_account_key,
            token_account: self.user_nft_ata,
            edition: self.edition,
            mint: self.nft_mint,
            signer_seeds: stake_signer_seeds(&self.nft_mint, &self.stake_config_key, self.stake_account.bump),
        }
    }

    /// The revocation of the stake account's delegation.
    pub fn undelegate_nft_authority(&self) -> (r: Revocation)
        ensures
            self.is_revocation(r),
    {
        Revocation { source: self.user_nft_ata, authority: self.user }
    }

    /// Unstakes at time `now`: refused, with the accounts left as they were,
    /// for the reasons of `unstake_refusal`; otherwise credits the points for
    /// the elapsed days, counts one staked NFT off, and gives the thaw and the
    /// revocation to perform.
    pub fn unstake_at(&mut self, now: i64) -> (r: Result<UnstakeActions, StakingError>)
        ensures
            old(self).unstake_refusal(now) matches Some(e) ==> r == Err::<UnstakeActions, StakingError>(e)
                && *final(self) == *old(self),
            old(self).unstake_refusal(now) is None ==> r is Ok,
            r matches Ok(a) ==> {
                &&& *final(self) == old(self).unstaked(now)
                &&& old(self).is_thaw(a.thaw)
                &&& old(self).is_revocation(a.revocation)
            },
    {
        let elapsed = match now.checked_sub(self.stake_account.staked_at) {
            Some(elapsed) => elapsed,
            None => return Err(StakingError::Custom(CustomError::Overflow)),
        };
        let days = #[verifier::truncate] ((elapsed / SECONDS_PER_DAY) as u32);
        assert(days == self.days_at(now));
        if days < self.stake_config.freeze_period {
            return Err(StakingError::Staking(NFTStakingError::FreezePeriodNotElaspedError));
        }
        let rate = self.stake_config.points_per_stake as u32;
        assert(days as u64 * rate as u64 <= 0xffff_ffff * 0xff) by (nonlinear_arith)
            requires days <= 0xffff_ffff, rate <= 0xff;
        let reward = days as u64 * rate as u64;
        assert(reward == self.reward_at(now));
        if self.user_account.points as u64 + reward > u32::MAX as u64 {
            return Err(StakingError::Custom(CustomError::Overflow));
        }
        if self.user_account.amount_staked < 1 {
            return Err(StakingError::Custom(CustomError::Underflow));
        }
        self.user_account.points = (self.user_account.points as u64 + reward) as u32;
        let thaw = self.unfreeze_delegated_nft_authority();
        let revocation = self.undelegate_nft_authority();
        self.user_account.amount_staked = self.user_account.amount_staked - 1;
        Ok(UnstakeActions { thaw, revocation })
    }

    /// Unstakes with the time a clock read gave: a failed read is refused
    /// with its own error and nothing changes; a time unstakes as
    /// `unstake_at` does.
    pub fn unstake_with_clock(&mut self, clock: Result<i64, ProgramError>) -> (r: Result<UnstakeActions, StakingError>)
        ensures
            clock matches Err(e) ==> r == Err::<UnstakeActions, StakingError>(StakingError::Sysvar(e))
                && *final(self) == *old(self),
            clock matches Ok(now) ==> {
                &&& old(self).unstake_refusal(now) matches Some(e) ==> r == Err::<UnstakeActions, StakingError>(e)
                    && *final(self) == *old(self)
                &&& old(self).unstake_refusal(now) is None ==> r is Ok && *final(self) == old(self).unstaked(now)
            },
            r matches Ok(a) ==> {
                &&& old(self).is_thaw(a.thaw)
                &&& old(self).is_revocation(a.revocation)
            },
    {
        match clock {
            Ok(now) => self.unstake_at(now),
            Err(e) => Err(StakingError::Sysvar(e)),
        }
    }

    /// Unstakes with the runtime clock's time: reads the clock, and unstakes
    /// at its time.
    pub fn unstake(&mut self) -> (r: Result<UnstakeActions, StakingError>)
        ensures
            r matches Err(e) ==> *final(self) == *old(self) && (e is Sysvar || exists|now: i64|
                #[trigger] old(self).unstake_refusal(now) == Some(e)),
            r matches Ok(a) ==> {
                &&& exists|now: i64| old(self).unstake_refusal(now) is None
                    && *final(self) == #[trigger] old(self).unstaked(now)
                &&& old(self).is_thaw(a.thaw)
                &&& old(self).is_revocation(a.revocation)
            },
    {
        let clock = clock_unix_timestamp();
        let ghost read = clock;
        let r = self.unstake_with_clock(clock);
        proof {
            if let Ok(now) = read {
                if old(self).unstake_refusal(now) is None {
                    assert(*final(self) == old(self).unstaked(now));
                } else {
                    assert(old(self).unstake_refusal(now) == Some(r->Err_0));
                }
            }
        }
        r
    }
}

/// Stakes the user's NFT (the program's `stake` instruction).
pub fn stake(ctx: &mut Stake, bumps: &StakeBumps) -> (r: Result<StakeActions, StakingError>)
    ensures
        !old(ctx).may_stake() ==> r == Err::<StakeActions, StakingError>(
            StakingError::Staking(NFTStakingError::MaxStakeReachedError),
        ),
        r matches Err(e) ==> *final(ctx) == *old(ctx) && (old(ctx).may_stake() ==> e is Sysvar),
        r matches Ok(a) ==> {
            &&& *final(ctx) == old(ctx).staked(*bumps, final(ctx).stake_account.staked_at)
            &&& final(ctx).is_approval(a.approval)
            &&& final(ctx).is_freeze(a.freeze)
        },
{
    ctx.stake(bumps)
}

/// Unstakes the user's NFT (the program's `unstake` instruction).
pub fn unstake(ctx: &mut Unstake) -> (r: Result<UnstakeActions, StakingError>)
    ensures
        r matches Err(e) ==> *final(ctx) == *old(ctx) && (e is Sysvar || exists|now: i64|
            #[trigger] old(ctx).unstake_refusal(now) == Some(e)),
        r matches Ok(a) ==> {
            &&& exists|now: i64| old(ctx).unstake_refusal(now) is None
                && *final(ctx) == #[trigger] old(ctx).unstaked(now)
            &&& old(ctx).is_thaw(a.thaw)
            &&& old(ctx).is_revocation(a.revocation)
        },
{
    ctx.unstake()
}

/// A stake never takes the user past the maximum: the count grows by one
/// and stays at most `max_stake`, and it is at least one afterwards, so the
/// unstake of that NFT has a stake to count off.
pub proof fn law_stake_respects_max(s: Stake, bumps: StakeBumps, now: i64)
    requires
        s.may_stake(),
    ensures
        s.staked(bumps, now).user_account.amount_staked == s.user_account.amount_staked + 1,
        s.staked(bumps, now).user_account.amount_staked <= s.stake_config.max_stake,
        s.staked(bumps, now).user_account.amount_staked >= 1,
        s.staked(bumps, now).user_account.points == s.user_account.points,
{
}

/// A stake at clock reading `now` records that reading as the start of the
/// stake, with the staker as owner and the NFT as mint; the freeze period is
/// counted from it: at any time from `now` until `freeze_period` days later
/// an unstake of that NFT is refused, and one that goes through at a time not
/// before `now` comes at least `freeze_period` days after it.
pub proof fn law_stake_starts_the_freeze(s: Stake, bumps: StakeBumps, now: i64, later: i64)
    requires
        s.may_stake(),
    ensures
        s.staked(bumps, now).stake_account.staked_at == now,
        s.staked(bumps, now).stake_account.owner == s.user,
        s.staked(bumps, now).stake_account.mint == s.nft_mint,
        s.staked(bumps, now).stake_account.bump == bumps.stake_account,
        now <= later < now + SECONDS_PER_DAY * s.stake_config.freeze_period ==>
            s.staked(bumps, now).unstake_accounts().unstake_refusal(later)
                == Some(StakingError::Staking(NFTStakingError::FreezePeriodNotElaspedError)),
        now <= later && s.staked(bumps, now).unstake_accounts().unstake_refusal(later) is None ==>
            later - now >= s.stake_config.freeze_period * SECONDS_PER_DAY,
{
    let u = s.staked(bumps, now).unstake_accounts();
    assert(u.stake_account.staked_at == now);
    assert(u.stake_config == s.stake_config);
    if now <= later && later < now + SECONDS_PER_DAY * s.stake_config.freeze_period {
        law_unstake_refused_while_frozen(u, later);
    }
    if now <= later && u.unstake_refusal(later) is None {
        law_no_release_before_freeze_ends(u, later);
    }
}

/// An unstake keeps the count at most `max_stake` and never lowers the points.
pub proof fn law_unstake_keeps_invariant(u: Unstake, now: i64)
    requires
        u.user_account.amount_staked <= u.stake_config.max_stake,
        u.unstake_refusal(now) is None,
    ensures
        u.unstaked(now).user_account.amount_staked <= u.stake_config.max_stake,
        u.unstaked(now).user_account.points >= u.user_account.points,
        u.unstaked(now).stake_config == u.stake_config,
{
    let reward = u.reward_at(now);
    assert(0 <= reward) by (nonlinear_arith)
        requires reward == u.days_at(now) * u.stake_config.points_per_stake;
}

/// Unstaking an NFT undoes the count of its stake and credits
/// `points_per_stake` for each whole day since the stake.
pub proof fn law_unstake_undoes_stake(s: Stake, bumps: StakeBumps, staked_at: i64, now: i64)
    requires
        s.may_stake(),
        s.staked(bumps, staked_at).unstake_accounts().unstake_refusal(now) is None,
    ensures
        ({
            let u = s.staked(bumps, staked_at).unstake_accounts();
            &&& u.unstaked(now).user_account.amount_staked == s.user_account.amount_staked
            &&& u.unstaked(now).user_account.points == s.user_account.points
                + elapsed_days(now, staked_at) * s.stake_config.points_per_stake
        }),
{
}

/// From the stake until its freeze period has ended, an unstake is refused
/// with `FreezePeriodNotElaspedError`.
pub proof fn law_unstake_refused_while_frozen(u: Unstake, now: i64)
    requires
        u.stake_account.staked_at <= now,
        now < u.stake_account.staked_at + SECONDS_PER_DAY * u.stake_config.freeze_period,
    ensures
        u.frozen_at(now),
        u.unstake_refusal(now) == Some(StakingError::Staking(NFTStakingError::FreezePeriodNotElaspedError)),
{
    let delta: int = now - u.stake_account.staked_at;
    let fp: int = u.stake_config.freeze_period as int;
    assert(delta / 86400 < fp) by (nonlinear_arith)
        requires 0 <= delta, delta < 86400 * fp;
    assert(0 <= delta / 86400) by (nonlinear_arith)
        requires 0 <= delta;
}

/// With a clock not earlier than the stake, an NFT is never released before
/// its freeze period has elapsed: an unstake that goes through is at least
/// `freeze_period` days after the stake.
pub proof fn law_no_release_before_freeze_ends(u: Unstake, now: i64)
    requires
        u.stake_account.staked_at <= now,
        u.unstake_refusal(now) is None,
    ensures
        now - u.stake_account.staked_at >= u.stake_config.freeze_period * SECONDS_PER_DAY,
{
    let delta: int = now - u.stake_account.staked_at;
    let fp: int = u.stake_config.freeze_period as int;
    let q: int = delta / 86400;
    assert(0 <= q && 86400 * q <= delta) by (nonlinear_arith)
        requires 0 <= delta, q == delta / 86400;
    if q < 0x1_0000_0000 {
        assert(u.days_at(now) == q);
        assert(86400 * fp <= 86400 * q) by (nonlinear_arith)
            requires fp <= q;
    } else {
        assert(86400 * fp <= 86400 * 0x1_0000_0000) by (nonlinear_arith)
            requires fp < 0x1_0000_0000;
        assert(86400 * 0x1_0000_0000 <= 86400 * q) by (nonlinear_arith)
            requires 0x1_0000_0000 <= q;
    }
}

/// Once the freeze period has passed (and the days since the stake fit in a
/// `u32`), the freeze no longer holds an unstake back.
pub proof fn law_unstake_allowed_after_freeze(u: Unstake, now: i64)
    requires
        u.stake_account.staked_at + SECONDS_PER_DAY * u.stake_config.freeze_period <= now,
        now - u.stake_account.staked_at < SECONDS_PER_DAY * 0x1_0000_0000,
    ensures
        !u.frozen_at(now),
        u.days_at(now) == (now - u.stake_account.staked_at) / SECONDS_PER_DAY as int,
{
    let delta: int = now - u.stake_account.staked_at;
    let fp: int = u.stake_config.freeze_period as int;
    assert(fp <= delta / 86400) by (nonlinear_arith)
        requires 0 <= fp, 86400 * fp <= delta;
    assert(delta / 86400 < 0x1_0000_0000) by (nonlinear_arith)
        requires 0 <= delta, delta < 86400 * 0x1_0000_0000;
}

/// The thaw of an unstake addresses the same accounts, and signs with the
/// same seeds, as the freeze of the stake it undoes; the revocation undoes
/// the approval.
pub proof fn law_unstake_reverses_stake_actions(
    s: Stake,
    freeze: DelegatedFreeze,
    thaw: DelegatedFreeze,
    approval: Approval,
    revocation: Revocation,
)
    requires
        s.is_freeze(freeze),
        s.unstake_accounts().is_thaw(thaw),
        s.is_approval(approval),
        s.unstake_accounts().is_revocation(revocation),
    ensures
        thaw.signer_seeds.deep_view() == freeze.signer_seeds.deep_view(),
        thaw.delegate == freeze.delegate,
        thaw.token_account == freeze.token_account,
        thaw.edition == freeze.edition,
        thaw.mint == freeze.mint,
        revocation.source == approval.to,
        revocation.authority == approval.authority,
{
}

/// One step of a user's history: a stake or an unstake, with the accounts it
/// works on and its clock time. The user account it sees is the one the
/// previous steps left.
#[derive(Clone, Copy, Debug)]
pub enum StakeStep {
    Stake { accounts: Stake, bumps: StakeBumps, now: i64 },
    Unstake { accounts: Unstake, now: i64 },
}

/// The NFT a step stakes or unstakes.
pub open spec fn step_mint(step: StakeStep) -> Seq<u8> {
    match step {
        StakeStep::Stake { accounts, .. } => accounts.nft_mint@,
        StakeStep::Unstake { accounts, .. } => accounts.nft_mint@,
    }
}

/// The config a step works with.
pub open spec fn step_config(step: StakeStep) -> StakeConfig {
    match step {
        StakeStep::Stake { accounts, .. } => accounts.stake_config,
        StakeStep::Unstake { accounts, .. } => accounts.stake_config,
    }
}

/// The step goes through when it sees `user` as the user account.
pub open spec fn step_accepted(step: StakeStep, user: UserAccount) -> bool {
    match step {
        StakeStep::Stake { accounts, .. } => Stake { user_account: user, ..accounts }.may_stake(),
        StakeStep::Unstake { accounts, now } =>
            Unstake { user_account: user, ..accounts }.unstake_refusal(now) is None,
    }
}

/// The user account after the step, when it sees `user` and goes through.
pub open spec fn step_user(step: StakeStep, user: UserAccount) -> UserAccount {
    match step {
        StakeStep::Stake { accounts, bumps, now } =>
            Stake { user_account: user, ..accounts }.staked(bumps, now).user_account,
        StakeStep::Unstake { accounts, now } =>
            Unstake { user_account: user, ..accounts }.unstaked(now).user_account,
    }
}

/// The user account after all the steps, from `start`.
pub open spec fn user_after(start: UserAccount, steps: Seq<StakeStep>) -> UserAccount
    decreases steps.len(),
{
    if steps.len() == 0 {
        start
    } else {
        step_user(steps.last(), user_after(start, steps.drop_last()))
    }
}

/// The NFTs staked and not yet unstaked after the steps.
pub open spec fn live_mints(steps: Seq<StakeStep>) -> Set<Seq<u8>>
    decreases steps.len(),
{
    if steps.len() == 0 {
        Set::empty()
    } else {
        match steps.last() {
            StakeStep::Stake { .. } => live_mints(steps.drop_last()).insert(step_mint(steps.last())),
            StakeStep::Unstake { .. } => live_mints(steps.drop_last()).remove(step_mint(steps.last())),
        }
    }
}

/// How many of the steps are stakes.
pub open spec fn stakes_in(steps: Seq<StakeStep>) -> int
    decreases steps.len(),
{
    if steps.len() == 0 {
        0
    } else {
        stakes_in(steps.drop_last()) + if steps.last() is Stake { 1int } else { 0int }
    }
}

/// How many of the steps are unstakes.
pub open spec fn unstakes_in(steps: Seq<StakeStep>) -> int
    decreases steps.len(),
{
    if steps.len() == 0 {
        0
    } else {
        unstakes_in(steps.drop_last()) + if steps.last() is Unstake { 1int } else { 0int }
    }
}

/// A history of successful steps on one user account under one config:
/// each step goes through on the account the previous ones left, each stake
/// is of an NFT not staked at the time, each unstake of one that is.
pub open spec fn is_history(start: UserAccount, config: StakeConfig, steps: Seq<StakeStep>) -> bool
    decreases steps.len(),
{
    if steps.len() == 0 {
        true
    } else {
        let before = steps.drop_last();
        let step = steps.last();
        &&& is_history(start, config, before)
        &&& step_config(step) == config
        &&& step_accepted(step, user_after(start, before))
        &&& match step {
            StakeStep::Stake { .. } => !live_mints(before).contains(step_mint(step)),
            StakeStep::Unstake { .. } => live_mints(before).contains(step_mint(step)),
        }
    }
}

/// Over any history of successful stakes and unstakes that starts with
/// nothing staked, the user's staked count is the number of stakes less the
/// number of unstakes, which is the number of NFTs still staked, and it stays
/// within `max_stake`.
pub proof fn law_staked_count_is_live_stakes(start: UserAccount, config: StakeConfig, steps: Seq<StakeStep>)
    requires
        start.amount_staked == 0,
        is_history(start, config, steps),
    ensures
        user_after(start, steps).amount_staked == stakes_in(steps) - unstakes_in(steps),
        live_mints(steps).finite(),
        user_after(start, steps).amount_staked == live_mints(steps).len(),
        user_after(start, steps).amount_staked <= config.max_stake,
    decreases steps.len(),
{
    broadcast use vstd::set::group_set_axioms;
    if steps.len() > 0 {
        let before = steps.drop_last();
        law_staked_count_is_live_stakes(start, config, before);
    }
}

} // verus!
