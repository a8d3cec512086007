use vstd::prelude::*;

use crate::constants::THIRTEEN_DAY;
use crate::error::{ErrorCode, NormalResult};
use crate::math::arith::{max_int, min_int};
use crate::pubkey::{empty_key, keys_equal};
use crate::state::referral::ReferrerName;
use crate::state::state::{spec_init_user_fee, spec_max_number_of_sub_accounts, State};
use crate::state::user::{spec_is_being_liquidated, User};
use crate::state::user_stats::UserStats;

verus! {

// ---------------------------------------------------------------------------
// Creating a sub account
// ---------------------------------------------------------------------------

/// Whether a referrer is recorded: only for the first sub account, and only when both the
/// referrer and its statistics are given.
pub open spec fn records_referrer(user_stats: UserStats, referrer: Option<&User>, referrer_stats: Option<UserStats>) -> bool {
    user_stats.number_of_sub_accounts_created == 0 && referrer is Some && referrer_stats is Some
}

/// The outcome of creating a sub account: the fee the payer owes the new account, or the
/// refusal.
pub open spec fn spec_initialize_user(
    user_stats: UserStats,
    state: State,
    referrer: Option<&User>,
    referrer_stats: Option<UserStats>,
    sub_account_id: u16,
    payer_lamports: u64,
) -> NormalResult<u64> {
    let n = state.number_of_sub_accounts + 1;
    let max = spec_max_number_of_sub_accounts(state.max_number_of_sub_accounts);
    if user_stats.number_of_sub_accounts == u16::MAX {
        Err(ErrorCode::MathError)
    } else if records_referrer(user_stats, referrer, referrer_stats) && referrer.unwrap().sub_account_id != 0 {
        Err(ErrorCode::InvalidReferrer)
    } else if records_referrer(user_stats, referrer, referrer_stats)
        && referrer.unwrap().authority@ != referrer_stats.unwrap().authority@ {
        Err(ErrorCode::ReferrerAndReferrerStatsAuthorityUnequal)
    } else if sub_account_id != user_stats.number_of_sub_accounts_created {
        Err(ErrorCode::InvalidUserSubAccountId)
    } else if user_stats.number_of_sub_accounts_created == u16::MAX || state.number_of_sub_accounts == u64::MAX {
        Err(ErrorCode::MathError)
    } else if max != 0 && n > max {
        Err(ErrorCode::MaxNumberOfUsers)
    } else {
        match spec_init_user_fee(state.max_initialize_user_fee, n as u64, max) {
            Err(e) => Err(e),
            Ok(fee) => if fee > 0 && payer_lamports < fee { Err(ErrorCode::CantPayUserInitFee) } else { Ok(fee) },
        }
    }
}

/// Creates sub account `sub_account_id` of an authority. Sub accounts are numbered in the order
/// they are created; the first one may record a referrer (sub account 0 of an authority whose
/// statistics are given), which becomes a referrer. Returns the fee, in lamports, that the payer
/// must transfer to the new account; refused (changing nothing) when the payer has less.
pub fn handle_initialize_user(
    user: &mut User,
    user_stats: &mut UserStats,
    state: &mut State,
    referrer: Option<&User>,
    referrer_stats: &mut Option<UserStats>,
    authority: [u8; 32],
    sub_account_id: u16,
    name: [u8; 32],
    payer_lamports: u64,
) -> (r: NormalResult<u64>)
    ensures
        r == spec_initialize_user(*old(user_stats), *old(state), referrer, *old(referrer_stats), sub_account_id, payer_lamports),
        r is Err ==> *final(user) == *old(user) && *final(user_stats) == *old(user_stats) && *final(state) == *old(state)
            && *final(referrer_stats) == *old(referrer_stats),
        r is Ok ==> {
            &&& *final(user) == (User { authority, sub_account_id, name, ..*old(user) })
            &&& *final(state) == (State { number_of_sub_accounts: (old(state).number_of_sub_accounts + 1) as u64, ..*old(state) })
            &&& final(user_stats).number_of_sub_accounts == old(user_stats).number_of_sub_accounts + 1
            &&& final(user_stats).number_of_sub_accounts_created == old(user_stats).number_of_sub_accounts_created + 1
            &&& final(user_stats).referrer@ == (if old(user_stats).number_of_sub_accounts_created != 0 { old(user_stats).referrer@ }
                else if records_referrer(*old(user_stats), referrer, *old(referrer_stats)) { referrer.unwrap().authority@ }
                else { empty_key() })
            &&& *final(user_stats) == (UserStats {
                number_of_sub_accounts: final(user_stats).number_of_sub_accounts,
                number_of_sub_accounts_created: final(user_stats).number_of_sub_accounts_created,
                referrer: final(user_stats).referrer,
                ..*old(user_stats)
            })
            &&& *final(referrer_stats) == (if records_referrer(*old(user_stats), referrer, *old(referrer_stats)) {
                Some(UserStats { is_referrer: true, ..old(referrer_stats).unwrap() })
            } else {
                *old(referrer_stats)
            })
        },
{
    if user_stats.number_of_sub_accounts == u16::MAX {
        return Err(ErrorCode::MathError);
    }
    let first = user_stats.number_of_sub_accounts_created == 0;
    let mut new_referrer: [u8; 32] = user_stats.referrer;
    let mut marks_referrer = false;
    if first {
        new_referrer = [0u8; 32];
        match (referrer, &*referrer_stats) {
            (Some(referrer_user), Some(stats)) => {
                if referrer_user.sub_account_id != 0 {
                    return Err(ErrorCode::InvalidReferrer);
                }
                if !keys_equal(&referrer_user.authority, &stats.authority) {
                    return Err(ErrorCode::ReferrerAndReferrerStatsAuthorityUnequal);
                }
                new_referrer = referrer_user.authority;
                marks_referrer = true;
            },
            _ => {},
        }
    }
    if sub_account_id != user_stats.number_of_sub_accounts_created {
        return Err(ErrorCode::InvalidUserSubAccountId);
    }
    if user_stats.number_of_sub_accounts_created == u16::MAX || state.number_of_sub_accounts == u64::MAX {
        return Err(ErrorCode::MathError);
    }
    let number_of_sub_accounts = state.number_of_sub_accounts + 1;
    let max_number_of_sub_accounts = state.max_number_of_sub_accounts();
    if max_number_of_sub_accounts != 0 && number_of_sub_accounts > max_number_of_sub_accounts {
        return Err(ErrorCode::MaxNumberOfUsers);
    }
    state.number_of_sub_accounts = number_of_sub_accounts;
    let init_fee = match state.get_init_user_fee() {
        Ok(fee) => fee,
        Err(e) => {
            state.number_of_sub_accounts = number_of_sub_accounts - 1;
            return Err(e);
        },
    };
    if init_fee > 0 && payer_lamports < init_fee {
        state.number_of_sub_accounts = number_of_sub_accounts - 1;
        return Err(ErrorCode::CantPayUserInitFee);
    }
    user.authority = authority;
    user.sub_account_id = sub_account_id;
    user.name = name;
    user_stats.number_of_sub_accounts = user_stats.number_of_sub_accounts + 1;
    user_stats.referrer = new_referrer;
    user_stats.number_of_sub_accounts_created = user_stats.number_of_sub_accounts_created + 1;
    if marks_referrer {
        let mut stats = referrer_stats.unwrap();
        stats.is_referrer = true;
        *referrer_stats = Some(stats);
    }
    Ok(init_fee)
}

/// Creates the statistics account of a new authority and counts the authority.
pub fn handle_initialize_user_stats(state: &mut State, authority: [u8; 32]) -> (r: NormalResult<UserStats>)
    ensures
        old(state).number_of_authorities == u64::MAX ==> r == Err::<UserStats, ErrorCode>(ErrorCode::MathError),
        old(state).number_of_authorities < u64::MAX && spec_max_number_of_sub_accounts(old(state).max_number_of_sub_accounts) != 0
            && old(state).number_of_authorities + 1 > spec_max_number_of_sub_accounts(old(state).max_number_of_sub_accounts)
            ==> r == Err::<UserStats, ErrorCode>(ErrorCode::MaxNumberOfUsers),
        r is Err ==> *final(state) == *old(state),
        r matches Ok(stats) ==> {
            &&& *final(state) == (State { number_of_authorities: (old(state).number_of_authorities + 1) as u64, ..*old(state) })
            &&& stats.authority == authority
            &&& stats.number_of_sub_accounts == 0
            &&& stats.number_of_sub_accounts_created == 0
            &&& stats.referrer@ == empty_key()
            &&& !stats.is_referrer
        },
        old(state).number_of_authorities < u64::MAX && (spec_max_number_of_sub_accounts(old(state).max_number_of_sub_accounts) == 0
            || old(state).number_of_authorities + 1 <= spec_max_number_of_sub_accounts(old(state).max_number_of_sub_accounts))
            ==> r is Ok,
{
    let user_stats = UserStats::new(authority);
    if state.number_of_authorities == u64::MAX {
        return Err(ErrorCode::MathError);
    }
    let number_of_authorities = state.number_of_authorities + 1;
    let max_number_of_sub_accounts = state.max_number_of_sub_accounts();
    if max_number_of_sub_accounts != 0 && number_of_authorities > max_number_of_sub_accounts {
        return Err(ErrorCode::MaxNumberOfUsers);
    }
    state.number_of_authorities = number_of_authorities;
    Ok(user_stats)
}

/// Counts a deleted sub account out of the authority's statistics and the protocol's total.
/// Sub account 0 of a referrer cannot be deleted: that is refused with `UserCantBeDeleted`
/// and nothing changes.
pub fn handle_delete_user(user: &User, user_stats: &mut UserStats, state: &mut State) -> (r: NormalResult<()>)
    ensures
        old(user_stats).is_referrer && user.sub_account_id == 0
            ==> r == Err::<(), ErrorCode>(ErrorCode::UserCantBeDeleted),
        !(old(user_stats).is_referrer && user.sub_account_id == 0)
            && (old(user_stats).number_of_sub_accounts == 0 || old(state).number_of_sub_accounts == 0)
            ==> r == Err::<(), ErrorCode>(ErrorCode::MathError),
        r is Ok <==> !(old(user_stats).is_referrer && user.sub_account_id == 0)
            && old(user_stats).number_of_sub_accounts > 0 && old(state).number_of_sub_accounts > 0,
        r is Err ==> *final(user_stats) == *old(user_stats) && *final(state) == *old(state),
        r is Ok ==> *final(user_stats) == (UserStats {
                number_of_sub_accounts: (old(user_stats).number_of_sub_accounts - 1) as u16,
                ..*old(user_stats)
            })
            && *final(state) == (State { number_of_sub_accounts: (old(state).number_of_sub_accounts - 1) as u64, ..*old(state) }),
{
    if user_stats.is_referrer && user.sub_account_id == 0 {
        return Err(ErrorCode::UserCantBeDeleted);
    }
    if user_stats.number_of_sub_accounts == 0 || state.number_of_sub_accounts == 0 {
        return Err(ErrorCode::MathError);
    }
    user_stats.number_of_sub_accounts = user_stats.number_of_sub_accounts - 1;
    state.number_of_sub_accounts = state.number_of_sub_accounts - 1;
    Ok(())
}

pub open spec fn spec_stats_age(user_stats: UserStats, now: i64) -> int {
    max_int(0, min_int(i64::MAX as int, now - min_int(min_int(user_stats.last_filler_volume_30d_ts as int,
        user_stats.last_maker_volume_30d_ts as int), user_stats.last_taker_volume_30d_ts as int)))
}

/// Hands the lamports of a user account above its rent exempt minimum back to the authority:
/// returns the amount reclaimed. Refused when there is nothing to reclaim, or when sub accounts
/// are limited and the statistics are younger than thirteen days.
pub fn handle_reclaim_rent(
    current_lamports: u64,
    minimum_lamports: u64,
    state: &State,
    user_stats: &UserStats,
    now: i64,
) -> (r: NormalResult<u64>)
    ensures
        current_lamports <= minimum_lamports ==> r == Err::<u64, ErrorCode>(ErrorCode::CantReclaimRent),
        current_lamports > minimum_lamports && spec_max_number_of_sub_accounts(state.max_number_of_sub_accounts) != 0
            && spec_stats_age(*user_stats, now) < THIRTEEN_DAY ==> r == Err::<u64, ErrorCode>(ErrorCode::CantReclaimRent),
        current_lamports > minimum_lamports && (spec_max_number_of_sub_accounts(state.max_number_of_sub_accounts) == 0
            || spec_stats_age(*user_stats, now) >= THIRTEEN_DAY) ==> r == Ok::<u64, ErrorCode>((current_lamports - minimum_lamports) as u64),
{
    let reclaim_amount = current_lamports.saturating_sub(minimum_lamports);
    if reclaim_amount == 0 {
        return Err(ErrorCode::CantReclaimRent);
    }
    let max_sub_accounts = state.max_number_of_sub_accounts();
    let estimated_user_stats_age = user_stats.get_age_ts(now);
    if !(max_sub_accounts == 0 || estimated_user_stats_age >= THIRTEEN_DAY) {
        return Err(ErrorCode::CantReclaimRent);
    }
    Ok(reclaim_amount)
}

/// Sets or clears the reduce only flag; refused while the user is being liquidated.
pub fn handle_update_user_reduce_only(user: &mut User, reduce_only: bool) -> (r: NormalResult<()>)
    ensures
        spec_is_being_liquidated(old(user).status) ==> r == Err::<(), ErrorCode>(ErrorCode::LiquidationsOngoing)
            && *final(user) == *old(user),
        !spec_is_being_liquidated(old(user).status) ==> r is Ok && *final(user) == (User {
            status: if reduce_only { old(user).status | 4u8 } else { old(user).status & !4u8 },
            ..*old(user)
        }),
{
    if user.is_being_liquidated() {
        return Err(ErrorCode::LiquidationsOngoing);
    }
    user.update_reduce_only_status(reduce_only)
}

pub fn handle_update_user_delegate(user: &mut User, delegate: [u8; 32])
    ensures
        *final(user) == (User { delegate, ..*old(user) }),
{
    user.delegate = delegate;
}

pub fn handle_update_user_custom_margin_ratio(user: &mut User, margin_ratio: u32)
    ensures
        *final(user) == (User { max_margin_ratio: margin_ratio, ..*old(user) }),
{
    user.max_margin_ratio = margin_ratio;
}

/// Marks the user idle.
pub fn handle_update_user_idle(user: &mut User)
    ensures
        *final(user) == (User { idle: true, ..*old(user) }),
{
    user.idle = true;
}

/// Registers the name of a referrer; only sub account 0 can be a referrer.
pub fn handle_initialize_referrer_name(
    user: &User,
    authority: [u8; 32],
    user_key: [u8; 32],
    user_stats_key: [u8; 32],
    name: [u8; 32],
) -> (r: NormalResult<ReferrerName>)
    ensures
        user.sub_account_id != 0 ==> r == Err::<ReferrerName, ErrorCode>(ErrorCode::InvalidReferrer),
        user.sub_account_id == 0 ==> r == Ok::<ReferrerName, ErrorCode>(
            ReferrerName { authority, user: user_key, user_stats: user_stats_key, name }),
{
    if user.sub_account_id != 0 {
        return Err(ErrorCode::InvalidReferrer);
    }
    Ok(ReferrerName { authority, user: user_key, user_stats: user_stats_key, name })
}

} // verus!
