use vstd::prelude::*;

use crate::accounts::{Config, RewardsError, UserData};
use crate::identity::Identity;

verus! {

/// Ten to the power `e`.
pub open spec fn ten_pow(e: nat) -> nat
    decreases e,
{
    if e == 0 {
        1
    } else {
        10 * ten_pow((e - 1) as nat)
    }
}

/// `x` when it fits in a `u64`, else `u64::MAX`.
pub open spec fn cap_u64(x: int) -> u64 {
    if x > u64::MAX as int {
        u64::MAX
    } else if x < 0 {
        0
    } else {
        x as u64
    }
}

/// Base units of the reward token owed for `delta` new minutes: the minutes
/// scaled by `10^decimals`, saturating at `u64::MAX`.
pub open spec fn mint_amount(delta: u64, decimals: u8) -> u64 {
    cap_u64(delta as int * ten_pow(decimals as nat) as int)
}

/// Whether a report of `minutes` cumulative minutes is accepted against the
/// stored baseline: a nonzero baseline must be strictly exceeded, a zero one
/// takes any value.
pub open spec fn accepts(stored: u64, minutes: u64) -> bool {
    stored == 0 || minutes > stored
}

/// A request to mint `amount` base units of the reward token to the user,
/// signed by the program's minting authority (derived with `mint_auth_bump`).
#[derive(Clone, Copy, Debug, PartialEq, Eq, Structural)]
pub struct MintOrder {
    pub amount: u64,
    pub mint_auth_bump: u8,
}

/// What minting `delta` new minutes under `config` asks of the token service:
/// nothing for a zero delta, else one mint of the scaled amount.
pub open spec fn mint_order_for(delta: u64, config: Config) -> Option<MintOrder> {
    if delta == 0 {
        None
    } else {
        Some(MintOrder { amount: mint_amount(delta, config.decimals), mint_auth_bump: config.mint_auth_bump })
    }
}

/// `10^exp`, saturating at `u64::MAX`.
pub fn pow10(exp: u32) -> (r: u64)
    ensures
        r == cap_u64(ten_pow(exp as nat) as int),
{
    let mut r: u64 = 1;
    let mut saturated: bool = false;
    let mut i: u32 = 0;
    while i < exp
        invariant
            i <= exp,
            saturated ==> r == u64::MAX && ten_pow(i as nat) > u64::MAX,
            !saturated ==> r as nat == ten_pow(i as nat),
        decreases exp - i,
    {
        proof {
            assert(ten_pow((i + 1) as nat) == 10 * ten_pow(i as nat));
        }
        if !saturated {
            match r.checked_mul(10) {
                Some(v) => {
                    r = v;
                },
                None => {
                    r = u64::MAX;
                    saturated = true;
                },
            }
        }
        i = i + 1;
    }
    r
}

/// The mint request for `delta_minutes` newly reported minutes: none for a
/// zero delta, else the minutes scaled by `10^decimals`, saturating at
/// `u64::MAX`.
pub fn mint_delta_to_user(delta_minutes: u64, config: &Config) -> (r: Option<MintOrder>)
    ensures
        r == mint_order_for(delta_minutes, *config),
{
    if delta_minutes == 0 {
        return None;
    }
    let scale = pow10(config.decimals as u32);
    let amount = match delta_minutes.checked_mul(scale) {
        Some(a) => a,
        None => u64::MAX,
    };
    proof {
        let t = ten_pow(config.decimals as nat) as int;
        let d = delta_minutes as int;
        if t > u64::MAX as int {
            assert(d * t > u64::MAX as int) by (nonlinear_arith)
                requires
                    d >= 1,
                    t > u64::MAX as int,
            ;
            assert(d * (u64::MAX as int) <= u64::MAX as int ==> d == 1) by (nonlinear_arith)
                requires
                    d >= 1,
            ;
        }
    }
    Some(MintOrder { amount, mint_auth_bump: config.mint_auth_bump })
}

/// The accounts that a report of cumulative minutes reads and writes, for a
/// user whose record may have just been allocated (all fields zero).
#[derive(Clone, Copy, Debug)]
pub struct SubscribeMinutes {
    /// The reporting user, who signs the report.
    pub user: Identity,
    /// The user's record.
    pub user_data: UserData,
    /// The canonical bump of the record's derived address.
    pub user_data_bump: u8,
    pub config: Config,
}

/// The accounts that a report of cumulative minutes reads and writes, for a
/// user whose record already exists.
#[derive(Clone, Copy, Debug)]
pub struct AddMinutes {
    /// The reporting user, who signs the report.
    pub user: Identity,
    /// The user's record.
    pub user_data: UserData,
    pub config: Config,
}

/// The minutes that an accepted report of `minutes` adds to `stored`.
pub open spec fn minutes_delta(stored: u64, minutes: u64) -> u64 {
    (minutes - stored) as u64
}

/// Records a report of `minutes` cumulative minutes at `timestamp`, creating
/// the user's record on first use. A nonzero stored total must be strictly
/// exceeded, else the report fails with `AlreadyClaimed` and nothing changes.
/// On success the record holds the user, `minutes` and `timestamp`, and the
/// result is the mint request for the new minutes (none when there are none).
pub fn subscribe_minutes(ctx: &mut SubscribeMinutes, minutes: u64, timestamp: i64) -> (r: Result<
    Option<MintOrder>,
    RewardsError,
>)
    ensures
        r is Ok <==> accepts(old(ctx).user_data.lifetime_minutes, minutes),
        match r {
            Ok(order) => {
                &&& final(ctx).user_data.user == old(ctx).user
                &&& final(ctx).user_data.lifetime_minutes == minutes
                &&& final(ctx).user_data.last_updated == timestamp
                &&& final(ctx).user_data.bump == (if old(ctx).user_data.bump == 0 {
                    old(ctx).user_data_bump
                } else {
                    old(ctx).user_data.bump
                })
                &&& final(ctx).user == old(ctx).user
                &&& final(ctx).user_data_bump == old(ctx).user_data_bump
                &&& final(ctx).config == old(ctx).config
                &&& order == mint_order_for(
                    minutes_delta(old(ctx).user_data.lifetime_minutes, minutes),
                    old(ctx).config,
                )
            },
            Err(e) => e == RewardsError::AlreadyClaimed && *final(ctx) == *old(ctx),
        },
{
    let stored = ctx.user_data.lifetime_minutes;
    let delta: u64;
    if stored > 0 {
        if minutes <= stored {
            return Err(RewardsError::AlreadyClaimed);
        }
        delta = minutes - stored;
    } else {
        delta = minutes;
    }
    ctx.user_data.user = ctx.user;
    ctx.user_data.lifetime_minutes = minutes;
    ctx.user_data.last_updated = timestamp;
    if ctx.user_data.bump == 0 {
        ctx.user_data.bump = ctx.user_data_bump;
    }
    Ok(mint_delta_to_user(delta, &ctx.config))
}

/// Records a report of `minutes` cumulative minutes at `timestamp` on an
/// existing record, under the same rule as `subscribe_minutes`: a nonzero
/// stored total must be strictly exceeded, else `AlreadyClaimed` and nothing
/// changes. On success the record holds `minutes` and `timestamp`, and the
/// result is the mint request for the new minutes.
pub fn add_minutes(ctx: &mut AddMinutes, minutes: u64, timestamp: i64) -> (r: Result<
    Option<MintOrder>,
    RewardsError,
>)
    ensures
        r is Ok <==> accepts(old(ctx).user_data.lifetime_minutes, minutes),
        match r {
            Ok(order) => {
                &&& final(ctx).user_data.user == old(ctx).user_data.user
                &&& final(ctx).user_data.lifetime_minutes == minutes
                &&& final(ctx).user_data.last_updated == timestamp
                &&& final(ctx).user_data.bump == old(ctx).user_data.bump
                &&& final(ctx).user == old(ctx).user
                &&& final(ctx).config == old(ctx).config
                &&& order == mint_order_for(
                    minutes_delta(old(ctx).user_data.lifetime_minutes, minutes),
                    old(ctx).config,
                )
            },
            Err(e) => e == RewardsError::AlreadyClaimed && *final(ctx) == *old(ctx),
        },
{
    let stored = ctx.user_data.lifetime_minutes;
    if stored > 0 && minutes <= stored {
        return Err(RewardsError::AlreadyClaimed);
    }
    let delta = minutes - stored;
    ctx.user_data.lifetime_minutes = minutes;
    ctx.user_data.last_updated = timestamp;
    Ok(mint_delta_to_user(delta, &ctx.config))
}

} // verus!
