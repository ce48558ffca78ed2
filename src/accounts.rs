use vstd::prelude::*;

use crate::identity::Identity;

verus! {

/// Deployment-wide settings, created once by the deploying authority.
#[derive(Clone, Copy, Debug)]
pub struct Config {
    pub authority: Identity,
    pub total_users: u64,
    pub bump: u8,
    pub reward_mint: Identity,
    pub mint_bump: u8,
    pub mint_auth_bump: u8,
    pub decimals: u8,
}

impl Config {
    /// Stored size in bytes, without the account discriminator.
    pub const LEN: usize = 32 + 8 + 1 + 32 + 1 + 1 + 1;
}

/// One user's reported usage: the cumulative minutes seen so far.
#[derive(Clone, Copy, Debug)]
pub struct UserData {
    pub user: Identity,
    pub lifetime_minutes: u64,
    pub last_updated: i64,
    pub bump: u8,
}

impl UserData {
    /// Stored size in bytes, without the account discriminator.
    pub const LEN: usize = 32 + 8 + 8 + 1;

    /// A record that has just been allocated: every field is zero.
    pub fn empty() -> (r: UserData)
        ensures
            r.user.is_zero(),
            r.lifetime_minutes == 0,
            r.last_updated == 0,
            r.bump == 0,
    {
        UserData { user: Identity::zero(), lifetime_minutes: 0, last_updated: 0, bump: 0 }
    }
}

/// A user's public profile: four bounded text fields.
#[derive(Clone, Debug)]
pub struct UserProfile {
    pub user: Identity,
    pub nickname: String,
    pub tg: String,
    pub x_handle: String,
    pub avatar_cid: String,
    pub bump: u8,
}

impl UserProfile {
    pub const MAX_NICK: u32 = 32;
    pub const MAX_TG: u32 = 64;
    pub const MAX_X: u32 = 64;
    pub const MAX_CID: u32 = 100;

    /// Stored size in bytes, without the account discriminator: the owner,
    /// four length-prefixed strings at their maximum, and the bump.
    pub const LEN: usize = 32 + (4 + 32) + (4 + 64) + (4 + 64) + (4 + 100) + 1;

    /// A profile that has just been allocated: no owner and empty fields.
    pub fn empty() -> (r: UserProfile)
        ensures
            r.user.is_zero(),
            r.nickname@.len() == 0,
            r.tg@.len() == 0,
            r.x_handle@.len() == 0,
            r.avatar_cid@.len() == 0,
            r.bump == 0,
    {
        UserProfile {
            user: Identity::zero(),
            nickname: String::new(),
            tg: String::new(),
            x_handle: String::new(),
            avatar_cid: String::new(),
            bump: 0,
        }
    }
}

/// Why an operation was rejected. A rejected operation changes nothing.
#[derive(Clone, Copy, Debug, PartialEq, Eq, Structural)]
pub enum RewardsError {
    /// The reported cumulative minutes do not move past the stored, nonzero
    /// baseline.
    AlreadyClaimed,
    /// A profile field is longer than its maximum.
    FieldTooLong,
    /// The caller does not own the profile.
    Unauthorized,
}

impl RewardsError {
    /// The message shown for this error.
    pub fn message(&self) -> (r: &'static str)
        ensures
            r@ == (match self {
                RewardsError::AlreadyClaimed => "Vape rewards already claimed: you can't travel backwards in time"@,
                RewardsError::FieldTooLong => "Provided field exceeds maximum length"@,
                RewardsError::Unauthorized => "Unauthorized"@,
            }),
    {
        match self {
            RewardsError::AlreadyClaimed => "Vape rewards already claimed: you can't travel backwards in time",
            RewardsError::FieldTooLong => "Provided field exceeds maximum length",
            RewardsError::Unauthorized => "Unauthorized",
        }
    }
}

} // verus!
