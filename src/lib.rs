//! Reward accounting for reported usage minutes: a cumulative counter per
//! user is turned into an incremental token mint, and each user may keep a
//! small text profile.
mod accounts;
mod identity;
mod laws;
mod minting;
mod profile;
mod setup;

pub use accounts::{Config, RewardsError, UserData, UserProfile};
pub use identity::Identity;
pub use laws::{after_reports, lifetime_minutes_never_decrease, minted_amount_is_scaled_delta};
pub use minting::{
    accepts, add_minutes, cap_u64, mint_amount, mint_delta_to_user, mint_order_for, minutes_delta,
    pow10, subscribe_minutes, ten_pow, AddMinutes, MintOrder, SubscribeMinutes,
};
pub use profile::{byte_len, create_profile, fields_fit, set_profile, CreateProfile, SetProfile};
pub use setup::{initialize_config, initialize_reward_mint, InitializeConfig, InitializeRewardMint};
