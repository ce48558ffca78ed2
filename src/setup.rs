use vstd::prelude::*;

use crate::accounts::{Config, RewardsError};
use crate::identity::Identity;

verus! {

/// The accounts that creating the configuration writes.
#[derive(Clone, Copy, Debug)]
pub struct InitializeConfig {
    /// The deploying authority, who signs.
    pub authority: Identity,
    /// The configuration just allocated at its derived address.
    pub config: Config,
    /// The canonical bump of the configuration's derived address.
    pub config_bump: u8,
}

/// The accounts that creating the reward token reads and writes.
#[derive(Clone, Copy, Debug)]
pub struct InitializeRewardMint {
    /// Who pays for the new token, and signs.
    pub payer: Identity,
    pub config: Config,
    /// The address of the token just created.
    pub reward_mint: Identity,
    /// The canonical bump of the token's derived address.
    pub reward_mint_bump: u8,
    /// The canonical bump of the minting authority's derived address.
    pub mint_auth_bump: u8,
}

/// Fills the new configuration: the caller becomes the authority, no users
/// are counted, and the token fields are left unset (zero).
pub fn initialize_config(ctx: &mut InitializeConfig) -> (r: Result<(), RewardsError>)
    ensures
        r is Ok,
        final(ctx).config.authority == old(ctx).authority,
        final(ctx).config.total_users == 0,
        final(ctx).config.bump == old(ctx).config_bump,
        final(ctx).config.reward_mint.is_zero(),
        final(ctx).config.mint_bump == 0,
        final(ctx).config.mint_auth_bump == 0,
        final(ctx).config.decimals == 0,
        final(ctx).authority == old(ctx).authority,
        final(ctx).config_bump == old(ctx).config_bump,
{
    ctx.config.authority = ctx.authority;
    ctx.config.total_users = 0;
    ctx.config.bump = ctx.config_bump;
    ctx.config.reward_mint = Identity::zero();
    ctx.config.mint_bump = 0;
    ctx.config.mint_auth_bump = 0;
    ctx.config.decimals = 0;
    Ok(())
}

/// Records the newly created reward token in the configuration: its
/// address, the bumps of its address and of its minting authority, and its
/// decimal precision. The authority, user count and own bump stay.
pub fn initialize_reward_mint(ctx: &mut InitializeRewardMint, decimals: u8) -> (r: Result<
    (),
    RewardsError,
>)
    ensures
        r is Ok,
        final(ctx).config == (Config {
            reward_mint: old(ctx).reward_mint,
            mint_bump: old(ctx).reward_mint_bump,
            mint_auth_bump: old(ctx).mint_auth_bump,
            decimals,
            ..old(ctx).config
        }),
        final(ctx).payer == old(ctx).payer,
        final(ctx).reward_mint == old(ctx).reward_mint,
        final(ctx).reward_mint_bump == old(ctx).reward_mint_bump,
        final(ctx).mint_auth_bump == old(ctx).mint_auth_bump,
{
    ctx.config.reward_mint = ctx.reward_mint;
    ctx.config.mint_bump = ctx.reward_mint_bump;
    ctx.config.mint_auth_bump = ctx.mint_auth_bump;
    ctx.config.decimals = decimals;
    Ok(())
}

} // verus!
