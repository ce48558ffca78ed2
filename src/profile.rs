use vstd::prelude::*;
use vstd::utf8::encode_utf8;

use crate::accounts::{RewardsError, UserProfile};
use crate::identity::Identity;

verus! {

/// Length of a text in UTF-8 code units (bytes).
pub open spec fn byte_len(s: Seq<char>) -> nat {
    encode_utf8(s).len()
}

/// Whether all four profile fields are within their maximum lengths.
pub open spec fn fields_fit(
    nickname: Seq<char>,
    tg: Seq<char>,
    x_handle: Seq<char>,
    avatar_cid: Seq<char>,
) -> bool {
    &&& byte_len(nickname) <= UserProfile::MAX_NICK
    &&& byte_len(tg) <= UserProfile::MAX_TG
    &&& byte_len(x_handle) <= UserProfile::MAX_X
    &&& byte_len(avatar_cid) <= UserProfile::MAX_CID
}

/// Whether `s` is at most `max` bytes long.
fn within(s: &String, max: u32) -> (r: bool)
    ensures
        r == (byte_len(s@) <= max),
{
    s.as_str().as_bytes().len() <= max as usize
}

fn all_fields_fit(nickname: &String, tg: &String, x_handle: &String, avatar_cid: &String) -> (r:
    bool)
    ensures
        r == fields_fit(nickname@, tg@, x_handle@, avatar_cid@),
{
    within(nickname, UserProfile::MAX_NICK) && within(tg, UserProfile::MAX_TG) && within(
        x_handle,
        UserProfile::MAX_X,
    ) && within(avatar_cid, UserProfile::MAX_CID)
}

/// The accounts that creating a profile writes: the caller and the profile
/// just allocated at the caller's derived address.
#[derive(Clone, Debug)]
pub struct CreateProfile {
    /// The caller, who signs and becomes the owner.
    pub user: Identity,
    pub user_profile: UserProfile,
    /// The canonical bump of the profile's derived address.
    pub user_profile_bump: u8,
}

/// The accounts that updating a profile reads and writes.
#[derive(Clone, Debug)]
pub struct SetProfile {
    /// The caller, who signs.
    pub user: Identity,
    pub user_profile: UserProfile,
}

/// Fills the caller's new profile. Fails with `FieldTooLong`, changing
/// nothing, when a field is over its maximum length.
pub fn create_profile(
    ctx: &mut CreateProfile,
    nickname: String,
    tg: String,
    x_handle: String,
    avatar_cid: String,
) -> (r: Result<(), RewardsError>)
    ensures
        r is Ok <==> fields_fit(nickname@, tg@, x_handle@, avatar_cid@),
        match r {
            Ok(_) => {
                &&& final(ctx).user_profile.user == old(ctx).user
                &&& final(ctx).user_profile.nickname@ == nickname@
                &&& final(ctx).user_profile.tg@ == tg@
                &&& final(ctx).user_profile.x_handle@ == x_handle@
                &&& final(ctx).user_profile.avatar_cid@ == avatar_cid@
                &&& final(ctx).user_profile.bump == old(ctx).user_profile_bump
                &&& final(ctx).user == old(ctx).user
                &&& final(ctx).user_profile_bump == old(ctx).user_profile_bump
            },
            Err(e) => e == RewardsError::FieldTooLong && *final(ctx) == *old(ctx),
        },
{
    if !all_fields_fit(&nickname, &tg, &x_handle, &avatar_cid) {
        return Err(RewardsError::FieldTooLong);
    }
    ctx.user_profile.user = ctx.user;
    ctx.user_profile.nickname = nickname;
    ctx.user_profile.tg = tg;
    ctx.user_profile.x_handle = x_handle;
    ctx.user_profile.avatar_cid = avatar_cid;
    ctx.user_profile.bump = ctx.user_profile_bump;
    Ok(())
}

/// Replaces the text fields of a profile. Fails with `FieldTooLong` when a
/// field is over its maximum length, else with `Unauthorized` when the caller
/// is not the profile's owner; a failure changes nothing.
pub fn set_profile(
    ctx: &mut SetProfile,
    nickname: String,
    tg: String,
    x_handle: String,
    avatar_cid: String,
) -> (r: Result<(), RewardsError>)
    ensures
        r is Ok <==> fields_fit(nickname@, tg@, x_handle@, avatar_cid@)
            && old(ctx).user_profile.user.bytes@ == old(ctx).user.bytes@,
        r == Err::<(), RewardsError>(RewardsError::FieldTooLong) <==> !fields_fit(
            nickname@,
            tg@,
            x_handle@,
            avatar_cid@,
        ),
        r == Err::<(), RewardsError>(RewardsError::Unauthorized) <==> fields_fit(
            nickname@,
            tg@,
            x_handle@,
            avatar_cid@,
        ) && old(ctx).user_profile.user.bytes@ != old(ctx).user.bytes@,
        match r {
            Ok(_) => {
                &&& final(ctx).user_profile.user == old(ctx).user_profile.user
                &&& final(ctx).user_profile.nickname@ == nickname@
                &&& final(ctx).user_profile.tg@ == tg@
                &&& final(ctx).user_profile.x_handle@ == x_handle@
                &&& final(ctx).user_profile.avatar_cid@ == avatar_cid@
                &&& final(ctx).user_profile.bump == old(ctx).user_profile.bump
                &&& final(ctx).user == old(ctx).user
            },
            Err(_) => *final(ctx) == *old(ctx),
        },
{
    if !all_fields_fit(&nickname, &tg, &x_handle, &avatar_cid) {
        return Err(RewardsError::FieldTooLong);
    }
    if !ctx.user_profile.user.same_as(&ctx.user) {
        return Err(RewardsError::Unauthorized);
    }
    ctx.user_profile.nickname = nickname;
    ctx.user_profile.tg = tg;
    ctx.user_profile.x_handle = x_handle;
    ctx.user_profile.avatar_cid = avatar_cid;
    Ok(())
}

} // verus!
