use vstd::prelude::*;

use crate::dao::Daos;
use crate::endpoints::common::{profile_matches, spec_following};
use crate::error::{ConduitError, ConduitResult};
use crate::profiles::{follow_pair_idx, Profile, ProfileRes, UserFollowEntity};
use crate::users::user_username_idx;

verus! {

/// The profile endpoints: following a user and reading a profile.
pub struct ProfileRouter;

impl ProfileRouter {
    /// Follows the named user.  The target is resolved first, so an
    /// unknown name is `NotFound`; an edge that already exists is left
    /// alone, and the returned profile reads `following` unconditionally.
    pub fn follow_user(daos: &mut Daos, username: &str, current_user_id: u64, now: u64) -> (r:
        ConduitResult<ProfileRes>)
        requires
            old(daos).wf(),
            old(daos).profiles.next_id < u64::MAX,
        ensures
            final(daos).wf(),
            final(daos).users == old(daos).users,
            final(daos).articles == old(daos).articles,
            final(daos).tags == old(daos).tags,
            final(daos).favorites == old(daos).favorites,
            match user_username_idx(old(daos).users.rows@, username@) {
                None => {
                    &&& (r matches Err(e) && e matches ConduitError::NotFound(m) && m@
                        == "user not found"@)
                    &&& *final(daos) == *old(daos)
                },
                Some(ui) => {
                    let target = old(daos).users.rows@[ui];
                    &&& (r matches Ok(res) && profile_matches(res.profile, target, true))
                    &&& match follow_pair_idx(old(daos).profiles.rows@, current_user_id,
                        target.id) {
                        Some(_) => final(daos).profiles == old(daos).profiles,
                        None => final(daos).profiles.rows@ =~= old(daos).profiles.rows@.push(
                            UserFollowEntity {
                                id: old(daos).profiles.next_id,
                                created_at: now,
                                follower_id: current_user_id,
                                followee_id: target.id,
                            },
                        ) && final(daos).profiles.next_id == old(daos).profiles.next_id + 1,
                    }
                },
            },
    {
        let target = match daos.users.get_user_by_username(username) {
            Some(u) => u,
            None => {
                return Err(ConduitError::NotFound(String::from_str("user not found")));
            },
        };
        match daos.profiles.is_follow(current_user_id, target.id) {
            Some(_) => {},
            None => {
                daos.profiles.following_user(current_user_id, target.id, now);
            },
        }
        let profile = Profile::from_user_entity(target, true);
        Ok(ProfileRes { profile })
    }

    /// Reads the named user's profile; the `following` flag is relative to
    /// the viewer, and an anonymous viewer never reads `following`.
    pub fn get_profile_by_username(daos: &Daos, username: &str, current_user_id: Option<u64>) -> (r:
        ConduitResult<ProfileRes>)
        ensures
            match user_username_idx(daos.users.rows@, username@) {
                None => r matches Err(e) && e matches ConduitError::NotFound(m) && m@
                    == "profile not found"@,
                Some(ui) => r matches Ok(res) && profile_matches(res.profile,
                    daos.users.rows@[ui], spec_following(daos.profiles.rows@, current_user_id,
                    daos.users.rows@[ui].id)),
            },
    {
        let target = match daos.users.get_user_by_username(username) {
            Some(u) => u,
            None => {
                return Err(ConduitError::NotFound(String::from_str("profile not found")));
            },
        };
        let following = match current_user_id {
            Some(cu) => daos.profiles.is_follow(cu, target.id).is_some(),
            None => false,
        };
        let profile = Profile::from_user_entity(target, following);
        Ok(ProfileRes { profile })
    }
}

} // verus!
