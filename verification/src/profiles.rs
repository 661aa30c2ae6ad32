use vstd::prelude::*;

use crate::error::{ConduitError, ConduitResult};
use crate::find::{find_first, lemma_find_first_is, lemma_find_first_none};
use crate::users::UserEntity;

verus! {

/// The outward profile view of a user, relative to whoever is looking.
#[derive(Debug, PartialEq)]
pub struct Profile {
    pub username: String,
    pub bio: String,
    pub image: Option<String>,
    pub following: bool,
}

impl Clone for Profile {
    fn clone(&self) -> (r: Self)
        ensures
            r == *self,
    {
        Profile {
            username: self.username.clone(),
            bio: self.bio.clone(),
            image: match &self.image {
                Some(s) => Some(s.clone()),
                None => None,
            },
            following: self.following,
        }
    }
}

impl Profile {
    pub fn from_user_entity(user: UserEntity, following: bool) -> (r: Self)
        ensures
            r.username == user.username,
            r.bio == user.bio,
            r.image == user.image,
            r.following == following,
    {
        Self { username: user.username, bio: user.bio, image: user.image, following }
    }
}

#[derive(Debug)]
pub struct ProfileRes {
    pub profile: Profile,
}

/// A profile view whose image is never absent, only empty.
#[derive(Debug, PartialEq)]
pub struct PrifileDto {
    pub username: String,
    pub bio: String,
    pub image: String,
    pub following: bool,
}

/// A follow edge: `follower_id` subscribes to `followee_id`.
#[derive(Debug, Clone, Copy, PartialEq, Eq, Structural)]
pub struct UserFollowEntity {
    pub id: u64,
    pub created_at: u64,
    pub follower_id: u64,
    pub followee_id: u64,
}

/// Index of the follow edge for this ordered pair.
pub open spec fn follow_pair_idx(rows: Seq<UserFollowEntity>, follower_id: u64, followee_id: u64)
    -> Option<int> {
    find_first(rows, |e: UserFollowEntity| e.follower_id == follower_id && e.followee_id
        == followee_id)
}

/// The edges going out from one follower, in store order.
pub open spec fn followees_of(rows: Seq<UserFollowEntity>, follower_id: u64)
    -> Seq<UserFollowEntity> {
    rows.filter(|e: UserFollowEntity| e.follower_id == follower_id)
}

/// The follow edges.  At most one edge exists per ordered pair, and edge ids
/// are unique and assigned from a growing counter.
pub struct FollowStore {
    pub rows: Vec<UserFollowEntity>,
    pub next_id: u64,
}

impl FollowStore {
    pub open spec fn wf(self) -> bool {
        &&& forall|i: int, j: int|
            0 <= i < j < self.rows@.len() ==> !((#[trigger] self.rows@[i]).follower_id == (
            #[trigger] self.rows@[j]).follower_id && self.rows@[i].followee_id
                == self.rows@[j].followee_id)
        &&& forall|i: int| 0 <= i < self.rows@.len() ==> (#[trigger] self.rows@[i]).id
            < self.next_id
    }

    pub fn new() -> (r: Self)
        ensures
            r.wf(),
            r.rows@ =~= Seq::<UserFollowEntity>::empty(),
            r.next_id == 0,
    {
        FollowStore { rows: Vec::new(), next_id: 0 }
    }

    /// The edge for an ordered pair, if it exists.
    pub fn is_follow(&self, follower_id: u64, followee_id: u64) -> (r: Option<UserFollowEntity>)
        ensures
            match follow_pair_idx(self.rows@, follower_id, followee_id) {
                Some(i) => r == Some(self.rows@[i]),
                None => r is None,
            },
    {
        let n = self.rows.len();
        let mut i: usize = 0;
        while i < n
            invariant
                0 <= i <= n,
                n == self.rows@.len(),
                forall|j: int|
                    0 <= j < i ==> !((#[trigger] self.rows@[j]).follower_id == follower_id
                        && self.rows@[j].followee_id == followee_id),
            decreases n - i,
        {
            if self.rows[i].follower_id == follower_id && self.rows[i].followee_id == followee_id {
                proof {
                    lemma_find_first_is(self.rows@, |e: UserFollowEntity| e.follower_id
                        == follower_id && e.followee_id == followee_id, i as int);
                }
                return Some(self.rows[i]);
            }
            i += 1;
        }
        proof {
            lemma_find_first_none(self.rows@, |e: UserFollowEntity| e.follower_id == follower_id
                && e.followee_id == followee_id);
        }
        None
    }

    /// Every edge whose follower is the given user.
    pub fn get_user_followees(&self, follower_user_id: u64) -> (r: Vec<UserFollowEntity>)
        ensures
            r@ == followees_of(self.rows@, follower_user_id),
    {
        let mut r: Vec<UserFollowEntity> = Vec::new();
        let n = self.rows.len();
        let mut i: usize = 0;
        proof {
            reveal(Seq::filter);
            assert(self.rows@.subrange(0, 0) =~= Seq::<UserFollowEntity>::empty());
        }
        while i < n
            invariant
                0 <= i <= n,
                n == self.rows@.len(),
                r@ == self.rows@.subrange(0, i as int).filter(
                    |e: UserFollowEntity| e.follower_id == follower_user_id),
            decreases n - i,
        {
            proof {
                let pre = self.rows@.subrange(0, i as int);
                assert(self.rows@.subrange(0, i + 1) =~= pre.push(self.rows@[i as int]));
                pre.lemma_filter_push(self.rows@[i as int], |e: UserFollowEntity| e.follower_id
                    == follower_user_id);
            }
            if self.rows[i].follower_id == follower_user_id {
                r.push(self.rows[i]);
            }
            i += 1;
        }
        proof {
            assert(self.rows@.subrange(0, n as int) =~= self.rows@);
        }
        r
    }

    /// Records that `follower_id` follows `followee_id`.  A pair that is
    /// already present is left as it is, so a racing second follow cannot
    /// produce a duplicate edge; the existing edge is returned.
    pub fn following_user(&mut self, follower_id: u64, followee_id: u64, now: u64) -> (r:
        UserFollowEntity)
        requires
            old(self).wf(),
            old(self).next_id < u64::MAX,
        ensures
            final(self).wf(),
            r.follower_id == follower_id,
            r.followee_id == followee_id,
            match follow_pair_idx(old(self).rows@, follower_id, followee_id) {
                Some(i) => r == old(self).rows@[i] && *final(self) == *old(self),
                None => r == (UserFollowEntity {
                    id: old(self).next_id,
                    created_at: now,
                    follower_id,
                    followee_id,
                }) && final(self).rows@ =~= old(self).rows@.push(r) && final(self).next_id == old(
                    self).next_id + 1,
            },
    {
        let n = self.rows.len();
        let mut i: usize = 0;
        while i < n
            invariant
                0 <= i <= n,
                n == self.rows@.len(),
                *self == *old(self),
                old(self).wf(),
                old(self).next_id < u64::MAX,
                forall|j: int|
                    0 <= j < i ==> !((#[trigger] self.rows@[j]).follower_id == follower_id
                        && self.rows@[j].followee_id == followee_id),
            decreases n - i,
        {
            if self.rows[i].follower_id == follower_id && self.rows[i].followee_id == followee_id {
                proof {
                    lemma_find_first_is(self.rows@, |e: UserFollowEntity| e.follower_id
                        == follower_id && e.followee_id == followee_id, i as int);
                }
                return self.rows[i];
            }
            i += 1;
        }
        proof {
            lemma_find_first_none(self.rows@, |e: UserFollowEntity| e.follower_id == follower_id
                && e.followee_id == followee_id);
        }
        let e = UserFollowEntity { id: self.next_id, created_at: now, follower_id, followee_id };
        self.rows.push(e);
        self.next_id = self.next_id + 1;
        e
    }

    /// Deletes the edge for the pair, returning its snapshot; `NotFound`
    /// when no such edge exists.
    pub fn unfollow_user(&mut self, follower_id: u64, followee_id: u64) -> (r: ConduitResult<
        UserFollowEntity>)
        requires
            old(self).wf(),
        ensures
            final(self).wf(),
            match follow_pair_idx(old(self).rows@, follower_id, followee_id) {
                Some(i) => r matches Ok(e) && e == old(self).rows@[i] && final(self).rows@ =~= old(
                    self).rows@.remove(i) && final(self).next_id == old(self).next_id,
                None => r matches Err(e) && e matches ConduitError::NotFound(m) && m@
                    == "follow not found"@ && *final(self) == *old(self),
            },
    {
        let n = self.rows.len();
        let mut i: usize = 0;
        while i < n
            invariant
                0 <= i <= n,
                n == self.rows@.len(),
                *self == *old(self),
                old(self).wf(),
                forall|j: int|
                    0 <= j < i ==> !((#[trigger] self.rows@[j]).follower_id == follower_id
                        && self.rows@[j].followee_id == followee_id),
            decreases n - i,
        {
            if self.rows[i].follower_id == follower_id && self.rows[i].followee_id == followee_id {
                proof {
                    lemma_find_first_is(self.rows@, |e: UserFollowEntity| e.follower_id
                        == follower_id && e.followee_id == followee_id, i as int);
                }
                let e = self.rows[i];
                let ghost prev = self.rows@;
                self.rows.remove(i);
                proof {
                    assert(self.rows@ =~= prev.remove(i as int));
                    assert forall|a: int, b: int|
                        0 <= a < b < self.rows@.len() implies !((#[trigger] self.rows@[a]).follower_id
                        == (#[trigger] self.rows@[b]).follower_id && self.rows@[a].followee_id
                        == self.rows@[b].followee_id) by {
                        let a0 = if a < i as int { a } else { a + 1 };
                        let b0 = if b < i as int { b } else { b + 1 };
                        assert(self.rows@[a] == prev[a0]);
                        assert(self.rows@[b] == prev[b0]);
                    }
                    assert forall|a: int| 0 <= a < self.rows@.len() implies (
                    #[trigger] self.rows@[a]).id < self.next_id by {
                        let a0 = if a < i as int { a } else { a + 1 };
                        assert(self.rows@[a] == prev[a0]);
                    }
                }
                return Ok(e);
            }
            i += 1;
        }
        proof {
            lemma_find_first_none(self.rows@, |e: UserFollowEntity| e.follower_id == follower_id
                && e.followee_id == followee_id);
        }
        Err(ConduitError::NotFound(String::from_str("follow not found")))
    }
}

} // verus!
