use vstd::prelude::*;

use crate::error::{ConduitError, ConduitResult};
use crate::find::{find_first, lemma_find_first, lemma_find_first_is, lemma_find_first_none};
use crate::strutil::str_eq;

verus! {

/// The outward user representation, carrying a freshly issued session token.
#[derive(Debug, PartialEq)]
pub struct User {
    pub email: String,
    pub token: String,
    pub username: String,
    pub bio: String,
    pub image: Option<String>,
}

#[derive(Debug)]
pub struct RegisterUserReq {
    pub user: NewUser,
}

#[derive(Debug)]
pub struct RegisterUserRes {
    pub user: User,
}

/// A registration payload as deserialized: every field may still be absent.
#[derive(Debug, PartialEq)]
pub struct NewUser {
    pub username: Option<String>,
    pub email: Option<String>,
    pub password: Option<String>,
}

/// A registration payload whose password has already been hashed.
/// Never construct one from a plaintext password.
#[derive(Debug)]
pub struct PasswdHashedNewUser {
    pub username: String,
    pub email: String,
    pub password: String,
}

impl PasswdHashedNewUser {
    pub fn new(username: String, email: String, password: String) -> (r: Self)
        ensures
            r.username == username,
            r.email == email,
            r.password == password,
    {
        Self { username, email, password }
    }
}

impl Clone for PasswdHashedNewUser {
    fn clone(&self) -> (r: Self)
        ensures
            r == *self,
    {
        PasswdHashedNewUser {
            username: self.username.clone(),
            email: self.email.clone(),
            password: self.password.clone(),
        }
    }
}

#[derive(Debug)]
pub struct LoginUserReq {
    pub user: LoginUser,
}

#[derive(Debug)]
pub struct LoginUserRes {
    pub user: User,
}

#[derive(Debug)]
pub struct LoginUser {
    pub email: Option<String>,
    pub password: Option<String>,
}

#[derive(Debug)]
pub struct GetUserRes {
    pub user: User,
}

#[derive(Debug)]
pub struct UpdateUserReq {
    pub user: UpdateUser,
}

#[derive(Debug)]
pub struct UpdateUserRes {
    pub user: User,
}

/// A partial user update: absent fields keep their prior values.
#[derive(Debug)]
pub struct UpdateUser {
    pub email: Option<String>,
    pub password: Option<String>,
    pub username: Option<String>,
    pub bio: Option<String>,
    pub image: Option<String>,
}

/// A stored user row.
#[derive(Debug, PartialEq)]
pub struct UserEntity {
    pub id: u64,
    pub created_at: u64,
    pub updated_at: u64,
    pub username: String,
    pub email: String,
    pub password: String,
    pub bio: String,
    pub image: Option<String>,
}

impl Clone for UserEntity {
    fn clone(&self) -> (r: Self)
        ensures
            r == *self,
    {
        UserEntity {
            id: self.id,
            created_at: self.created_at,
            updated_at: self.updated_at,
            username: self.username.clone(),
            email: self.email.clone(),
            password: self.password.clone(),
            bio: self.bio.clone(),
            image: match &self.image {
                Some(s) => Some(s.clone()),
                None => None,
            },
        }
    }
}

impl UserEntity {
    /// The outward view of this user, with the given session token.
    pub fn into_dto_with_generated_token(self, token: String) -> (r: User)
        ensures
            r.email == self.email,
            r.username == self.username,
            r.bio == self.bio,
            r.image == self.image,
            r.token == token,
    {
        User {
            email: self.email,
            username: self.username,
            bio: self.bio,
            image: self.image,
            token,
        }
    }

    /// Applies a partial update: present fields replace, absent fields keep
    /// their prior values; identity and timestamps are untouched.
    pub fn update_user_entity(self, update_user: UpdateUser) -> (r: Self)
        ensures
            r == apply_user_update(self, update_user),
    {
        let old_self_image = self.image;
        UserEntity {
            id: self.id,
            created_at: self.created_at,
            updated_at: self.updated_at,
            email: match update_user.email {
                Some(e) => e,
                None => self.email,
            },
            password: match update_user.password {
                Some(p) => p,
                None => self.password,
            },
            username: match update_user.username {
                Some(u) => u,
                None => self.username,
            },
            bio: match update_user.bio {
                Some(b) => b,
                None => self.bio,
            },
            image: match update_user.image {
                Some(i) => Some(i),
                None => old_self_image,
            },
        }
    }
}

/// The row that results from applying a partial update to a user row.
pub open spec fn apply_user_update(e: UserEntity, u: UpdateUser) -> UserEntity {
    UserEntity {
        id: e.id,
        created_at: e.created_at,
        updated_at: e.updated_at,
        email: if u.email is Some { u.email->0 } else { e.email },
        password: if u.password is Some { u.password->0 } else { e.password },
        username: if u.username is Some { u.username->0 } else { e.username },
        bio: if u.bio is Some { u.bio->0 } else { e.bio },
        image: if u.image is Some { u.image } else { e.image },
    }
}

/// Index of the user row with this id.
pub open spec fn user_idx(rows: Seq<UserEntity>, id: u64) -> Option<int> {
    find_first(rows, |e: UserEntity| e.id == id)
}

/// Whether a row carries this email.
pub open spec fn email_is(e: UserEntity, email: Seq<char>) -> bool {
    e.email@ == email
}

/// Whether a row carries this username.
pub open spec fn username_is(e: UserEntity, username: Seq<char>) -> bool {
    e.username@ == username
}

/// Index of the first user row with this email.
pub open spec fn user_email_idx(rows: Seq<UserEntity>, email: Seq<char>) -> Option<int> {
    find_first(rows, |e: UserEntity| email_is(e, email))
}

/// Index of the first user row with this username.
pub open spec fn user_username_idx(rows: Seq<UserEntity>, username: Seq<char>) -> Option<int> {
    find_first(rows, |e: UserEntity| username_is(e, username))
}

/// The user rows.  Ids are unique and assigned from a counter that only
/// grows, so a deleted id is never reissued.
pub struct UserStore {
    pub rows: Vec<UserEntity>,
    pub next_id: u64,
}

impl UserStore {
    pub open spec fn wf(self) -> bool {
        &&& forall|i: int, j: int|
            0 <= i < j < self.rows@.len() ==> (#[trigger] self.rows@[i]).id != (
            #[trigger] self.rows@[j]).id
        &&& forall|i: int| 0 <= i < self.rows@.len() ==> (#[trigger] self.rows@[i]).id
            < self.next_id
    }

    pub fn new() -> (r: Self)
        ensures
            r.wf(),
            r.rows@ =~= Seq::<UserEntity>::empty(),
            r.next_id == 0,
    {
        UserStore { rows: Vec::new(), next_id: 0 }
    }

    /// Inserts a new user row.  The caller must hand over an already hashed
    /// password.
    pub fn create_user(&mut self, new_user: PasswdHashedNewUser, now: u64) -> (r: UserEntity)
        requires
            old(self).wf(),
            old(self).next_id < u64::MAX,
        ensures
            final(self).wf(),
            r.id == old(self).next_id,
            r.created_at == now,
            r.updated_at == now,
            r.username == new_user.username,
            r.email == new_user.email,
            r.password == new_user.password,
            r.bio@ =~= Seq::<char>::empty(),
            r.image is None,
            final(self).rows@ =~= old(self).rows@.push(r),
            final(self).next_id == old(self).next_id + 1,
    {
        let e = UserEntity {
            id: self.next_id,
            created_at: now,
            updated_at: now,
            username: new_user.username,
            email: new_user.email,
            password: new_user.password,
            bio: String::new(),
            image: None,
        };
        let r = e.clone();
        self.rows.push(e);
        self.next_id = self.next_id + 1;
        r
    }

    /// Looks a user up by id; absence is a `NotFound`.
    pub fn get_user_by_id(&self, user_id: u64) -> (r: ConduitResult<UserEntity>)
        ensures
            match user_idx(self.rows@, user_id) {
                Some(i) => r matches Ok(u) && u == self.rows@[i],
                None => r matches Err(e) && e matches ConduitError::NotFound(m) && m@
                    == "user not found"@,
            },
    {
        let n = self.rows.len();
        let mut i: usize = 0;
        while i < n
            invariant
                0 <= i <= n,
                n == self.rows@.len(),
                forall|j: int| 0 <= j < i ==> (#[trigger] self.rows@[j]).id != user_id,
            decreases n - i,
        {
            if self.rows[i].id == user_id {
                proof {
                    lemma_find_first_is(self.rows@, |e: UserEntity| e.id == user_id, i as int);
                }
                return Ok(self.rows[i].clone());
            }
            i += 1;
        }
        proof {
            lemma_find_first_none(self.rows@, |e: UserEntity| e.id == user_id);
        }
        Err(ConduitError::NotFound(String::from_str("user not found")))
    }

    /// Looks a user up by email; `None` when no row has it.
    pub fn get_user_by_email(&self, email: &str) -> (r: Option<UserEntity>)
        ensures
            match user_email_idx(self.rows@, email@) {
                Some(i) => r matches Some(u) && u == self.rows@[i],
                None => r is None,
            },
    {
        let n = self.rows.len();
        let mut i: usize = 0;
        while i < n
            invariant
                0 <= i <= n,
                n == self.rows@.len(),
                forall|j: int| 0 <= j < i ==> (#[trigger] self.rows@[j]).email@ != email@,
            decreases n - i,
        {
            if str_eq(self.rows[i].email.as_str(), email) {
                proof {
                    lemma_find_first_is(self.rows@, |e: UserEntity| email_is(e, email@), i as int);
                }
                return Some(self.rows[i].clone());
            }
            i += 1;
        }
        proof {
            lemma_find_first_none(self.rows@, |e: UserEntity| email_is(e, email@));
        }
        None
    }

    /// Looks a user up by username; `None` when no row has it.
    pub fn get_user_by_username(&self, username: &str) -> (r: Option<UserEntity>)
        ensures
            match user_username_idx(self.rows@, username@) {
                Some(i) => r matches Some(u) && u == self.rows@[i],
                None => r is None,
            },
    {
        let n = self.rows.len();
        let mut i: usize = 0;
        while i < n
            invariant
                0 <= i <= n,
                n == self.rows@.len(),
                forall|j: int| 0 <= j < i ==> (#[trigger] self.rows@[j]).username@ != username@,
            decreases n - i,
        {
            if str_eq(self.rows[i].username.as_str(), username) {
                proof {
                    lemma_find_first_is(self.rows@, |e: UserEntity| username_is(e, username@), i as int);
                }
                return Some(self.rows[i].clone());
            }
            i += 1;
        }
        proof {
            lemma_find_first_none(self.rows@, |e: UserEntity| username_is(e, username@));
        }
        None
    }

    /// Sets the profile fields — username, email, bio, image, password —
    /// of the row that has `user.id` to the argument's values.  Identity
    /// and the stored timestamps survive whatever the argument carries;
    /// absence is a `NotFound`.
    pub fn update_user(&mut self, user: UserEntity) -> (r: ConduitResult<UserEntity>)
        requires
            old(self).wf(),
        ensures
            final(self).wf(),
            final(self).next_id == old(self).next_id,
            match user_idx(old(self).rows@, user.id) {
                Some(i) => r matches Ok(u) && u == profile_updated(old(self).rows@[i], user)
                    && final(self).rows@ =~= old(self).rows@.update(i, u),
                None => r matches Err(e) && e matches ConduitError::NotFound(m) && m@
                    == "user not found"@ && *final(self) == *old(self),
            },
    {
        let n = self.rows.len();
        let mut i: usize = 0;
        while i < n
            invariant
                0 <= i <= n,
                n == self.rows@.len(),
                *self == *old(self),
                old(self).wf(),
                forall|j: int| 0 <= j < i ==> (#[trigger] self.rows@[j]).id != user.id,
            decreases n - i,
        {
            if self.rows[i].id == user.id {
                proof {
                    lemma_find_first_is(self.rows@, |e: UserEntity| e.id == user.id, i as int);
                }
                let merged = UserEntity {
                    id: self.rows[i].id,
                    created_at: self.rows[i].created_at,
                    updated_at: self.rows[i].updated_at,
                    username: user.username,
                    email: user.email,
                    password: user.password,
                    bio: user.bio,
                    image: user.image,
                };
                let r = merged.clone();
                let ghost prev = self.rows@;
                self.rows.set(i, merged);
                proof {
                    assert(self.rows@ =~= prev.update(i as int, r));
                }
                return Ok(r);
            }
            i += 1;
        }
        proof {
            lemma_find_first_none(self.rows@, |e: UserEntity| e.id == user.id);
        }
        Err(ConduitError::NotFound(String::from_str("user not found")))
    }
}

/// The row a profile update produces: identity and timestamps from the
/// stored row, the profile fields from the argument.
pub open spec fn profile_updated(stored: UserEntity, user: UserEntity) -> UserEntity {
    UserEntity {
        id: stored.id,
        created_at: stored.created_at,
        updated_at: stored.updated_at,
        username: user.username,
        email: user.email,
        password: user.password,
        bio: user.bio,
        image: user.image,
    }
}

} // verus!
