use vstd::prelude::*;

use crate::dao::Daos;
use crate::error::{ConduitError, ConduitResult};
use crate::find::lemma_find_first;
use crate::hash::{argon2_check_of, PasswordHashService};
use crate::jwt::{session_exp, token_chars, JwtService};
use crate::users::{apply_user_update, user_email_idx, user_idx, GetUserRes, LoginUserReq,
    LoginUserRes, RegisterUserReq, RegisterUserRes, UpdateUserReq, UpdateUserRes, User, UserEntity};
use crate::validation::{valid_login_user, valid_new_user, valid_update_user, validate_login,
    validate_register, validate_update_user};
use crate::AppState;

verus! {

/// Whether a user view presents this row, with this token.
pub open spec fn user_view_matches(v: User, e: UserEntity, token: Seq<char>) -> bool {
    &&& v.email@ == e.email@
    &&& v.username@ == e.username@
    &&& v.bio@ == e.bio@
    &&& (match (v.image, e.image) {
        (Some(a), Some(b)) => a@ == b@,
        (None, None) => true,
        _ => false,
    })
    &&& v.token@ == token
}

/// The user endpoints: registration, login, reading and updating the
/// current user.
pub struct UserRouter;

impl UserRouter {
    /// Registers a user: the payload is validated, an already registered
    /// email is refused as a `Conflict`, the password hashed, the row
    /// inserted, and a fresh session token returned.  Only a hashing
    /// mechanism failure stands in the way.
    pub fn register_user(state: &AppState, daos: &mut Daos, req: RegisterUserReq, now: u64) -> (r:
        ConduitResult<RegisterUserRes>)
        requires
            old(daos).wf(),
            old(daos).users.next_id < u64::MAX,
        ensures
            final(daos).wf(),
            final(daos).profiles == old(daos).profiles,
            final(daos).articles == old(daos).articles,
            final(daos).tags == old(daos).tags,
            final(daos).favorites == old(daos).favorites,
            if !valid_new_user(req.user) {
                &&& (r matches Err(e) && e matches ConduitError::ValidationError(m))
                &&& *final(daos) == *old(daos)
            } else if user_email_idx(old(daos).users.rows@, req.user.email->0@) is Some {
                &&& (r matches Err(e) && e matches ConduitError::Conflict(m) && m@
                    == "email already registered"@)
                &&& *final(daos) == *old(daos)
            } else {
                match r {
                    Ok(res) => {
                        let rows = final(daos).users.rows@;
                        &&& rows.len() == old(daos).users.rows@.len() + 1
                        &&& rows == old(daos).users.rows@.push(rows.last())
                        &&& rows.last().id == old(daos).users.next_id
                        &&& rows.last().created_at == now
                        &&& rows.last().updated_at == now
                        &&& rows.last().username@ == req.user.username->0@
                        &&& rows.last().email@ == req.user.email->0@
                        &&& argon2_check_of(rows.last().password@, req.user.password->0@)
                            == Some(true)
                        &&& rows.last().bio@ =~= Seq::<char>::empty()
                        &&& rows.last().image is None
                        &&& final(daos).users.next_id == old(daos).users.next_id + 1
                        &&& user_view_matches(res.user, rows.last(), token_chars(
                            state.jwt_secret@, old(daos).users.next_id, session_exp(now)))
                    },
                    Err(e) => e is CredentialHashFailure && *final(daos) == *old(daos),
                }
            },
    {
        validate_register(&req)?;
        match &req.user.email {
            Some(email) => {
                if daos.users.get_user_by_email(email.as_str()).is_some() {
                    return Err(ConduitError::Conflict(String::from_str(
                        "email already registered")));
                }
            },
            None => {},
        }
        let jwt = JwtService::new(state);
        let token = jwt.to_token(daos.users.next_id, now);
        let hashed = PasswordHashService::hash_password_newuser(req.user)?;
        let user_entity = daos.users.create_user(hashed, now);
        let user = user_entity.into_dto_with_generated_token(token);
        Ok(RegisterUserRes { user })
    }

    /// Reads the authenticated user, issuing a fresh session token.
    pub fn get_current_user(state: &AppState, daos: &Daos, user_id: u64, now: u64) -> (r:
        ConduitResult<GetUserRes>)
        ensures
            match user_idx(daos.users.rows@, user_id) {
                None => r matches Err(e) && e matches ConduitError::NotFound(m) && m@
                    == "user not found"@,
                Some(i) => r matches Ok(res) && user_view_matches(res.user,
                    daos.users.rows@[i], token_chars(state.jwt_secret@, user_id, session_exp(
                    now))),
            },
    {
        let user_entity = daos.users.get_user_by_id(user_id)?;
        proof {
            lemma_find_first(daos.users.rows@, |e: UserEntity| e.id == user_id);
        }
        let jwt = JwtService::new(state);
        let token = jwt.to_token(user_id, now);
        let user = user_entity.into_dto_with_generated_token(token);
        Ok(GetUserRes { user })
    }

    /// Logs a user in.  An unknown email and a wrong password yield one
    /// and the same invalid-login error; only a mechanism failure is
    /// reported differently.
    pub fn login_user(state: &AppState, daos: &Daos, req: LoginUserReq, now: u64) -> (r:
        ConduitResult<LoginUserRes>)
        ensures
            if !valid_login_user(req.user) {
                r matches Err(e) && e matches ConduitError::ValidationError(m)
            } else {
                match user_email_idx(daos.users.rows@, req.user.email->0@) {
                    None => r matches Err(e) && e is InvalidLogin,
                    Some(i) => {
                        let row = daos.users.rows@[i];
                        match argon2_check_of(row.password@, req.user.password->0@) {
                            Some(true) => r matches Ok(res) && user_view_matches(res.user, row,
                                token_chars(state.jwt_secret@, row.id, session_exp(now))),
                            Some(false) => r matches Err(e) && e is InvalidLogin,
                            None => r matches Err(e) && e is CredentialHashFailure,
                        }
                    },
                }
            },
    {
        validate_login(&req)?;
        let email = req.user.email.unwrap();
        let password = req.user.password.unwrap();
        let user_entity = match daos.users.get_user_by_email(email.as_str()) {
            Some(u) => u,
            None => {
                return Err(ConduitError::InvalidLogin);
            },
        };
        PasswordHashService::verify_password(user_entity.password.as_str(), password.as_str())?;
        let jwt = JwtService::new(state);
        let token = jwt.to_token(user_entity.id, now);
        let user = user_entity.into_dto_with_generated_token(token);
        Ok(LoginUserRes { user })
    }

    /// Updates the authenticated user: absent fields keep their prior
    /// values, and a supplied password is stored hashed, never plain.
    pub fn update_user(state: &AppState, daos: &mut Daos, user_id: u64, req: UpdateUserReq,
        now: u64) -> (r: ConduitResult<UpdateUserRes>)
        requires
            old(daos).wf(),
        ensures
            final(daos).wf(),
            final(daos).profiles == old(daos).profiles,
            final(daos).articles == old(daos).articles,
            final(daos).tags == old(daos).tags,
            final(daos).favorites == old(daos).favorites,
            if !valid_update_user(req.user) {
                &&& (r matches Err(e) && e matches ConduitError::ValidationError(m))
                &&& *final(daos) == *old(daos)
            } else {
                match user_idx(old(daos).users.rows@, user_id) {
                    None => {
                        &&& (r matches Err(e) && e matches ConduitError::NotFound(m) && m@
                            == "user not found"@)
                        &&& *final(daos) == *old(daos)
                    },
                    Some(i) => {
                        let base = apply_user_update(old(daos).users.rows@[i], req.user);
                        match r {
                            Ok(res) => {
                                let row = final(daos).users.rows@[i];
                                &&& final(daos).users.rows@ == old(daos).users.rows@.update(i,
                                    row)
                                &&& final(daos).users.next_id == old(daos).users.next_id
                                &&& row.id == base.id
                                &&& row.created_at == base.created_at
                                &&& row.updated_at == base.updated_at
                                &&& row.username == base.username
                                &&& row.email == base.email
                                &&& row.bio == base.bio
                                &&& row.image == base.image
                                &&& (if req.user.password is Some {
                                    argon2_check_of(row.password@, req.user.password->0@)
                                        == Some(true)
                                } else {
                                    row.password == base.password
                                })
                                &&& user_view_matches(res.user, row, token_chars(
                                    state.jwt_secret@, user_id, session_exp(now)))
                            },
                            Err(e) => e is CredentialHashFailure && *final(daos) == *old(daos),
                        }
                    },
                }
            },
    {
        validate_update_user(&req)?;
        let user_entity = daos.users.get_user_by_id(user_id)?;
        proof {
            lemma_find_first(daos.users.rows@, |e: UserEntity| e.id == user_id);
        }
        let jwt = JwtService::new(state);
        let token = jwt.to_token(user_id, now);
        let has_password = req.user.password.is_some();
        let updated = user_entity.update_user_entity(req.user);
        let updated = if has_password {
            PasswordHashService::hash_password_user(updated)?
        } else {
            updated
        };
        let stored = match daos.users.update_user(updated) {
            Ok(u) => u,
            Err(e) => {
                proof {
                    assert(false);
                }
                return Err(e);
            },
        };
        let user = stored.into_dto_with_generated_token(token);
        Ok(UpdateUserRes { user })
    }
}

} // verus!
