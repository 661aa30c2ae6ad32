use vstd::prelude::*;

use validator::ValidateEmail;

use crate::articles::{CreateArticleReq, NewArticle, UpdateArticle, UpdateArticleReq};
use crate::error::{ConduitError, ConduitResult};
use crate::strutil::{all_space, is_blank};
use crate::users::{LoginUser, LoginUserReq, NewUser, RegisterUserReq, UpdateUser, UpdateUserReq};

verus! {

/// Whether a string passes the email shape check.  The outcome is a
/// function of the characters alone.
pub uninterp spec fn email_ok_of(s: Seq<char>) -> bool;

/// Relies on validator::ValidateEmail::validate_email for &str: the HTML5
/// email shape check, deterministic in its input.
#[verifier::external_body]
fn validate_email_str(s: &str) -> (r: bool)
    ensures
        r == email_ok_of(s@),
{
    s.validate_email()
}

/// A registration payload is valid when every field is present and the
/// email has email shape.
pub open spec fn valid_new_user(u: NewUser) -> bool {
    &&& u.username is Some
    &&& u.email is Some
    &&& email_ok_of(u.email->0@)
    &&& u.password is Some
}

/// A login payload is valid when both fields are present and the email has
/// email shape.
pub open spec fn valid_login_user(u: LoginUser) -> bool {
    &&& u.email is Some
    &&& email_ok_of(u.email->0@)
    &&& u.password is Some
}

/// A user update is valid when a supplied email has email shape.
pub open spec fn valid_update_user(u: UpdateUser) -> bool {
    u.email is Some ==> email_ok_of(u.email->0@)
}

/// An article payload is valid when title, description and body are
/// present, the title is not blank after trimming, and the body is not
/// empty.
pub open spec fn valid_new_article(a: NewArticle) -> bool {
    &&& a.title is Some
    &&& !all_space(a.title->0@)
    &&& a.description is Some
    &&& a.body is Some
    &&& a.body->0@.len() > 0
}

/// An article update is valid when each supplied field is nonempty, the
/// title not even blank after trimming.
pub open spec fn valid_update_article(u: UpdateArticle) -> bool {
    &&& u.title is Some ==> !all_space(u.title->0@)
    &&& u.description is Some ==> u.description->0@.len() > 0
    &&& u.body is Some ==> u.body->0@.len() > 0
}

pub fn validate_register(req: &RegisterUserReq) -> (r: ConduitResult<()>)
    ensures
        r is Ok <==> valid_new_user(req.user),
        r matches Err(e) ==> e matches ConduitError::ValidationError(m) && m@
            == "invalid registration payload"@,
{
    let ok = match &req.user.email {
        Some(e) => req.user.username.is_some() && req.user.password.is_some()
            && validate_email_str(e.as_str()),
        None => false,
    };
    if ok {
        Ok(())
    } else {
        Err(ConduitError::ValidationError(String::from_str("invalid registration payload")))
    }
}

pub fn validate_login(req: &LoginUserReq) -> (r: ConduitResult<()>)
    ensures
        r is Ok <==> valid_login_user(req.user),
        r matches Err(e) ==> e matches ConduitError::ValidationError(m) && m@
            == "invalid login payload"@,
{
    let ok = match &req.user.email {
        Some(e) => req.user.password.is_some() && validate_email_str(e.as_str()),
        None => false,
    };
    if ok {
        Ok(())
    } else {
        Err(ConduitError::ValidationError(String::from_str("invalid login payload")))
    }
}

pub fn validate_update_user(req: &UpdateUserReq) -> (r: ConduitResult<()>)
    ensures
        r is Ok <==> valid_update_user(req.user),
        r matches Err(e) ==> e matches ConduitError::ValidationError(m) && m@
            == "invalid user update payload"@,
{
    let ok = match &req.user.email {
        Some(e) => validate_email_str(e.as_str()),
        None => true,
    };
    if ok {
        Ok(())
    } else {
        Err(ConduitError::ValidationError(String::from_str("invalid user update payload")))
    }
}

pub fn validate_create_article(req: &CreateArticleReq) -> (r: ConduitResult<()>)
    ensures
        r is Ok <==> valid_new_article(req.article),
        r matches Err(e) ==> e matches ConduitError::ValidationError(m) && m@
            == "invalid article payload"@,
{
    let title_ok = match &req.article.title {
        Some(t) => !is_blank(t.as_str()),
        None => false,
    };
    let body_ok = match &req.article.body {
        Some(b) => b.as_str().unicode_len() > 0,
        None => false,
    };
    let ok = title_ok && req.article.description.is_some() && body_ok;
    if ok {
        Ok(())
    } else {
        Err(ConduitError::ValidationError(String::from_str("invalid article payload")))
    }
}

pub fn validate_update_article(req: &UpdateArticleReq) -> (r: ConduitResult<()>)
    ensures
        r is Ok <==> valid_update_article(req.article),
        r matches Err(e) ==> e matches ConduitError::ValidationError(m) && m@
            == "invalid article update payload"@,
{
    let title_ok = match &req.article.title {
        Some(t) => !is_blank(t.as_str()),
        None => true,
    };
    let description_ok = match &req.article.description {
        Some(d) => d.as_str().unicode_len() > 0,
        None => true,
    };
    let body_ok = match &req.article.body {
        Some(b) => b.as_str().unicode_len() > 0,
        None => true,
    };
    if title_ok && description_ok && body_ok {
        Ok(())
    } else {
        Err(ConduitError::ValidationError(String::from_str("invalid article update payload")))
    }
}

} // verus!
