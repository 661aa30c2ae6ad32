use vstd::prelude::*;

verus! {

/// The error taxonomy of the library.  Every operation reports its failures
/// through this one enum; the transport layer maps each variant onto an HTTP
/// status code via `into_response`.
#[derive(Debug)]
pub enum ConduitError {
    /// The session credential is missing, malformed, expired or forged.
    Unauthorized,
    /// Login failed: the account does not exist or the password is wrong.
    /// Both causes map to the same outward error on purpose.
    InvalidLogin,
    /// The payload could not be read at all.
    BadRequest(String),
    /// An internal mechanism failed (never the caller's fault).
    InternalServerError,
    /// The requested article, user or edge does not exist.
    NotFound(String),
    /// The caller is authenticated but is not the resource's author.
    Forbidden(String),
    /// A uniqueness constraint (slug, edge) would be violated.
    Conflict(String),
    /// The payload was read but a field violates the validation rules.
    ValidationError(String),
    /// The password hashing mechanism itself failed (not a wrong password).
    CredentialHashFailure,
}

pub type ConduitResult<T> = Result<T, ConduitError>;

impl Clone for ConduitError {
    fn clone(&self) -> (r: Self)
        ensures
            r == *self,
    {
        match self {
            ConduitError::Unauthorized => ConduitError::Unauthorized,
            ConduitError::InvalidLogin => ConduitError::InvalidLogin,
            ConduitError::BadRequest(m) => ConduitError::BadRequest(m.clone()),
            ConduitError::InternalServerError => ConduitError::InternalServerError,
            ConduitError::NotFound(m) => ConduitError::NotFound(m.clone()),
            ConduitError::Forbidden(m) => ConduitError::Forbidden(m.clone()),
            ConduitError::Conflict(m) => ConduitError::Conflict(m.clone()),
            ConduitError::ValidationError(m) => ConduitError::ValidationError(m.clone()),
            ConduitError::CredentialHashFailure => ConduitError::CredentialHashFailure,
        }
    }
}

impl ConduitError {
    /// The HTTP status code a transport layer should answer with for this
    /// error, together with the human-readable message body.
    pub fn into_response(self) -> (r: (u16, String))
        ensures
            r.0 == self.spec_status(),
            r.1@ == self.spec_message(),
    {
        match self {
            ConduitError::Unauthorized => (401, String::from_str("Unauthorized")),
            ConduitError::InvalidLogin => (401, String::from_str("username or password is invalid")),
            ConduitError::BadRequest(m) => (400, m),
            ConduitError::InternalServerError => (500, String::from_str("Internal Server Error")),
            ConduitError::NotFound(m) => (404, m),
            ConduitError::Forbidden(m) => (403, m),
            ConduitError::Conflict(m) => (409, m),
            ConduitError::ValidationError(m) => (422, m),
            ConduitError::CredentialHashFailure => (500, String::from_str("Internal Server Error")),
        }
    }

    pub open spec fn spec_status(self) -> u16 {
        match self {
            ConduitError::Unauthorized => 401,
            ConduitError::InvalidLogin => 401,
            ConduitError::BadRequest(_) => 400,
            ConduitError::InternalServerError => 500,
            ConduitError::NotFound(_) => 404,
            ConduitError::Forbidden(_) => 403,
            ConduitError::Conflict(_) => 409,
            ConduitError::ValidationError(_) => 422,
            ConduitError::CredentialHashFailure => 500,
        }
    }

    pub open spec fn spec_message(self) -> Seq<char> {
        match self {
            ConduitError::Unauthorized => "Unauthorized"@,
            ConduitError::InvalidLogin => "username or password is invalid"@,
            ConduitError::BadRequest(m) => m@,
            ConduitError::InternalServerError => "Internal Server Error"@,
            ConduitError::NotFound(m) => m@,
            ConduitError::Forbidden(m) => m@,
            ConduitError::Conflict(m) => m@,
            ConduitError::ValidationError(m) => m@,
            ConduitError::CredentialHashFailure => "Internal Server Error"@,
        }
    }
}

} // verus!
