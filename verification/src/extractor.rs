use vstd::prelude::*;

use crate::error::{ConduitError, ConduitResult};
use crate::jwt::{spec_claims_of, JwtService};
use crate::strutil::{is_space, is_space_char};

verus! {

/// A payload that passed the validation pipeline.
#[derive(Debug)]
pub struct ValidationExtractot<T>(pub T);

impl<T: Clone> Clone for ValidationExtractot<T> {
    fn clone(&self) -> Self {
        ValidationExtractot(self.0.clone())
    }
}

/// The identity a request must carry: extraction fails the whole request
/// when the credential is absent or invalid.
#[derive(Debug)]
pub struct RequiredAuth(pub u64);

/// The identity a request may carry: an absent credential is tolerated, a
/// present but invalid one is not.
#[derive(Debug)]
pub struct OptionalAuth(pub Option<u64>);

/// The position of the first non-whitespace character at or after `i`.
pub open spec fn skip_ws(s: Seq<char>, i: int) -> int
    decreases s.len() - i,
{
    if i < 0 || i >= s.len() {
        i
    } else if is_space_char(s[i]) {
        skip_ws(s, i + 1)
    } else {
        i
    }
}

/// The position of the first whitespace character at or after `i`.
pub open spec fn skip_word(s: Seq<char>, i: int) -> int
    decreases s.len() - i,
{
    if i < 0 || i >= s.len() {
        i
    } else if !is_space_char(s[i]) {
        skip_word(s, i + 1)
    } else {
        i
    }
}

/// The token a credential header carries: the header must consist of
/// exactly two whitespace-separated words, the first being `Token`; the
/// second word is the token.
pub open spec fn header_token(s: Seq<char>) -> Option<Seq<char>> {
    let a = skip_ws(s, 0);
    let b = skip_word(s, a);
    let c = skip_ws(s, b);
    let d = skip_word(s, c);
    let e = skip_ws(s, d);
    if s.subrange(a, b) == "Token"@ && c < d && e == s.len() {
        Some(s.subrange(c, d))
    } else {
        None
    }
}

/// Advances past whitespace, computing `skip_ws`.
fn scan_ws(s: &str, start: usize) -> (r: usize)
    requires
        start <= s@.len(),
    ensures
        r as int == skip_ws(s@, start as int),
        start <= r <= s@.len(),
        r < s@.len() ==> !is_space_char(s@[r as int]),
{
    let n = s.unicode_len();
    let mut i = start;
    while i < n
        invariant
            start <= i <= n,
            n == s@.len(),
            skip_ws(s@, start as int) == skip_ws(s@, i as int),
        decreases n - i,
    {
        if !is_space(s.get_char(i)) {
            return i;
        }
        i += 1;
    }
    i
}

/// Advances past non-whitespace, computing `skip_word`.
fn scan_word(s: &str, start: usize) -> (r: usize)
    requires
        start <= s@.len(),
    ensures
        r as int == skip_word(s@, start as int),
        start <= r <= s@.len(),
        r < s@.len() ==> is_space_char(s@[r as int]),
{
    let n = s.unicode_len();
    let mut i = start;
    while i < n
        invariant
            start <= i <= n,
            n == s@.len(),
            skip_word(s@, start as int) == skip_word(s@, i as int),
        decreases n - i,
    {
        if is_space(s.get_char(i)) {
            return i;
        }
        i += 1;
    }
    i
}

/// Pulls the token out of a credential header of the two-word `Token
/// <value>` scheme; any other shape yields nothing.
pub fn extract_header_token<'a>(header: &'a str) -> (r: Option<&'a str>)
    ensures
        match header_token(header@) {
            Some(t) => r matches Some(s) && s@ == t,
            None => r is None,
        },
{
    let a = scan_ws(header, 0);
    let b = scan_word(header, a);
    let c = scan_ws(header, b);
    let d = scan_word(header, c);
    let e = scan_ws(header, d);
    let n = header.unicode_len();
    let scheme = header.substring_char(a, b);
    if !crate::strutil::str_eq(scheme, "Token") {
        return None;
    }
    if !(c < d) {
        return None;
    }
    if e != n {
        return None;
    }
    Some(header.substring_char(c, d))
}

impl RequiredAuth {
    /// Required-credential extraction: the request carries an identity only
    /// if the header is present, matches the two-word scheme, and its token
    /// verifies; any failure is `Unauthorized`.
    pub fn from_header(jwt: &JwtService, header: Option<&str>, now: u64) -> (r: ConduitResult<
        RequiredAuth>)
        ensures
            match header {
                None => r matches Err(e) && e is Unauthorized,
                Some(h) => match header_token(h@) {
                    None => r matches Err(e) && e is Unauthorized,
                    Some(t) => match spec_claims_of(jwt.secret@, t, now) {
                        Some(c) => r matches Ok(a) && a.0 == c.user_id,
                        None => r matches Err(e) && e is Unauthorized,
                    },
                },
            },
    {
        let h = match header {
            Some(h) => h,
            None => {
                return Err(ConduitError::Unauthorized);
            },
        };
        let token = match extract_header_token(h) {
            Some(t) => t,
            None => {
                return Err(ConduitError::Unauthorized);
            },
        };
        let claims = jwt.get_claim_from_token(token, now)?;
        Ok(RequiredAuth(claims.user_id))
    }
}

impl OptionalAuth {
    /// Optional-credential extraction: an absent header yields no identity
    /// rather than a failure, but a present invalid one still fails with
    /// `Unauthorized`.
    pub fn from_header(jwt: &JwtService, header: Option<&str>, now: u64) -> (r: ConduitResult<
        OptionalAuth>)
        ensures
            match header {
                None => r matches Ok(a) && a.0 is None,
                Some(h) => match header_token(h@) {
                    None => r matches Err(e) && e is Unauthorized,
                    Some(t) => match spec_claims_of(jwt.secret@, t, now) {
                        Some(c) => r matches Ok(a) && a.0 == Some(c.user_id),
                        None => r matches Err(e) && e is Unauthorized,
                    },
                },
            },
    {
        let h = match header {
            Some(h) => h,
            None => {
                return Ok(OptionalAuth(None));
            },
        };
        let token = match extract_header_token(h) {
            Some(t) => t,
            None => {
                return Err(ConduitError::Unauthorized);
            },
        };
        let claims = jwt.get_claim_from_token(token, now)?;
        Ok(OptionalAuth(Some(claims.user_id)))
    }
}

} // verus!
