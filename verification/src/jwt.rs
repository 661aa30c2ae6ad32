use vstd::prelude::*;

use crate::error::{ConduitError, ConduitResult};
use crate::find::{find_first, lemma_find_first_is, lemma_find_first_none};
use crate::numfmt::{all_digits, dec_digits, is_digit_char, lemma_dec_digits_val, parse_dec,
    parse_u64, u64_to_string};
use crate::AppState;

verus! {

/// How long an issued session lasts, in seconds.
pub const DEFAULT_SESSION_LEN: u64 = 60 * 60 * 2;

/// The decoded payload of a session token.
#[derive(Debug, Clone, Copy, PartialEq, Eq, Structural)]
pub struct Claims {
    pub exp: u64,
    pub user_id: u64,
}

/// The signature that signing `msg` with `key` under HMAC-SHA256 yields,
/// in the encoded form the token carries.  Deterministic in its inputs.
pub uninterp spec fn hs256_tag(key: Seq<char>, msg: Seq<char>) -> Seq<char>;

/// What checking a carried signature against `msg` and `key` yields:
/// `Some(true)` when it matches, `Some(false)` when it does not, `None`
/// when the carried signature cannot be read at all.  Deterministic in its
/// inputs.
pub uninterp spec fn hs256_verify_of(key: Seq<char>, msg: Seq<char>, sig: Seq<char>) -> Option<
    bool>;

/// Relies on jsonwebtoken::crypto::sign with an HMAC-SHA256 key from
/// EncodingKey::from_secret: the encoded signature is a function of key and
/// message alone, and jsonwebtoken::crypto::verify accepts it for the same
/// key and message.  Signing cannot fail here — the HMAC signer accepts a
/// secret key of any length and its signing step is infallible — so the
/// error arm below is unreachable.
#[verifier::external_body]
fn hs256_sign(key: &str, msg: &str) -> (r: String)
    ensures
        r@ == hs256_tag(key@, msg@),
        hs256_verify_of(key@, msg@, r@) == Some(true),
{
    match jsonwebtoken::crypto::sign(
        msg.as_bytes(),
        &jsonwebtoken::EncodingKey::from_secret(key.as_bytes()),
        jsonwebtoken::Algorithm::HS256,
    ) {
        Ok(s) => s,
        Err(_) => String::new(),
    }
}

/// Relies on jsonwebtoken::crypto::verify with an HMAC-SHA256 key from
/// DecodingKey::from_secret: recomputes the signature for the message and
/// compares; errs only on a signature it cannot read.
#[verifier::external_body]
fn hs256_check(key: &str, msg: &str, sig: &str) -> (r: Option<bool>)
    ensures
        r == hs256_verify_of(key@, msg@, sig@),
{
    match jsonwebtoken::crypto::verify(
        sig,
        msg.as_bytes(),
        &jsonwebtoken::DecodingKey::from_secret(key.as_bytes()),
        jsonwebtoken::Algorithm::HS256,
    ) {
        Ok(b) => Some(b),
        Err(_) => None,
    }
}

/// The signed part of a token: the user id and expiry in decimal, joined by
/// a dot.
pub open spec fn claims_msg(user_id: u64, exp: u64) -> Seq<char> {
    dec_digits(user_id as nat) + seq!['.'] + dec_digits(exp as nat)
}

/// A whole issued token: the signed part, a dot, and its signature.
pub open spec fn token_chars(secret: Seq<char>, user_id: u64, exp: u64) -> Seq<char> {
    claims_msg(user_id, exp) + seq!['.'] + hs256_tag(secret, claims_msg(user_id, exp))
}

/// The expiry an issue at `now` stamps: the fixed session length from now,
/// saturating at the end of representable time.
pub open spec fn session_exp(now: u64) -> u64 {
    if now + DEFAULT_SESSION_LEN > u64::MAX {
        u64::MAX
    } else {
        (now + DEFAULT_SESSION_LEN) as u64
    }
}

/// Index of the first dot.
pub open spec fn first_dot(s: Seq<char>) -> Option<int> {
    find_first(s, |c: char| c == '.')
}

/// The three parts of a token: what stands before the first dot, between
/// the first and the second dot, and after the second dot.
pub open spec fn spec_parse_token(token: Seq<char>) -> Option<(Seq<char>, Seq<char>, Seq<char>)> {
    match first_dot(token) {
        None => None,
        Some(i) => {
            let rest = token.subrange(i + 1, token.len() as int);
            match first_dot(rest) {
                None => None,
                Some(j) => Some(
                    (token.subrange(0, i), rest.subrange(0, j), rest.subrange(j + 1,
                        rest.len() as int)),
                ),
            }
        },
    }
}

/// What verifying a token at time `now` yields: the claims, when the token
/// parses, its signature matches its signed part, and it is not yet
/// expired; nothing otherwise.
pub open spec fn spec_claims_of(secret: Seq<char>, token: Seq<char>, now: u64) -> Option<Claims> {
    match spec_parse_token(token) {
        None => None,
        Some((u_s, e_s, sig)) => {
            let msg = u_s + seq!['.'] + e_s;
            match (parse_dec(u_s), parse_dec(e_s)) {
                (Some(u), Some(e)) => if hs256_verify_of(secret, msg, sig) == Some(true) && e
                    > now {
                    Some(Claims { exp: e, user_id: u })
                } else {
                    None
                },
                _ => None,
            }
        },
    }
}

/// Issues and verifies signed, time-limited session tokens binding a user
/// identifier.
pub struct JwtService {
    pub secret: String,
}

/// A digit is never a dot.
proof fn lemma_digits_no_dot(s: Seq<char>)
    requires
        all_digits(s),
    ensures
        forall|j: int| 0 <= j < s.len() ==> (#[trigger] s[j]) != '.',
{
    assert forall|j: int| 0 <= j < s.len() implies (#[trigger] s[j]) != '.' by {
        assert(is_digit_char(s[j]));
    }
}

impl JwtService {
    pub fn new(state: &AppState) -> (r: Self)
        ensures
            r.secret@ == state.jwt_secret@,
    {
        JwtService { secret: state.jwt_secret.clone() }
    }

    /// Issues a token for this user, expiring a fixed session length after
    /// `now`.  Issuing always succeeds; whatever later time the token is
    /// verified at, it yields exactly this user and expiry while it lives,
    /// and nothing once expired.
    pub fn to_token(&self, user_id: u64, now: u64) -> (r: String)
        ensures
            r@ == token_chars(self.secret@, user_id, session_exp(now)),
            forall|now2: u64|
                spec_claims_of(self.secret@, r@, now2) == (if session_exp(now) > now2 {
                    Some(Claims { exp: session_exp(now), user_id })
                } else {
                    None::<Claims>
                }),
    {
        let exp: u64 = if now > u64::MAX - DEFAULT_SESSION_LEN {
            u64::MAX
        } else {
            now + DEFAULT_SESSION_LEN
        };
        let u_str = u64_to_string(user_id);
        let e_str = u64_to_string(exp);
        let mut msg = u_str;
        msg.append(".");
        msg.append(e_str.as_str());
        proof {
            reveal_strlit(".");
            assert(msg@ =~= claims_msg(user_id, exp));
        }
        let sig = hs256_sign(self.secret.as_str(), msg.as_str());
        let mut token = msg;
        token.append(".");
        token.append(sig.as_str());
        proof {
            reveal_strlit(".");
            assert(token@ =~= token_chars(self.secret@, user_id, exp));
            lemma_token_roundtrip(self.secret@, user_id, exp);
        }
        token
    }

    /// Verifies a token: on success the embedded claims; any failure —
    /// malformed token, wrong signature, expired — is `Unauthorized` and
    /// never a different error kind.
    pub fn get_claim_from_token(&self, token: &str, now: u64) -> (r: ConduitResult<Claims>)
        ensures
            match spec_claims_of(self.secret@, token@, now) {
                Some(c) => r == Ok::<Claims, ConduitError>(c),
                None => r matches Err(e) && e is Unauthorized,
            },
    {
        let n = token.unicode_len();
        let ghost dot = |c: char| c == '.';
        // first dot
        let mut i: usize = 0;
        loop
            invariant
                0 <= i <= n,
                n == token@.len(),
                forall|j: int| 0 <= j < i ==> (#[trigger] token@[j]) != '.',
            ensures
                0 <= i <= n,
                i < n ==> token@[i as int] == '.',
                i == n ==> first_dot(token@) is None,
                forall|j: int| 0 <= j < i ==> (#[trigger] token@[j]) != '.',
            decreases n - i,
        {
            if i == n {
                proof {
                    lemma_find_first_none(token@, |c: char| c == '.');
                }
                break;
            }
            if token.get_char(i) == '.' {
                break;
            }
            i += 1;
        }
        if i == n {
            return Err(ConduitError::Unauthorized);
        }
        let d1 = i;
        proof {
            lemma_find_first_is(token@, |c: char| c == '.', d1 as int);
        }
        let ghost rest = token@.subrange(d1 + 1, n as int);
        // second dot
        let mut k: usize = d1 + 1;
        loop
            invariant
                d1 + 1 <= k <= n,
                n == token@.len(),
                token@[d1 as int] == '.',
                rest == token@.subrange(d1 + 1, n as int),
                forall|j: int| d1 + 1 <= j < k ==> (#[trigger] token@[j]) != '.',
            ensures
                d1 + 1 <= k <= n,
                k < n ==> token@[k as int] == '.',
                k == n ==> first_dot(rest) is None,
                forall|j: int| d1 + 1 <= j < k ==> (#[trigger] token@[j]) != '.',
            decreases n - k,
        {
            if k == n {
                proof {
                    assert forall|j: int| 0 <= j < rest.len() implies (#[trigger] rest[j])
                        != '.' by {
                        assert(rest[j] == token@[j + d1 + 1]);
                    }
                    lemma_find_first_none(rest, |c: char| c == '.');
                }
                break;
            }
            if token.get_char(k) == '.' {
                break;
            }
            k += 1;
        }
        if k == n {
            return Err(ConduitError::Unauthorized);
        }
        let d2 = k;
        proof {
            assert forall|j: int| 0 <= j < d2 - d1 - 1 implies (#[trigger] rest[j]) != '.' by {
                assert(rest[j] == token@[j + d1 + 1]);
            }
            assert(rest[d2 - d1 - 1] == token@[d2 as int]);
            lemma_find_first_is(rest, |c: char| c == '.', d2 - d1 - 1);
        }
        let u_str = token.substring_char(0, d1);
        let e_str = token.substring_char(d1 + 1, d2);
        let sig_str = token.substring_char(d2 + 1, n);
        let msg_str = token.substring_char(0, d2);
        proof {
            let parts = spec_parse_token(token@);
            assert(u_str@ =~= token@.subrange(0, d1 as int));
            assert(e_str@ =~= rest.subrange(0, d2 - d1 - 1));
            assert(sig_str@ =~= rest.subrange(d2 - d1 - 1 + 1, rest.len() as int));
            assert(parts == Some((u_str@, e_str@, sig_str@)));
            assert(msg_str@ =~= u_str@ + seq!['.'] + e_str@);
        }
        let u = match parse_u64(u_str) {
            Some(u) => u,
            None => {
                return Err(ConduitError::Unauthorized);
            },
        };
        let e = match parse_u64(e_str) {
            Some(e) => e,
            None => {
                return Err(ConduitError::Unauthorized);
            },
        };
        match hs256_check(self.secret.as_str(), msg_str, sig_str) {
            Some(true) => {},
            _ => {
                return Err(ConduitError::Unauthorized);
            },
        }
        if e <= now {
            return Err(ConduitError::Unauthorized);
        }
        Ok(Claims { exp: e, user_id: u })
    }
}

/// An issued token verifies to exactly the claims it was issued with, at
/// any time before its expiry, and to nothing at or past its expiry.  The
/// premise — that the checker accepts the signature the signer produced for
/// the signed part — is exactly what every signing call yields.
pub proof fn lemma_token_roundtrip(secret: Seq<char>, user_id: u64, exp: u64)
    requires
        hs256_verify_of(secret, claims_msg(user_id, exp), hs256_tag(secret, claims_msg(user_id,
            exp))) == Some(true),
    ensures
        forall|now2: u64|
            spec_claims_of(secret, token_chars(secret, user_id, exp), now2) == (if exp > now2 {
                Some(Claims { exp, user_id })
            } else {
                None::<Claims>
            }),
{
    let u_s = dec_digits(user_id as nat);
    let e_s = dec_digits(exp as nat);
    let sig = hs256_tag(secret, claims_msg(user_id, exp));
    let token = token_chars(secret, user_id, exp);
    lemma_dec_digits_val(user_id as nat);
    lemma_dec_digits_val(exp as nat);
    lemma_digits_no_dot(u_s);
    lemma_digits_no_dot(e_s);
    // the first dot stands right after the user id digits
    let d1 = u_s.len() as int;
    assert(token[d1] == '.');
    assert forall|j: int| 0 <= j < d1 implies !((#[trigger] token[j]) == '.') by {
        assert(token[j] == u_s[j]);
    }
    lemma_find_first_is(token, |c: char| c == '.', d1);
    let rest = token.subrange(d1 + 1, token.len() as int);
    assert(rest =~= e_s + seq!['.'] + sig);
    // the second dot stands right after the expiry digits
    let d2 = e_s.len() as int;
    assert(rest[d2] == '.');
    assert forall|j: int| 0 <= j < d2 implies !((#[trigger] rest[j]) == '.') by {
        assert(rest[j] == e_s[j]);
    }
    lemma_find_first_is(rest, |c: char| c == '.', d2);
    assert(token.subrange(0, d1) =~= u_s);
    assert(rest.subrange(0, d2) =~= e_s);
    assert(rest.subrange(d2 + 1, rest.len() as int) =~= sig);
    assert(spec_parse_token(token) == Some((u_s, e_s, sig)));
    assert(u_s + seq!['.'] + e_s =~= claims_msg(user_id, exp));
    assert(parse_dec(u_s) == Some(user_id));
    assert(parse_dec(e_s) == Some(exp));
}

} // verus!
