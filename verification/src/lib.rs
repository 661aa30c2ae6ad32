//! The content and social-graph consistency core of a publishing backend:
//! articles created and edited under a uniqueness constraint on their
//! title-derived slug, a deduplicated tag vocabulary with idempotent
//! article associations, a logically-deleted favorite relation with derived
//! counts, a follow relation, and the authenticated-request pipeline —
//! password hashing, signed session tokens, and typed payload validation —
//! that gates every mutating operation.
//!
//! Each store states its contract over a sequence model of its rows, every
//! handler states exactly which error it answers on which input, and the
//! cross-cutting guarantees — slug uniqueness, tag idempotence, the
//! favorite two-state flip, the token round trip — are proved as laws
//! beside the code they govern.

use vstd::prelude::*;

pub mod articles;
pub mod clock;
pub mod dao;
pub mod endpoints;
pub mod error;
pub mod extractor;
pub mod favorites;
pub mod find;
pub mod hash;
pub mod jwt;
pub mod numfmt;
pub mod profiles;
pub mod slugify;
pub mod strutil;
pub mod tags;
pub mod users;
pub mod validation;

verus! {

/// Process-wide configuration shared by every component: the key used to
/// sign session tokens.
pub struct AppState {
    pub jwt_secret: String,
}

} // verus!
