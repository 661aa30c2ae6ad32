use vstd::prelude::*;

verus! {

/// The slug that `slug::slugify` derives from a title.  The result is a
/// function of the input characters alone.
pub uninterp spec fn slug_of(title: Seq<char>) -> Seq<char>;

/// Relies on slug::slugify: lowercases, folds whitespace and punctuation to
/// hyphens, and transliterates to ASCII; deterministic in its input.
#[verifier::external_body]
pub fn slugify(title: &str) -> (r: String)
    ensures
        r@ == slug_of(title@),
{
    slug::slugify(title)
}

} // verus!
