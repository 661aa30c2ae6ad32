use vstd::prelude::*;

use crate::articles::{Article, ArticleEntity};
use crate::favorites::{favorited_by, FavoritesEntity};
use crate::numfmt::dec_digits;
use crate::profiles::{follow_pair_idx, Profile, UserFollowEntity};
use crate::tags::TagEntity;
use crate::users::UserEntity;

verus! {

/// The character sequences of a vector of strings.
pub open spec fn strs_views(v: Seq<String>) -> Seq<Seq<char>> {
    v.map_values(|s: String| s@)
}

/// The tag texts of a vector of vocabulary rows.
pub open spec fn names_of(tags: Seq<TagEntity>) -> Seq<Seq<char>> {
    tags.map_values(|t: TagEntity| t.tag@)
}

/// Whether a profile view presents this user with this following flag.
pub open spec fn profile_matches(p: Profile, u: UserEntity, following: bool) -> bool {
    &&& p.username@ == u.username@
    &&& p.bio@ == u.bio@
    &&& (match (p.image, u.image) {
        (Some(a), Some(b)) => a@ == b@,
        (None, None) => true,
        _ => false,
    })
    &&& p.following == following
}

/// Whether an article view presents this row, with these tags, flags and
/// author.
pub open spec fn article_view_matches(
    a: Article,
    e: ArticleEntity,
    tag_names: Seq<Seq<char>>,
    favorited: bool,
    count: int,
    author: UserEntity,
    following: bool,
) -> bool {
    &&& a.id == e.id
    &&& a.slug@ == e.slug@
    &&& a.title@ == e.title@
    &&& a.description@ == e.description@
    &&& a.body@ == e.body@
    &&& strs_views(a.tag_list@) == tag_names
    &&& a.created_at@ == dec_digits(e.created_at as nat)
    &&& a.updated_at@ == dec_digits(e.updated_at as nat)
    &&& a.favorited == favorited
    &&& a.favorites_count == count
    &&& profile_matches(a.author, author, following)
}

/// Whether the viewer, if any, follows the author.
pub open spec fn spec_following(
    follows: Seq<UserFollowEntity>,
    viewer: Option<u64>,
    author_id: u64,
) -> bool {
    match viewer {
        Some(v) => follow_pair_idx(follows, v, author_id) is Some,
        None => false,
    }
}

/// Whether the viewer, if any, currently favorites the article.
pub open spec fn spec_favorited(
    favs: Seq<FavoritesEntity>,
    viewer: Option<u64>,
    article_id: u64,
) -> bool {
    match viewer {
        Some(v) => favorited_by(favs, v, article_id),
        None => false,
    }
}

/// The tag texts of resolved vocabulary rows, cloned out for a view.
pub fn tag_names(tags: &Vec<TagEntity>) -> (r: Vec<String>)
    ensures
        strs_views(r@) == names_of(tags@),
{
    let mut r: Vec<String> = Vec::new();
    let n = tags.len();
    let mut i: usize = 0;
    while i < n
        invariant
            0 <= i <= n,
            n == tags@.len(),
            r@.len() == i,
            forall|j: int| 0 <= j < i ==> (#[trigger] r@[j])@ == tags@[j].tag@,
        decreases n - i,
    {
        r.push(tags[i].tag.clone());
        i += 1;
    }
    proof {
        assert(strs_views(r@) =~= names_of(tags@));
    }
    r
}

} // verus!
