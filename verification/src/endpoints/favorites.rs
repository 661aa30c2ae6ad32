use vstd::prelude::*;

use crate::articles::{article_slug_idx, Article};
use crate::dao::Daos;
use crate::endpoints::common::{article_view_matches, spec_following};
use crate::error::{ConduitError, ConduitResult};
use crate::favorites::{active_fav_count, add_fav_spec, fav_pair_idx, lemma_add_favorited,
    lemma_remove_unfavorited, remove_fav_spec, AddFavoriteRes};
use crate::profiles::Profile;
use crate::find::lemma_find_first;
use crate::users::{user_idx, UserEntity};

verus! {

/// The favorite endpoints: marking and unmarking an article as a favorite.
/// Both answer with the article view as it stands afterwards; its tag list
/// is left empty here.
pub struct FavoritesRouter;

impl FavoritesRouter {
    /// Marks the article as a favorite of the caller: an upsert, so
    /// favoriting twice leaves one row.  The view afterwards reads
    /// `favorited` and counts the caller.
    pub fn add_favorite_article(daos: &mut Daos, slug: &str, current_user_id: u64, now: u64) -> (r:
        ConduitResult<AddFavoriteRes>)
        requires
            old(daos).wf(),
        ensures
            final(daos).wf(),
            final(daos).users == old(daos).users,
            final(daos).profiles == old(daos).profiles,
            final(daos).articles == old(daos).articles,
            final(daos).tags == old(daos).tags,
            match article_slug_idx(old(daos).articles.rows@, slug@) {
                None => {
                    &&& (r matches Err(e) && e matches ConduitError::NotFound(m) && m@
                        == "article not found"@)
                    &&& *final(daos) == *old(daos)
                },
                Some(ai) => {
                    let e = old(daos).articles.rows@[ai];
                    match user_idx(old(daos).users.rows@, e.author_id) {
                        None => {
                            &&& (r matches Err(er) && er matches ConduitError::NotFound(m) && m@
                                == "user not found"@)
                            &&& *final(daos) == *old(daos)
                        },
                        Some(ui) => {
                            &&& final(daos).favorites.rows@ == add_fav_spec(old(
                                daos).favorites.rows@, current_user_id, e.id, now)
                            &&& (r matches Ok(res) && article_view_matches(res.article, e,
                                Seq::<Seq<char>>::empty(), true, active_fav_count(final(
                                daos).favorites.rows@, e.id), old(daos).users.rows@[ui],
                                spec_following(old(daos).profiles.rows@, Some(current_user_id),
                                e.author_id)))
                        },
                    }
                },
            },
    {
        let article = match daos.articles.get_article_by_slug(slug) {
            Some(a) => a,
            None => {
                return Err(ConduitError::NotFound(String::from_str("article not found")));
            },
        };
        let author = daos.users.get_user_by_id(article.author_id)?;
        proof {
            lemma_find_first(daos.users.rows@, |u: UserEntity| u.id == article.author_id);
        }
        let ghost old_favs = daos.favorites.rows@;
        daos.favorites.add_favorite(current_user_id, article.id, now);
        proof {
            assert(daos.favorites.rows@ =~= add_fav_spec(old_favs, current_user_id, article.id,
                now));
            lemma_add_favorited(old_favs, current_user_id, article.id, now);
        }
        let count = daos.favorites.count_active(article.id);
        let is_favorite_current_user = daos.favorites.is_favorited(current_user_id, article.id);
        let following = daos.profiles.is_follow(current_user_id, author.id).is_some();
        let profile = Profile::from_user_entity(author, following);
        let article_view = Article::from_entity(article, profile, is_favorite_current_user,
            count as u64);
        proof {
            assert(crate::endpoints::common::strs_views(article_view.tag_list@) =~= Seq::<
                Seq<char>>::empty());
        }
        Ok(AddFavoriteRes { article: article_view })
    }

    /// Unmarks the article: a logical delete of the caller's row.  A pair
    /// never favorited is a `NotFound`, not a silent success.
    pub fn delete_favorite_article(daos: &mut Daos, slug: &str, current_user_id: u64) -> (r:
        ConduitResult<AddFavoriteRes>)
        requires
            old(daos).wf(),
        ensures
            final(daos).wf(),
            final(daos).users == old(daos).users,
            final(daos).profiles == old(daos).profiles,
            final(daos).articles == old(daos).articles,
            final(daos).tags == old(daos).tags,
            match article_slug_idx(old(daos).articles.rows@, slug@) {
                None => {
                    &&& (r matches Err(e) && e matches ConduitError::NotFound(m) && m@
                        == "article not found"@)
                    &&& *final(daos) == *old(daos)
                },
                Some(ai) => {
                    let e = old(daos).articles.rows@[ai];
                    match user_idx(old(daos).users.rows@, e.author_id) {
                        None => {
                            &&& (r matches Err(er) && er matches ConduitError::NotFound(m) && m@
                                == "user not found"@)
                            &&& *final(daos) == *old(daos)
                        },
                        Some(ui) => {
                            match fav_pair_idx(old(daos).favorites.rows@, current_user_id, e.id) {
                                None => {
                                    &&& (r matches Err(er) && er matches ConduitError::NotFound(m)
                                        && m@ == "favorite not found"@)
                                    &&& *final(daos) == *old(daos)
                                },
                                Some(_) => {
                                    &&& final(daos).favorites.rows@ == remove_fav_spec(old(
                                        daos).favorites.rows@, current_user_id, e.id)
                                    &&& (r matches Ok(res) && article_view_matches(res.article, e,
                                        Seq::<Seq<char>>::empty(), false, active_fav_count(final(
                                        daos).favorites.rows@, e.id), old(daos).users.rows@[ui],
                                        spec_following(old(daos).profiles.rows@, Some(
                                        current_user_id), e.author_id)))
                                },
                            }
                        },
                    }
                },
            },
    {
        let article = match daos.articles.get_article_by_slug(slug) {
            Some(a) => a,
            None => {
                return Err(ConduitError::NotFound(String::from_str("article not found")));
            },
        };
        let author = daos.users.get_user_by_id(article.author_id)?;
        proof {
            lemma_find_first(daos.users.rows@, |u: UserEntity| u.id == article.author_id);
        }
        let ghost old_favs = daos.favorites.rows@;
        daos.favorites.remove_favorite(current_user_id, article.id)?;
        proof {
            assert(daos.favorites.rows@ =~= remove_fav_spec(old_favs, current_user_id,
                article.id));
            lemma_remove_unfavorited(old_favs, current_user_id, article.id);
        }
        let count = daos.favorites.count_active(article.id);
        let is_favorite_current_user = daos.favorites.is_favorited(current_user_id, article.id);
        let following = daos.profiles.is_follow(current_user_id, author.id).is_some();
        let profile = Profile::from_user_entity(author, following);
        let article_view = Article::from_entity(article, profile, is_favorite_current_user,
            count as u64);
        proof {
            assert(crate::endpoints::common::strs_views(article_view.tag_list@) =~= Seq::<
                Seq<char>>::empty());
        }
        Ok(AddFavoriteRes { article: article_view })
    }
}

} // verus!
