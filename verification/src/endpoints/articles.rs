use vstd::prelude::*;

use crate::articles::{article_slug_idx, clone_strings, Article, ArticleEntity,
    CreatArticle, CreateArticleReq, CreateArticleRes, GetArticleRes, UpdateArticleReq,
    UpdateArticleRes};
use crate::dao::Daos;
use crate::endpoints::common::{article_view_matches, names_of, spec_favorited, spec_following,
    tag_names};
use crate::error::{ConduitError, ConduitResult};
use crate::favorites::active_fav_count;
use crate::find::{lemma_find_first, lemma_find_first_is, lemma_filter_subset};
use crate::numfmt::u64_to_string;
use crate::profiles::Profile;
use crate::slugify::{slug_of, slugify};
use crate::tags::{assocs_after, create_tags_spec, name_in, tag_id_in, tags_for_article, TagEntity};
use crate::users::{user_idx, UserEntity};
use crate::validation::{valid_new_article, valid_update_article, validate_create_article,
    validate_update_article};

verus! {

/// The tag names an article creation asks for: the supplied list, or none.
pub open spec fn req_tag_list(req: CreateArticleReq) -> Seq<String> {
    if req.article.tag_list is Some {
        req.article.tag_list->0@
    } else {
        Seq::<String>::empty()
    }
}

/// Whether a supplied new slug (as characters) collides with an article
/// other than the one at index `i`.
pub open spec fn slug_taken(rows: Seq<ArticleEntity>, i: int, so: Option<Seq<char>>) -> bool {
    so is Some && exists|j: int| 0 <= j < rows.len() && j != i && (#[trigger] rows[j]).slug@
        == so->0
}

/// The article endpoints: creating, reading, updating and deleting an
/// article.
pub struct ArticleRouter;

impl ArticleRouter {
    /// Creates an article: the payload is validated, the slug derived from
    /// the title, the row inserted under the slug-uniqueness constraint,
    /// and the requested tags materialized and associated.  A taken slug is
    /// a `Conflict` and changes nothing.
    pub fn create_article(daos: &mut Daos, user_id: u64, req: CreateArticleReq, now: u64) -> (r:
        ConduitResult<CreateArticleRes>)
        requires
            old(daos).wf(),
            old(daos).articles.next_id < u64::MAX,
            old(daos).tags.next_id + req_tag_list(req).len() <= u64::MAX,
        ensures
            final(daos).wf(),
            final(daos).users == old(daos).users,
            final(daos).profiles == old(daos).profiles,
            final(daos).favorites == old(daos).favorites,
            if !valid_new_article(req.article) {
                &&& (r matches Err(e) && e matches ConduitError::ValidationError(m))
                &&& *final(daos) == *old(daos)
            } else {
                match user_idx(old(daos).users.rows@, user_id) {
                    None => {
                        &&& (r matches Err(e) && e matches ConduitError::NotFound(m) && m@
                            == "user not found"@)
                        &&& *final(daos) == *old(daos)
                    },
                    Some(ui) => match article_slug_idx(old(daos).articles.rows@, slug_of(
                        req.article.title->0@)) {
                        Some(_) => {
                            &&& (r matches Err(e) && e matches ConduitError::Conflict(m) && m@
                                == "slug already exists"@)
                            &&& *final(daos) == *old(daos)
                        },
                        None => {
                            let spec_t = create_tags_spec(old(daos).tags.tags@, req_tag_list(req),
                                old(daos).tags.next_id as int, now);
                            let resolved = spec_t.1.filter(|t: TagEntity| name_in(req_tag_list(
                                req), t.tag@));
                            let new_id = old(daos).articles.next_id;
                            let row = final(daos).articles.rows@.last();
                            &&& final(daos).articles.rows@ == old(daos).articles.rows@.push(row)
                            &&& row.id == new_id
                            &&& row.created_at == now
                            &&& row.updated_at == now
                            &&& row.title@ == req.article.title->0@
                            &&& row.slug@ == slug_of(req.article.title->0@)
                            &&& row.description@ == req.article.description->0@
                            &&& row.body@ == req.article.body->0@
                            &&& row.author_id == user_id
                            &&& final(daos).articles.next_id == new_id + 1
                            &&& final(daos).tags.tags@ == spec_t.1
                            &&& final(daos).tags.next_id == spec_t.2
                            &&& final(daos).tags.article_tags@ == assocs_after(old(
                                daos).tags.article_tags@, resolved.map_values(
                                |t: TagEntity| (new_id, t.id)), now)
                            &&& (r matches Ok(res) && article_view_matches(res.article, row,
                                names_of(resolved), false, 0, old(daos).users.rows@[ui], false))
                        },
                    },
                }
            },
    {
        validate_create_article(&req)?;
        let author = daos.users.get_user_by_id(user_id)?;
        proof {
            lemma_find_first(daos.users.rows@, |u: UserEntity| u.id == user_id);
        }
        let new_article = req.article.into_validated();
        let tags_in = clone_strings(&new_article.tag_list);
        let tags_in2 = clone_strings(&new_article.tag_list);
        let slug = slugify(new_article.title.as_str());
        let create_article = CreatArticle::new(new_article, user_id, slug);
        let article = match daos.articles.create_article(create_article, now) {
            Some(a) => a,
            None => {
                return Err(ConduitError::Conflict(String::from_str("slug already exists")));
            },
        };
        daos.tags.create_tags(tags_in, now);
        let resolved = daos.tags.get_tags_exists(tags_in2);
        let mut article_tag_ids: Vec<(u64, u64)> = Vec::new();
        let tn = resolved.len();
        let mut i: usize = 0;
        while i < tn
            invariant
                0 <= i <= tn,
                tn == resolved@.len(),
                article_tag_ids@.len() == i,
                forall|j: int| 0 <= j < i ==> #[trigger] article_tag_ids@[j] == (article.id,
                    resolved@[j].id),
            decreases tn - i,
        {
            article_tag_ids.push((article.id, resolved[i].id));
            i += 1;
        }
        proof {
            assert(article_tag_ids@ =~= resolved@.map_values(|t: TagEntity| (article.id, t.id)));
            lemma_filter_subset(daos.tags.tags@, |t: TagEntity| name_in(tags_in2@, t.tag@));
            assert forall|k: int| 0 <= k < article_tag_ids@.len() implies tag_id_in(
                daos.tags.tags@, (#[trigger] article_tag_ids@[k]).1) by {
                assert(daos.tags.tags@.contains(resolved@[k]));
                let j = choose|j: int|
                    0 <= j < daos.tags.tags@.len() && daos.tags.tags@[j] == resolved@[k];
                assert(daos.tags.tags@[j].id == resolved@[k].id);
            }
        }
        daos.tags.create_article_tags(article_tag_ids, now)?;
        let tag_list = tag_names(&resolved);
        let profile = Profile::from_user_entity(author, false);
        let article_view = Article {
            id: article.id,
            slug: article.slug,
            title: article.title,
            description: article.description,
            body: article.body,
            tag_list,
            created_at: u64_to_string(article.created_at),
            updated_at: u64_to_string(article.updated_at),
            favorited: false,
            favorites_count: 0,
            author: profile,
        };
        Ok(CreateArticleRes { article: article_view })
    }

    /// Reads an article by slug.  The favorited flag and the following flag
    /// are relative to the viewer; an anonymous viewer reads neither.
    pub fn get_article(daos: &Daos, slug: &str, current_user_id: Option<u64>) -> (r: ConduitResult<
        GetArticleRes>)
        ensures
            match article_slug_idx(daos.articles.rows@, slug@) {
                None => r matches Err(e) && e matches ConduitError::NotFound(m) && m@
                    == "article not found"@,
                Some(ai) => {
                    let e = daos.articles.rows@[ai];
                    match user_idx(daos.users.rows@, e.author_id) {
                        None => r matches Err(er) && er matches ConduitError::NotFound(m) && m@
                            == "user not found"@,
                        Some(ui) => r matches Ok(res) && article_view_matches(res.article, e,
                            names_of(tags_for_article(daos.tags.tags@, daos.tags.article_tags@,
                            e.id)), spec_favorited(daos.favorites.rows@, current_user_id, e.id),
                            active_fav_count(daos.favorites.rows@, e.id), daos.users.rows@[ui],
                            spec_following(daos.profiles.rows@, current_user_id, e.author_id)),
                    }
                },
            },
    {
        let article = match daos.articles.get_article_by_slug(slug) {
            Some(a) => a,
            None => {
                return Err(ConduitError::NotFound(String::from_str("article not found")));
            },
        };
        let author = daos.users.get_user_by_id(article.author_id)?;
        proof {
            lemma_find_first(daos.users.rows@, |u: UserEntity| u.id == article.author_id);
        }
        let tags = daos.tags.get_article_tags(article.id);
        let tag_list = tag_names(&tags);
        let favorited = match current_user_id {
            Some(cu) => daos.favorites.is_favorited(cu, article.id),
            None => false,
        };
        let count = daos.favorites.count_active(article.id);
        let following = match current_user_id {
            Some(cu) => daos.profiles.is_follow(cu, author.id).is_some(),
            None => false,
        };
        let profile = Profile::from_user_entity(author, following);
        let article_view = Article {
            id: article.id,
            slug: article.slug,
            title: article.title,
            description: article.description,
            body: article.body,
            tag_list,
            created_at: u64_to_string(article.created_at),
            updated_at: u64_to_string(article.updated_at),
            favorited,
            favorites_count: count as u64,
            author: profile,
        };
        Ok(GetArticleRes { article: article_view })
    }

    /// Updates an article: only the author may, only supplied fields
    /// change, a supplied title re-derives the slug, and a colliding new
    /// slug is a `Conflict` that changes nothing.  A missing article is
    /// `NotFound` before any authorization is judged.
    pub fn update_article(daos: &mut Daos, slug: &str, user_id: u64, req: UpdateArticleReq) -> (r:
        ConduitResult<UpdateArticleRes>)
        requires
            old(daos).wf(),
        ensures
            final(daos).wf(),
            final(daos).users == old(daos).users,
            final(daos).profiles == old(daos).profiles,
            final(daos).tags == old(daos).tags,
            final(daos).favorites == old(daos).favorites,
            if !valid_update_article(req.article) {
                &&& (r matches Err(e) && e matches ConduitError::ValidationError(m))
                &&& *final(daos) == *old(daos)
            } else {
                match article_slug_idx(old(daos).articles.rows@, slug@) {
                    None => {
                        &&& (r matches Err(e) && e matches ConduitError::NotFound(m) && m@
                            == "article not found"@)
                        &&& *final(daos) == *old(daos)
                    },
                    Some(ai) => {
                        let e = old(daos).articles.rows@[ai];
                        let so = if req.article.title is Some {
                            Some(slug_of(req.article.title->0@))
                        } else {
                            None::<Seq<char>>
                        };
                        if e.author_id != user_id {
                            &&& (r matches Err(er) && er matches ConduitError::Forbidden(m) && m@
                                == "you are not the author"@)
                            &&& *final(daos) == *old(daos)
                        } else {
                            match user_idx(old(daos).users.rows@, user_id) {
                                None => {
                                    &&& (r matches Err(er) && er matches ConduitError::NotFound(m)
                                        && m@ == "user not found"@)
                                    &&& *final(daos) == *old(daos)
                                },
                                Some(ui) => {
                                    if slug_taken(old(daos).articles.rows@, ai, so) {
                                        &&& (r matches Err(er) && er
                                            matches ConduitError::Conflict(m) && m@
                                            == "slug already exists"@)
                                        &&& *final(daos) == *old(daos)
                                    } else {
                                        let row = final(daos).articles.rows@[ai];
                                        &&& final(daos).articles.rows@ == old(
                                            daos).articles.rows@.update(ai, row)
                                        &&& final(daos).articles.next_id == old(
                                            daos).articles.next_id
                                        &&& row.id == e.id
                                        &&& row.created_at == e.created_at
                                        &&& row.updated_at == e.updated_at
                                        &&& row.author_id == e.author_id
                                        &&& row.title@ == (if req.article.title is Some {
                                            req.article.title->0@
                                        } else {
                                            e.title@
                                        })
                                        &&& row.slug@ == (if req.article.title is Some {
                                            slug_of(req.article.title->0@)
                                        } else {
                                            e.slug@
                                        })
                                        &&& row.description@ == (
                                        if req.article.description is Some {
                                            req.article.description->0@
                                        } else {
                                            e.description@
                                        })
                                        &&& row.body@ == (if req.article.body is Some {
                                            req.article.body->0@
                                        } else {
                                            e.body@
                                        })
                                        &&& (r matches Ok(res) && article_view_matches(
                                            res.article, row, names_of(tags_for_article(old(
                                            daos).tags.tags@, old(daos).tags.article_tags@,
                                            e.id)), spec_favorited(old(daos).favorites.rows@,
                                            Some(user_id), e.id), active_fav_count(old(
                                            daos).favorites.rows@, e.id), old(
                                            daos).users.rows@[ui], spec_following(old(
                                            daos).profiles.rows@, Some(user_id), e.author_id)))
                                    }
                                },
                            }
                        }
                    },
                }
            },
    {
        validate_update_article(&req)?;
        let article = match daos.articles.get_article_by_slug(slug) {
            Some(a) => a,
            None => {
                return Err(ConduitError::NotFound(String::from_str("article not found")));
            },
        };
        if article.author_id != user_id {
            return Err(ConduitError::Forbidden(String::from_str("you are not the author")));
        }
        let author = daos.users.get_user_by_id(user_id)?;
        proof {
            lemma_find_first(daos.users.rows@, |u: UserEntity| u.id == user_id);
            lemma_find_first(daos.articles.rows@, |a: ArticleEntity| crate::articles::slug_is(a, slug@));
        }
        let ghost ai = article_slug_idx(daos.articles.rows@, slug@)->0;
        proof {
            lemma_find_first_is(daos.articles.rows@, |a: ArticleEntity| a.id == article.id, ai);
        }
        let new_slug: Option<String> = match &req.article.title {
            Some(t) => Some(slugify(t.as_str())),
            None => None,
        };
        let updated = match daos.articles.update_article(article.id, new_slug, req.article) {
            Ok(u) => u,
            Err(e) => {
                return Err(e);
            },
        };
        let tags = daos.tags.get_article_tags(article.id);
        let tag_list = tag_names(&tags);
        let favorited = daos.favorites.is_favorited(user_id, article.id);
        let count = daos.favorites.count_active(article.id);
        let following = daos.profiles.is_follow(user_id, author.id).is_some();
        let profile = Profile::from_user_entity(author, following);
        let article_view = Article {
            id: updated.id,
            slug: updated.slug,
            title: updated.title,
            description: updated.description,
            body: updated.body,
            tag_list,
            created_at: u64_to_string(updated.created_at),
            updated_at: u64_to_string(updated.updated_at),
            favorited,
            favorites_count: count as u64,
            author: profile,
        };
        Ok(UpdateArticleRes { article: article_view })
    }

    /// Deletes an article by slug: only the author may, and the article's
    /// tag associations and favorites go with it.  A missing article is
    /// `NotFound` before any authorization is judged.
    pub fn delete_article(daos: &mut Daos, slug: &str, user_id: u64) -> (r: ConduitResult<()>)
        requires
            old(daos).wf(),
        ensures
            final(daos).wf(),
            final(daos).users == old(daos).users,
            final(daos).profiles == old(daos).profiles,
            final(daos).tags.tags@ == old(daos).tags.tags@,
            final(daos).tags.next_id == old(daos).tags.next_id,
            match article_slug_idx(old(daos).articles.rows@, slug@) {
                None => {
                    &&& (r matches Err(e) && e matches ConduitError::NotFound(m) && m@
                        == "article not found"@)
                    &&& *final(daos) == *old(daos)
                },
                Some(ai) => {
                    let e = old(daos).articles.rows@[ai];
                    if e.author_id != user_id {
                        &&& (r matches Err(er) && er matches ConduitError::Forbidden(m) && m@
                            == "you are not the author"@)
                        &&& *final(daos) == *old(daos)
                    } else {
                        &&& r is Ok
                        &&& final(daos).articles.rows@ == old(daos).articles.rows@.remove(ai)
                        &&& final(daos).articles.next_id == old(daos).articles.next_id
                        &&& final(daos).tags.article_tags@ == old(
                            daos).tags.article_tags@.filter(|a: crate::tags::ArticleTagEntity|
                            a.article_id != e.id)
                        &&& final(daos).favorites.rows@ == old(daos).favorites.rows@.filter(
                            |f: crate::favorites::FavoritesEntity| f.article_id != e.id)
                    }
                },
            },
    {
        let article = match daos.articles.get_article_by_slug(slug) {
            Some(a) => a,
            None => {
                return Err(ConduitError::NotFound(String::from_str("article not found")));
            },
        };
        if article.author_id != user_id {
            return Err(ConduitError::Forbidden(String::from_str("you are not the author")));
        }
        let deleted = match daos.articles.delete_article_by_slug(slug) {
            Ok(d) => d,
            Err(e) => {
                proof {
                    assert(false);
                }
                return Err(e);
            },
        };
        daos.tags.delete_article_assocs(deleted.id);
        daos.favorites.delete_for_article(deleted.id);
        Ok(())
    }
}

} // verus!
