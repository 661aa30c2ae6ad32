use vstd::prelude::*;

use crate::error::{ConduitError, ConduitResult};
use crate::find::{find_first, lemma_find_first, lemma_find_first_is, lemma_find_first_none};
use crate::numfmt::{dec_digits, u64_to_string};
use crate::profiles::Profile;
use crate::strutil::str_eq;

verus! {

/// An article payload as deserialized: every field may still be absent.
#[derive(Debug, PartialEq)]
pub struct NewArticle {
    pub title: Option<String>,
    pub description: Option<String>,
    pub body: Option<String>,
    pub tag_list: Option<Vec<String>>,
}

impl NewArticle {
    /// Strips the options off a payload that already passed validation.
    pub fn into_validated(self) -> (r: NewArticleValidated)
        requires
            self.title is Some,
            self.description is Some,
            self.body is Some,
        ensures
            r.title == self.title->0,
            r.description == self.description->0,
            r.body == self.body->0,
            r.tag_list@ == (if self.tag_list is Some { self.tag_list->0@ } else {
                Seq::<String>::empty()
            }),
    {
        let tag_list = match self.tag_list {
            Some(t) => t,
            None => Vec::new(),
        };
        NewArticleValidated {
            title: self.title.unwrap(),
            description: self.description.unwrap(),
            body: self.body.unwrap(),
            tag_list,
        }
    }
}

/// An article payload whose required fields are known to be present.
#[derive(Debug)]
pub struct NewArticleValidated {
    pub title: String,
    pub description: String,
    pub body: String,
    pub tag_list: Vec<String>,
}

impl Clone for NewArticleValidated {
    fn clone(&self) -> (r: Self)
        ensures
            r.title == self.title,
            r.description == self.description,
            r.body == self.body,
            r.tag_list@ == self.tag_list@,
    {
        NewArticleValidated {
            title: self.title.clone(),
            description: self.description.clone(),
            body: self.body.clone(),
            tag_list: clone_strings(&self.tag_list),
        }
    }
}

/// Clones a vector of strings, keeping its view.
pub fn clone_strings(v: &Vec<String>) -> (r: Vec<String>)
    ensures
        r@ == v@,
{
    let mut r: Vec<String> = Vec::new();
    let n = v.len();
    let mut i: usize = 0;
    while i < n
        invariant
            0 <= i <= n,
            n == v@.len(),
            r@ =~= v@.subrange(0, i as int),
        decreases n - i,
    {
        r.push(v[i].clone());
        proof {
            assert(r@ =~= v@.subrange(0, i + 1));
        }
        i += 1;
    }
    proof {
        assert(v@.subrange(0, n as int) =~= v@);
    }
    r
}

#[derive(Debug)]
pub struct CreateArticleReq {
    pub article: NewArticle,
}

/// The outward article view.
#[derive(Debug, PartialEq)]
pub struct Article {
    pub id: u64,
    pub slug: String,
    pub title: String,
    pub description: String,
    pub body: String,
    pub tag_list: Vec<String>,
    pub created_at: String,
    pub updated_at: String,
    pub favorited: bool,
    pub favorites_count: u64,
    pub author: Profile,
}

impl Article {
    /// Assembles the outward view of a stored row.  The tag list is left
    /// empty; callers that know the tags fill it in.
    pub(crate) fn from_entity(
        article: ArticleEntity,
        profile: Profile,
        is_favorite_current_user: bool,
        favorites_count: u64,
    ) -> (r: Article)
        ensures
            r.id == article.id,
            r.slug == article.slug,
            r.title == article.title,
            r.description == article.description,
            r.body == article.body,
            r.tag_list@ =~= Seq::<String>::empty(),
            r.created_at@ == dec_digits(article.created_at as nat),
            r.updated_at@ == dec_digits(article.updated_at as nat),
            r.favorited == is_favorite_current_user,
            r.favorites_count == favorites_count,
            r.author == profile,
    {
        Article {
            id: article.id,
            slug: article.slug,
            title: article.title,
            description: article.description,
            body: article.body,
            tag_list: Vec::new(),
            created_at: u64_to_string(article.created_at),
            updated_at: u64_to_string(article.updated_at),
            favorited: is_favorite_current_user,
            favorites_count,
            author: profile,
        }
    }
}

#[derive(Debug)]
pub struct CreateArticleRes {
    pub article: Article,
}

#[derive(Debug)]
pub struct GetArticleRes {
    pub article: Article,
}

/// A partial article update: absent fields keep their prior values.
#[derive(Debug)]
pub struct UpdateArticle {
    pub title: Option<String>,
    pub description: Option<String>,
    pub body: Option<String>,
}

#[derive(Debug)]
pub struct UpdateArticleReq {
    pub article: UpdateArticle,
}

#[derive(Debug)]
pub struct UpdateArticleRes {
    pub article: Article,
}

/// Everything the store needs to insert an article.
#[derive(Debug)]
pub struct CreatArticle {
    pub article: NewArticleValidated,
    pub author_id: u64,
    pub slug: String,
}

impl CreatArticle {
    pub fn new(article: NewArticleValidated, author_id: u64, slug: String) -> (r: Self)
        ensures
            r.article == article,
            r.author_id == author_id,
            r.slug == slug,
    {
        Self { article, author_id, slug }
    }
}

impl Clone for CreatArticle {
    fn clone(&self) -> (r: Self)
        ensures
            r.article.title == self.article.title,
            r.article.description == self.article.description,
            r.article.body == self.article.body,
            r.article.tag_list@ == self.article.tag_list@,
            r.author_id == self.author_id,
            r.slug == self.slug,
    {
        CreatArticle {
            article: self.article.clone(),
            author_id: self.author_id,
            slug: self.slug.clone(),
        }
    }
}

/// A stored article row.
#[derive(Debug, PartialEq)]
pub struct ArticleEntity {
    pub id: u64,
    pub created_at: u64,
    pub updated_at: u64,
    pub title: String,
    pub slug: String,
    pub description: String,
    pub body: String,
    pub author_id: u64,
}

impl Clone for ArticleEntity {
    fn clone(&self) -> (r: Self)
        ensures
            r == *self,
    {
        ArticleEntity {
            id: self.id,
            created_at: self.created_at,
            updated_at: self.updated_at,
            title: self.title.clone(),
            slug: self.slug.clone(),
            description: self.description.clone(),
            body: self.body.clone(),
            author_id: self.author_id,
        }
    }
}

/// Whether a row carries this slug.
pub open spec fn slug_is(e: ArticleEntity, slug: Seq<char>) -> bool {
    e.slug@ == slug
}

/// Index of the article row with this slug.
pub open spec fn article_slug_idx(rows: Seq<ArticleEntity>, slug: Seq<char>) -> Option<int> {
    find_first(rows, |e: ArticleEntity| slug_is(e, slug))
}

/// Index of the article row with this id.
pub open spec fn article_idx(rows: Seq<ArticleEntity>, id: u64) -> Option<int> {
    find_first(rows, |e: ArticleEntity| e.id == id)
}

/// The row a fresh insert produces.
pub open spec fn article_created(ca: CreatArticle, id: u64, now: u64) -> ArticleEntity {
    ArticleEntity {
        id,
        created_at: now,
        updated_at: now,
        title: ca.article.title,
        slug: ca.slug,
        description: ca.article.description,
        body: ca.article.body,
        author_id: ca.author_id,
    }
}

/// The row a partial update produces: present fields replace, absent fields
/// keep their prior values.
pub open spec fn apply_article_update(
    e: ArticleEntity,
    slug: Option<String>,
    up: UpdateArticle,
) -> ArticleEntity {
    ArticleEntity {
        id: e.id,
        created_at: e.created_at,
        updated_at: e.updated_at,
        title: if up.title is Some { up.title->0 } else { e.title },
        slug: if slug is Some { slug->0 } else { e.slug },
        description: if up.description is Some { up.description->0 } else { e.description },
        body: if up.body is Some { up.body->0 } else { e.body },
        author_id: e.author_id,
    }
}

/// Whether a supplied new slug would collide with an article other than the
/// one at index `i`.
pub open spec fn slug_collides(rows: Seq<ArticleEntity>, i: int, slug: Option<String>) -> bool {
    slug is Some && exists|j: int|
        0 <= j < rows.len() && j != i && (#[trigger] rows[j]).slug@ == slug->0@
}

/// The article rows.  Ids and slugs are unique; ids are assigned from a
/// growing counter, so a deleted id is never reissued.
pub struct ArticleStore {
    pub rows: Vec<ArticleEntity>,
    pub next_id: u64,
}

impl ArticleStore {
    pub open spec fn wf(self) -> bool {
        &&& forall|i: int, j: int|
            0 <= i < j < self.rows@.len() ==> (#[trigger] self.rows@[i]).id != (
            #[trigger] self.rows@[j]).id
        &&& forall|i: int, j: int|
            0 <= i < j < self.rows@.len() ==> (#[trigger] self.rows@[i]).slug@ != (
            #[trigger] self.rows@[j]).slug@
        &&& forall|i: int| 0 <= i < self.rows@.len() ==> (#[trigger] self.rows@[i]).id
            < self.next_id
    }

    pub fn new() -> (r: Self)
        ensures
            r.wf(),
            r.rows@ =~= Seq::<ArticleEntity>::empty(),
            r.next_id == 0,
    {
        ArticleStore { rows: Vec::new(), next_id: 0 }
    }

    /// Conflict-do-nothing insert: `None` when the slug is already taken,
    /// and the store is then left unchanged.
    pub fn create_article(&mut self, create_article: CreatArticle, now: u64) -> (r: Option<
        ArticleEntity>)
        requires
            old(self).wf(),
            old(self).next_id < u64::MAX,
        ensures
            final(self).wf(),
            match article_slug_idx(old(self).rows@, create_article.slug@) {
                Some(_) => r is None && *final(self) == *old(self),
                None => r == Some(article_created(create_article, old(self).next_id, now))
                    && final(self).rows@ =~= old(self).rows@.push(r->0) && final(self).next_id
                    == old(self).next_id + 1,
            },
    {
        let n = self.rows.len();
        let mut i: usize = 0;
        while i < n
            invariant
                0 <= i <= n,
                n == self.rows@.len(),
                *self == *old(self),
                old(self).wf(),
                old(self).next_id < u64::MAX,
                forall|j: int| 0 <= j < i ==> (#[trigger] self.rows@[j]).slug@
                    != create_article.slug@,
            decreases n - i,
        {
            if str_eq(self.rows[i].slug.as_str(), create_article.slug.as_str()) {
                proof {
                    lemma_find_first_is(self.rows@, |e: ArticleEntity| slug_is(e,
                        create_article.slug@), i as int);
                }
                return None;
            }
            i += 1;
        }
        proof {
            lemma_find_first_none(self.rows@, |e: ArticleEntity| slug_is(e, create_article.slug@));
        }
        let e = ArticleEntity {
            id: self.next_id,
            created_at: now,
            updated_at: now,
            title: create_article.article.title,
            slug: create_article.slug,
            description: create_article.article.description,
            body: create_article.article.body,
            author_id: create_article.author_id,
        };
        let r = e.clone();
        self.rows.push(e);
        self.next_id = self.next_id + 1;
        Some(r)
    }

    /// Read-only lookup by slug.
    pub fn get_article_by_slug(&self, slug: &str) -> (r: Option<ArticleEntity>)
        ensures
            match article_slug_idx(self.rows@, slug@) {
                Some(i) => r matches Some(e) && e == self.rows@[i],
                None => r is None,
            },
    {
        let n = self.rows.len();
        let mut i: usize = 0;
        while i < n
            invariant
                0 <= i <= n,
                n == self.rows@.len(),
                forall|j: int| 0 <= j < i ==> (#[trigger] self.rows@[j]).slug@ != slug@,
            decreases n - i,
        {
            if str_eq(self.rows[i].slug.as_str(), slug) {
                proof {
                    lemma_find_first_is(self.rows@, |e: ArticleEntity| slug_is(e, slug@), i as int);
                }
                return Some(self.rows[i].clone());
            }
            i += 1;
        }
        proof {
            lemma_find_first_none(self.rows@, |e: ArticleEntity| slug_is(e, slug@));
        }
        None
    }

    /// Updates only the supplied fields of the row with this id, atomically:
    /// when the supplied new slug collides with another article, nothing at
    /// all is changed and the caller gets a `Conflict`.
    pub fn update_article(
        &mut self,
        article_id: u64,
        slug: Option<String>,
        update_article: UpdateArticle,
    ) -> (r: ConduitResult<ArticleEntity>)
        requires
            old(self).wf(),
        ensures
            final(self).wf(),
            match article_idx(old(self).rows@, article_id) {
                Some(i) => {
                    if slug_collides(old(self).rows@, i, slug) {
                        r matches Err(e) && e matches ConduitError::Conflict(m) && m@
                            == "slug already exists"@ && *final(self) == *old(self)
                    } else {
                        r matches Ok(e) && e == apply_article_update(old(self).rows@[i], slug,
                            update_article) && final(self).rows@ =~= old(self).rows@.update(i, e)
                            && final(self).next_id == old(self).next_id
                    }
                },
                None => r matches Err(e) && e matches ConduitError::NotFound(m) && m@
                    == "article not found"@ && *final(self) == *old(self),
            },
    {
        let n = self.rows.len();
        let mut i: usize = 0;
        while i < n
            invariant
                0 <= i <= n,
                n == self.rows@.len(),
                *self == *old(self),
                old(self).wf(),
                forall|j: int| 0 <= j < i ==> (#[trigger] self.rows@[j]).id != article_id,
            decreases n - i,
        {
            if self.rows[i].id == article_id {
                proof {
                    lemma_find_first_is(self.rows@, |e: ArticleEntity| e.id == article_id,
                        i as int);
                }
                return self.update_at(i, slug, update_article);
            }
            i += 1;
        }
        proof {
            lemma_find_first_none(self.rows@, |e: ArticleEntity| e.id == article_id);
        }
        Err(ConduitError::NotFound(String::from_str("article not found")))
    }

    /// The slug-checked update once the row position is known.
    fn update_at(&mut self, i: usize, slug: Option<String>, update_article: UpdateArticle) -> (r:
        ConduitResult<ArticleEntity>)
        requires
            old(self).wf(),
            0 <= i < old(self).rows@.len(),
        ensures
            final(self).wf(),
            if slug_collides(old(self).rows@, i as int, slug) {
                r matches Err(e) && e matches ConduitError::Conflict(m) && m@
                    == "slug already exists"@ && *final(self) == *old(self)
            } else {
                r matches Ok(e) && e == apply_article_update(old(self).rows@[i as int], slug,
                    update_article) && final(self).rows@ =~= old(self).rows@.update(i as int, e)
                    && final(self).next_id == old(self).next_id
            },
    {
        if let Some(s) = &slug {
            let n = self.rows.len();
            let mut j: usize = 0;
            while j < n
                invariant
                    0 <= j <= n,
                    n == self.rows@.len(),
                    *self == *old(self),
                    old(self).wf(),
                    0 <= i < n,
                    slug matches Some(sl) && sl@ == s@,
                    forall|k: int| 0 <= k < j && k != i ==> (#[trigger] self.rows@[k]).slug@ != s@,
                decreases n - j,
            {
                if j != i && str_eq(self.rows[j].slug.as_str(), s.as_str()) {
                    return Err(ConduitError::Conflict(String::from_str("slug already exists")));
                }
                j += 1;
            }
        }
        proof {
            assert(!slug_collides(self.rows@, i as int, slug));
        }
        let prior = &self.rows[i];
        let updated = ArticleEntity {
            id: prior.id,
            created_at: prior.created_at,
            updated_at: prior.updated_at,
            title: match update_article.title {
                Some(t) => t,
                None => prior.title.clone(),
            },
            slug: match slug {
                Some(s) => s,
                None => prior.slug.clone(),
            },
            description: match update_article.description {
                Some(d) => d,
                None => prior.description.clone(),
            },
            body: match update_article.body {
                Some(b) => b,
                None => prior.body.clone(),
            },
            author_id: prior.author_id,
        };
        let r = updated.clone();
        let ghost prev = self.rows@;
        self.rows.set(i, updated);
        proof {
            assert(self.rows@ =~= prev.update(i as int, r));
            assert forall|a: int, b: int|
                0 <= a < b < self.rows@.len() implies (#[trigger] self.rows@[a]).slug@ != (
            #[trigger] self.rows@[b]).slug@ by {
                assert(prev[a].slug@ != prev[b].slug@);
            }
        }
        Ok(r)
    }

    /// Deletes the row with this slug, returning the deleted snapshot;
    /// absence is a `NotFound`.
    pub fn delete_article_by_slug(&mut self, slug: &str) -> (r: ConduitResult<ArticleEntity>)
        requires
            old(self).wf(),
        ensures
            final(self).wf(),
            match article_slug_idx(old(self).rows@, slug@) {
                Some(i) => r matches Ok(e) && e == old(self).rows@[i] && final(self).rows@ =~= old(
                    self).rows@.remove(i) && final(self).next_id == old(self).next_id,
                None => r matches Err(e) && e matches ConduitError::NotFound(m) && m@
                    == "article not found"@ && *final(self) == *old(self),
            },
    {
        let n = self.rows.len();
        let mut i: usize = 0;
        while i < n
            invariant
                0 <= i <= n,
                n == self.rows@.len(),
                *self == *old(self),
                old(self).wf(),
                forall|j: int| 0 <= j < i ==> (#[trigger] self.rows@[j]).slug@ != slug@,
            decreases n - i,
        {
            if str_eq(self.rows[i].slug.as_str(), slug) {
                proof {
                    lemma_find_first_is(self.rows@, |e: ArticleEntity| slug_is(e, slug@), i as int);
                }
                let e = self.rows.remove(i);
                proof {
                    let prev = old(self).rows@;
                    assert(self.rows@ =~= prev.remove(i as int));
                    assert forall|a: int, b: int|
                        0 <= a < b < self.rows@.len() implies (#[trigger] self.rows@[a]).id != (
                    #[trigger] self.rows@[b]).id && self.rows@[a].slug@ != self.rows@[b].slug@ by {
                        let a0 = if a < i as int { a } else { a + 1 };
                        let b0 = if b < i as int { b } else { b + 1 };
                        assert(self.rows@[a] == prev[a0]);
                        assert(self.rows@[b] == prev[b0]);
                    }
                    assert forall|a: int| 0 <= a < self.rows@.len() implies (
                    #[trigger] self.rows@[a]).id < self.next_id by {
                        let a0 = if a < i as int { a } else { a + 1 };
                        assert(self.rows@[a] == prev[a0]);
                    }
                }
                return Ok(e);
            }
            i += 1;
        }
        proof {
            lemma_find_first_none(self.rows@, |e: ArticleEntity| slug_is(e, slug@));
        }
        Err(ConduitError::NotFound(String::from_str("article not found")))
    }
}

/// Slug uniqueness under creation, stated over the derived slugs `s1` of
/// the first title and `s2` of the second: after an article with slug `s1`
/// is inserted into a store that did not hold it, a second creation whose
/// title folds to a different unused slug still finds its slug free, while
/// one whose title folds to the same slug finds it taken — and the store
/// holds exactly one row with that slug.
pub proof fn lemma_create_slug_conflict(
    rows: Seq<ArticleEntity>,
    row1: ArticleEntity,
    s1: Seq<char>,
    s2: Seq<char>,
)
    requires
        article_slug_idx(rows, s1) is None,
        row1.slug@ == s1,
    ensures
        s2 != s1 && article_slug_idx(rows, s2) is None ==> article_slug_idx(rows.push(row1),
            s2) is None,
        article_slug_idx(rows.push(row1), s1) == Some(rows.len() as int),
        forall|j: int, k: int|
            0 <= j < rows.push(row1).len() && 0 <= k < rows.push(row1).len() && (
            #[trigger] rows.push(row1)[j]).slug@ == s1 && (#[trigger] rows.push(row1)[k]).slug@
                == s1 ==> j == k,
{
    let grown = rows.push(row1);
    lemma_find_first(rows, |e: ArticleEntity| slug_is(e, s1));
    assert(grown[rows.len() as int] == row1);
    assert forall|j: int| 0 <= j < rows.len() implies (#[trigger] grown[j]).slug@ != s1 by {
        assert(grown[j] == rows[j]);
    }
    lemma_find_first_is(grown, |e: ArticleEntity| slug_is(e, s1), rows.len() as int);
    if s2 != s1 && article_slug_idx(rows, s2) is None {
        lemma_find_first(rows, |e: ArticleEntity| slug_is(e, s2));
        assert forall|j: int| 0 <= j < grown.len() implies (#[trigger] grown[j]).slug@ != s2 by {
            if j < rows.len() {
                assert(grown[j] == rows[j]);
            } else {
                assert(grown[j] == row1);
            }
        }
        lemma_find_first_none(grown, |e: ArticleEntity| slug_is(e, s2));
    }
}



} // verus!
