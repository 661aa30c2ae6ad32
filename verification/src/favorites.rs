use vstd::prelude::*;

use crate::articles::Article;
use crate::error::{ConduitError, ConduitResult};
use crate::find::{find_first, lemma_find_first, lemma_find_first_is, lemma_find_first_none};

verus! {

#[derive(Debug)]
pub struct AddFavoriteRes {
    pub article: Article,
}

#[derive(Debug)]
pub struct DeleteFavoriteRes {
    pub article: Article,
}

/// A favorite row.  The relation is logically deleted: once a pair exists
/// the row stays, and `is_deleted` records whether it is currently active.
#[derive(Debug, Clone, Copy, PartialEq, Eq, Structural)]
pub struct FavoritesEntity {
    pub user_id: u64,
    pub article_id: u64,
    pub created_at: u64,
    pub is_deleted: bool,
}

/// Index of the favorite row for this pair, deleted or not.
pub open spec fn fav_pair_idx(rows: Seq<FavoritesEntity>, user_id: u64, article_id: u64) -> Option<
    int> {
    find_first(rows, |e: FavoritesEntity| e.user_id == user_id && e.article_id == article_id)
}

/// The favorite rows of one article, deleted ones included, in store order.
pub open spec fn favorites_of(rows: Seq<FavoritesEntity>, article_id: u64) -> Seq<
    FavoritesEntity> {
    rows.filter(|e: FavoritesEntity| e.article_id == article_id)
}

/// How many users currently favorite the article.
pub open spec fn active_fav_count(rows: Seq<FavoritesEntity>, article_id: u64) -> int {
    rows.filter(|e: FavoritesEntity| e.article_id == article_id && !e.is_deleted).len() as int
}

/// Whether this user currently favorites this article.
pub open spec fn favorited_by(rows: Seq<FavoritesEntity>, user_id: u64, article_id: u64) -> bool {
    match fav_pair_idx(rows, user_id, article_id) {
        Some(i) => !rows[i].is_deleted,
        None => false,
    }
}

/// The rows after an upsert of the pair: a new active row for a pair never
/// seen, or the existing row flipped back to active.
pub open spec fn add_fav_spec(
    rows: Seq<FavoritesEntity>,
    user_id: u64,
    article_id: u64,
    now: u64,
) -> Seq<FavoritesEntity> {
    match fav_pair_idx(rows, user_id, article_id) {
        Some(i) => rows.update(i, FavoritesEntity { is_deleted: false, ..rows[i] }),
        None => rows.push(FavoritesEntity { user_id, article_id, created_at: now, is_deleted: false,
        }),
    }
}

/// The rows after a logical delete of the pair; meaningful only when the
/// pair has a row.
pub open spec fn remove_fav_spec(rows: Seq<FavoritesEntity>, user_id: u64, article_id: u64) -> Seq<
    FavoritesEntity> {
    match fav_pair_idx(rows, user_id, article_id) {
        Some(i) => rows.update(i, FavoritesEntity { is_deleted: true, ..rows[i] }),
        None => rows,
    }
}

/// After an upsert the user favorites the article.
pub proof fn lemma_add_favorited(rows: Seq<FavoritesEntity>, user_id: u64, article_id: u64,
    now: u64)
    ensures
        favorited_by(add_fav_spec(rows, user_id, article_id, now), user_id, article_id),
{
    let p = |e: FavoritesEntity| e.user_id == user_id && e.article_id == article_id;
    lemma_find_first(rows, p);
    match fav_pair_idx(rows, user_id, article_id) {
        Some(i) => {
            let new = rows.update(i, FavoritesEntity { is_deleted: false, ..rows[i] });
            lemma_find_first_is(new, |e: FavoritesEntity| e.user_id == user_id && e.article_id
                == article_id, i);
        },
        None => {
            let new = rows.push(FavoritesEntity { user_id, article_id, created_at: now, is_deleted:
                false });
            lemma_find_first_is(new, |e: FavoritesEntity| e.user_id == user_id && e.article_id
                == article_id, rows.len() as int);
        },
    }
}

/// After a logical delete the user no longer favorites the article.
pub proof fn lemma_remove_unfavorited(rows: Seq<FavoritesEntity>, user_id: u64, article_id: u64)
    ensures
        !favorited_by(remove_fav_spec(rows, user_id, article_id), user_id, article_id),
{
    let p = |e: FavoritesEntity| e.user_id == user_id && e.article_id == article_id;
    lemma_find_first(rows, p);
    match fav_pair_idx(rows, user_id, article_id) {
        Some(i) => {
            let new = rows.update(i, FavoritesEntity { is_deleted: true, ..rows[i] });
            lemma_find_first_is(new, |e: FavoritesEntity| e.user_id == user_id && e.article_id
                == article_id, i);
        },
        None => {},
    }
}

/// The favorite rows.  At most one row exists per (user, article) pair.
pub struct FavoriteStore {
    pub rows: Vec<FavoritesEntity>,
}

impl FavoriteStore {
    pub open spec fn wf(self) -> bool {
        forall|i: int, j: int|
            0 <= i < j < self.rows@.len() ==> !((#[trigger] self.rows@[i]).user_id == (
            #[trigger] self.rows@[j]).user_id && self.rows@[i].article_id
                == self.rows@[j].article_id)
    }

    pub fn new() -> (r: Self)
        ensures
            r.wf(),
            r.rows@ =~= Seq::<FavoritesEntity>::empty(),
    {
        FavoriteStore { rows: Vec::new() }
    }

    /// Atomic upsert: inserts an active row for a new pair, or flips an
    /// existing row (deleted or not) back to active.  The returned snapshot
    /// is the row as stored afterwards.
    pub fn add_favorite(&mut self, user_id: u64, article_id: u64, now: u64) -> (r: FavoritesEntity)
        requires
            old(self).wf(),
        ensures
            final(self).wf(),
            r.user_id == user_id,
            r.article_id == article_id,
            !r.is_deleted,
            match fav_pair_idx(old(self).rows@, user_id, article_id) {
                Some(i) => r == (FavoritesEntity {
                    is_deleted: false,
                    ..old(self).rows@[i]
                }) && final(self).rows@ =~= old(self).rows@.update(i, r),
                None => r == (FavoritesEntity {
                    user_id,
                    article_id,
                    created_at: now,
                    is_deleted: false,
                }) && final(self).rows@ =~= old(self).rows@.push(r),
            },
    {
        let n = self.rows.len();
        let mut i: usize = 0;
        while i < n
            invariant
                0 <= i <= n,
                n == self.rows@.len(),
                *self == *old(self),
                old(self).wf(),
                forall|j: int|
                    0 <= j < i ==> !((#[trigger] self.rows@[j]).user_id == user_id
                        && self.rows@[j].article_id == article_id),
            decreases n - i,
        {
            if self.rows[i].user_id == user_id && self.rows[i].article_id == article_id {
                proof {
                    lemma_find_first_is(self.rows@, |e: FavoritesEntity| e.user_id == user_id
                        && e.article_id == article_id, i as int);
                }
                let updated = FavoritesEntity {
                    user_id: self.rows[i].user_id,
                    article_id: self.rows[i].article_id,
                    created_at: self.rows[i].created_at,
                    is_deleted: false,
                };
                let ghost prev = self.rows@;
                self.rows.set(i, updated);
                proof {
                    assert(self.rows@ =~= prev.update(i as int, updated));
                }
                return updated;
            }
            i += 1;
        }
        proof {
            lemma_find_first_none(self.rows@, |e: FavoritesEntity| e.user_id == user_id
                && e.article_id == article_id);
        }
        let e = FavoritesEntity { user_id, article_id, created_at: now, is_deleted: false };
        self.rows.push(e);
        e
    }

    /// Marks the row for the pair deleted, returning the row as stored
    /// afterwards; a pair never favorited is a `NotFound`, not a silent
    /// success.
    pub fn remove_favorite(&mut self, user_id: u64, article_id: u64) -> (r: ConduitResult<
        FavoritesEntity>)
        requires
            old(self).wf(),
        ensures
            final(self).wf(),
            match fav_pair_idx(old(self).rows@, user_id, article_id) {
                Some(i) => r matches Ok(e) && e == (FavoritesEntity {
                    is_deleted: true,
                    ..old(self).rows@[i]
                }) && final(self).rows@ =~= old(self).rows@.update(i, e),
                None => r matches Err(e) && e matches ConduitError::NotFound(m) && m@
                    == "favorite not found"@ && *final(self) == *old(self),
            },
    {
        let n = self.rows.len();
        let mut i: usize = 0;
        while i < n
            invariant
                0 <= i <= n,
                n == self.rows@.len(),
                *self == *old(self),
                old(self).wf(),
                forall|j: int|
                    0 <= j < i ==> !((#[trigger] self.rows@[j]).user_id == user_id
                        && self.rows@[j].article_id == article_id),
            decreases n - i,
        {
            if self.rows[i].user_id == user_id && self.rows[i].article_id == article_id {
                proof {
                    lemma_find_first_is(self.rows@, |e: FavoritesEntity| e.user_id == user_id
                        && e.article_id == article_id, i as int);
                }
                let updated = FavoritesEntity {
                    user_id: self.rows[i].user_id,
                    article_id: self.rows[i].article_id,
                    created_at: self.rows[i].created_at,
                    is_deleted: true,
                };
                let ghost prev = self.rows@;
                self.rows.set(i, updated);
                proof {
                    assert(self.rows@ =~= prev.update(i as int, updated));
                }
                return Ok(updated);
            }
            i += 1;
        }
        proof {
            lemma_find_first_none(self.rows@, |e: FavoritesEntity| e.user_id == user_id
                && e.article_id == article_id);
        }
        Err(ConduitError::NotFound(String::from_str("favorite not found")))
    }

    /// Drops every favorite row of one article, as deleting the article
    /// does.
    pub fn delete_for_article(&mut self, article_id: u64)
        requires
            old(self).wf(),
        ensures
            final(self).wf(),
            final(self).rows@ == old(self).rows@.filter(|e: FavoritesEntity| e.article_id
                != article_id),
    {
        let mut kept: Vec<FavoritesEntity> = Vec::new();
        let n = self.rows.len();
        let mut i: usize = 0;
        proof {
            reveal(Seq::filter);
            assert(self.rows@.subrange(0, 0) =~= Seq::<FavoritesEntity>::empty());
        }
        while i < n
            invariant
                0 <= i <= n,
                n == self.rows@.len(),
                *self == *old(self),
                old(self).wf(),
                kept@ == self.rows@.subrange(0, i as int).filter(|e: FavoritesEntity| e.article_id
                    != article_id),
                forall|a: int| 0 <= a < kept@.len() ==> exists|j: int|
                    0 <= j < i && #[trigger] kept@[a] == self.rows@[j],
                forall|a: int, b: int|
                    0 <= a < b < kept@.len() ==> !((#[trigger] kept@[a]).user_id == (
                    #[trigger] kept@[b]).user_id && kept@[a].article_id == kept@[b].article_id),
            decreases n - i,
        {
            proof {
                let pre = self.rows@.subrange(0, i as int);
                assert(self.rows@.subrange(0, i + 1) =~= pre.push(self.rows@[i as int]));
                pre.lemma_filter_push(self.rows@[i as int], |e: FavoritesEntity| e.article_id
                    != article_id);
            }
            let ghost prev_kept = kept@;
            if self.rows[i].article_id != article_id {
                kept.push(self.rows[i]);
                proof {
                    assert forall|a: int| 0 <= a < kept@.len() implies exists|j: int|
                        0 <= j < i + 1 && #[trigger] kept@[a] == self.rows@[j] by {
                        if a < prev_kept.len() {
                            assert(kept@[a] == prev_kept[a]);
                            let j = choose|j: int|
                                0 <= j < i && #[trigger] prev_kept[a] == self.rows@[j];
                            assert(kept@[a] == self.rows@[j]);
                        } else {
                            assert(kept@[a] == self.rows@[i as int]);
                        }
                    }
                    assert forall|a: int| 0 <= a < prev_kept.len() implies !((
                    #[trigger] kept@[a]).user_id == self.rows@[i as int].user_id
                        && kept@[a].article_id == self.rows@[i as int].article_id) by {
                        let j = choose|j: int|
                            0 <= j < i && #[trigger] prev_kept[a] == self.rows@[j];
                        assert(kept@[a] == self.rows@[j]);
                    }
                }
            }
            i += 1;
        }
        proof {
            assert(self.rows@.subrange(0, n as int) =~= self.rows@);
        }
        self.rows = kept;
    }

    /// All favorite rows of an article, deleted ones included; callers
    /// derive the count and the per-user flag from the active rows.
    pub fn get_favorites_by_article_id(&self, article_id: u64) -> (r: Vec<FavoritesEntity>)
        ensures
            r@ == favorites_of(self.rows@, article_id),
    {
        let mut r: Vec<FavoritesEntity> = Vec::new();
        let n = self.rows.len();
        let mut i: usize = 0;
        proof {
            reveal(Seq::filter);
            assert(self.rows@.subrange(0, 0) =~= Seq::<FavoritesEntity>::empty());
        }
        while i < n
            invariant
                0 <= i <= n,
                n == self.rows@.len(),
                r@ == self.rows@.subrange(0, i as int).filter(|e: FavoritesEntity| e.article_id
                    == article_id),
            decreases n - i,
        {
            proof {
                let pre = self.rows@.subrange(0, i as int);
                assert(self.rows@.subrange(0, i + 1) =~= pre.push(self.rows@[i as int]));
                pre.lemma_filter_push(self.rows@[i as int], |e: FavoritesEntity| e.article_id
                    == article_id);
            }
            if self.rows[i].article_id == article_id {
                r.push(self.rows[i]);
            }
            i += 1;
        }
        proof {
            assert(self.rows@.subrange(0, n as int) =~= self.rows@);
        }
        r
    }

    /// How many users currently favorite the article, counted over the
    /// active rows alone.
    pub fn count_active(&self, article_id: u64) -> (r: usize)
        ensures
            r as int == active_fav_count(self.rows@, article_id),
    {
        let mut count: usize = 0;
        let n = self.rows.len();
        let mut i: usize = 0;
        proof {
            reveal(Seq::filter);
            assert(self.rows@.subrange(0, 0) =~= Seq::<FavoritesEntity>::empty());
        }
        while i < n
            invariant
                0 <= i <= n,
                n == self.rows@.len(),
                count as int == self.rows@.subrange(0, i as int).filter(
                    |e: FavoritesEntity| e.article_id == article_id && !e.is_deleted).len(),
                count <= i,
            decreases n - i,
        {
            proof {
                let pre = self.rows@.subrange(0, i as int);
                assert(self.rows@.subrange(0, i + 1) =~= pre.push(self.rows@[i as int]));
                pre.lemma_filter_push(self.rows@[i as int], |e: FavoritesEntity| e.article_id
                    == article_id && !e.is_deleted);
                pre.lemma_filter_len(|e: FavoritesEntity| e.article_id == article_id
                    && !e.is_deleted);
            }
            if self.rows[i].article_id == article_id && !self.rows[i].is_deleted {
                count += 1;
            }
            i += 1;
        }
        proof {
            assert(self.rows@.subrange(0, n as int) =~= self.rows@);
        }
        count
    }

    /// Whether this user currently favorites this article.
    pub fn is_favorited(&self, user_id: u64, article_id: u64) -> (r: bool)
        ensures
            r == favorited_by(self.rows@, user_id, article_id),
    {
        let n = self.rows.len();
        let mut i: usize = 0;
        while i < n
            invariant
                0 <= i <= n,
                n == self.rows@.len(),
                forall|j: int|
                    0 <= j < i ==> !((#[trigger] self.rows@[j]).user_id == user_id
                        && self.rows@[j].article_id == article_id),
            decreases n - i,
        {
            if self.rows[i].user_id == user_id && self.rows[i].article_id == article_id {
                proof {
                    lemma_find_first_is(self.rows@, |e: FavoritesEntity| e.user_id == user_id
                        && e.article_id == article_id, i as int);
                }
                return !self.rows[i].is_deleted;
            }
            i += 1;
        }
        proof {
            lemma_find_first_none(self.rows@, |e: FavoritesEntity| e.user_id == user_id
                && e.article_id == article_id);
        }
        false
    }
}

/// The favorite toggle is a two-state flip: favoriting, unfavoriting and
/// favoriting again a pair never favorited before leaves exactly one
/// persisted row for it, currently active, and raises the article's active
/// count by exactly one.
pub proof fn lemma_favorite_toggle(
    rows: Seq<FavoritesEntity>,
    user_id: u64,
    article_id: u64,
    n1: u64,
    n3: u64,
)
    requires
        fav_pair_idx(rows, user_id, article_id) is None,
    ensures
        ({
            let r1 = add_fav_spec(rows, user_id, article_id, n1);
            let r2 = remove_fav_spec(r1, user_id, article_id);
            let r3 = add_fav_spec(r2, user_id, article_id, n3);
            &&& r3.len() == rows.len() + 1
            &&& favorited_by(r3, user_id, article_id)
            &&& active_fav_count(r3, article_id) == active_fav_count(rows, article_id) + 1
            &&& forall|j: int, k: int|
                0 <= j < r3.len() && 0 <= k < r3.len() && (#[trigger] r3[j]).user_id == user_id
                    && r3[j].article_id == article_id && (#[trigger] r3[k]).user_id == user_id
                    && r3[k].article_id == article_id ==> j == k
        }),
{
    broadcast use vstd::prelude::Seq::lemma_filter_push;

    let p = |x: FavoritesEntity| x.user_id == user_id && x.article_id == article_id;
    let active = FavoritesEntity { user_id, article_id, created_at: n1, is_deleted: false };
    let deleted = FavoritesEntity { user_id, article_id, created_at: n1, is_deleted: true };
    lemma_find_first(rows, p);
    let r1 = add_fav_spec(rows, user_id, article_id, n1);
    assert(r1 == rows.push(active));
    lemma_find_first_is(r1, |x: FavoritesEntity| x.user_id == user_id && x.article_id
        == article_id, rows.len() as int);
    let r2 = remove_fav_spec(r1, user_id, article_id);
    assert(r2 =~= rows.push(deleted));
    lemma_find_first_is(r2, |x: FavoritesEntity| x.user_id == user_id && x.article_id
        == article_id, rows.len() as int);
    let r3 = add_fav_spec(r2, user_id, article_id, n3);
    let active3 = FavoritesEntity { user_id, article_id, created_at: n1, is_deleted: false };
    assert(r3 =~= rows.push(active3));
    lemma_find_first_is(r3, |x: FavoritesEntity| x.user_id == user_id && x.article_id
        == article_id, rows.len() as int);
    let q = |x: FavoritesEntity| x.article_id == article_id && !x.is_deleted;
    assert(rows.push(active3).filter(q) == rows.filter(q).push(active3));
    assert forall|j: int, k: int|
        0 <= j < r3.len() && 0 <= k < r3.len() && (#[trigger] r3[j]).user_id == user_id
            && r3[j].article_id == article_id && (#[trigger] r3[k]).user_id == user_id
            && r3[k].article_id == article_id implies j == k by {
        if j < rows.len() {
            assert(r3[j] == rows[j]);
            assert(!p(rows[j]));
        }
        if k < rows.len() {
            assert(r3[k] == rows[k]);
            assert(!p(rows[k]));
        }
    }
}

} // verus!
