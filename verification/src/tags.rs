use vstd::prelude::*;

use crate::error::ConduitResult;
use crate::find::{find_first, lemma_find_first, lemma_find_first_is, lemma_find_first_none};
use crate::strutil::str_eq;

verus! {

/// A row of the tag vocabulary.
#[derive(Debug, PartialEq)]
pub struct TagEntity {
    pub id: u64,
    pub tag: String,
    pub created_at: u64,
}

impl Clone for TagEntity {
    fn clone(&self) -> (r: Self)
        ensures
            r == *self,
    {
        TagEntity { id: self.id, tag: self.tag.clone(), created_at: self.created_at }
    }
}

/// An article-to-tag association row.
#[derive(Debug, Clone, Copy, PartialEq, Eq, Structural)]
pub struct ArticleTagEntity {
    pub article_id: u64,
    pub tag_id: u64,
    pub created_at: u64,
}

/// One row of the join of associations against the vocabulary.
#[derive(Debug, PartialEq)]
pub struct ArticleTagQuery {
    pub article_id: u64,
    pub tag_id: u64,
    pub tag: String,
}

/// Whether a vocabulary row carries this tag text.
pub open spec fn tag_is(e: TagEntity, name: Seq<char>) -> bool {
    e.tag@ == name
}

/// Index of the vocabulary row with this tag text.
pub open spec fn tag_name_idx(tags: Seq<TagEntity>, name: Seq<char>) -> Option<int> {
    find_first(tags, |e: TagEntity| tag_is(e, name))
}

/// Index of the vocabulary row with this id.
pub open spec fn tag_id_idx(tags: Seq<TagEntity>, id: u64) -> Option<int> {
    find_first(tags, |e: TagEntity| e.id == id)
}

/// Index of the association row for this pair.
pub open spec fn assoc_pair_idx(assocs: Seq<ArticleTagEntity>, article_id: u64, tag_id: u64)
    -> Option<int> {
    find_first(assocs, |e: ArticleTagEntity| e.article_id == article_id && e.tag_id == tag_id)
}

/// Whether some string in `names` has these characters.
pub open spec fn name_in(names: Seq<String>, name: Seq<char>) -> bool {
    exists|i: int| 0 <= i < names.len() && (#[trigger] names[i])@ == name
}

/// What a bulk conflict-do-nothing insert of `names` produces, processing
/// the names in order: the newly inserted rows, the vocabulary afterwards,
/// and the id counter afterwards.
pub open spec fn create_tags_spec(tags: Seq<TagEntity>, names: Seq<String>, next_id: int, now: u64)
    -> (Seq<TagEntity>, Seq<TagEntity>, int)
    decreases names.len(),
{
    if names.len() == 0 {
        (Seq::<TagEntity>::empty(), tags, next_id)
    } else {
        let rec = create_tags_spec(tags, names.drop_last(), next_id, now);
        if tag_name_idx(rec.1, names.last()@) is Some {
            rec
        } else {
            let e = TagEntity { id: rec.2 as u64, tag: names.last(), created_at: now };
            (rec.0.push(e), rec.1.push(e), rec.2 + 1)
        }
    }
}

/// What a bulk conflict-do-nothing insert of association `pairs` produces,
/// processing the pairs in order.
pub open spec fn assocs_after(
    assocs: Seq<ArticleTagEntity>,
    pairs: Seq<(u64, u64)>,
    now: u64,
) -> Seq<ArticleTagEntity>
    decreases pairs.len(),
{
    if pairs.len() == 0 {
        assocs
    } else {
        let rec = assocs_after(assocs, pairs.drop_last(), now);
        if assoc_pair_idx(rec, pairs.last().0, pairs.last().1) is Some {
            rec
        } else {
            rec.push(ArticleTagEntity {
                article_id: pairs.last().0,
                tag_id: pairs.last().1,
                created_at: now,
            })
        }
    }
}

/// The tags an article carries: for each association row of the article, in
/// store order, the vocabulary row it points at.
pub open spec fn tags_for_article(
    tags: Seq<TagEntity>,
    assocs: Seq<ArticleTagEntity>,
    article_id: u64,
) -> Seq<TagEntity>
    decreases assocs.len(),
{
    if assocs.len() == 0 {
        Seq::<TagEntity>::empty()
    } else {
        let rec = tags_for_article(tags, assocs.drop_last(), article_id);
        if assocs.last().article_id == article_id {
            match tag_id_idx(tags, assocs.last().tag_id) {
                Some(t) => rec.push(tags[t]),
                None => rec,
            }
        } else {
            rec
        }
    }
}

/// Whether a vocabulary row with this id exists.
pub open spec fn tag_id_in(tags: Seq<TagEntity>, id: u64) -> bool {
    exists|t: int| 0 <= t < tags.len() && (#[trigger] tags[t]).id == id
}

/// The tag vocabulary and the article-to-tag association.  Tag text and tag
/// ids are unique; association pairs are unique and point at existing tags.
pub struct TagStore {
    pub tags: Vec<TagEntity>,
    pub article_tags: Vec<ArticleTagEntity>,
    pub next_id: u64,
}

impl TagStore {
    pub open spec fn wf(self) -> bool {
        &&& forall|i: int, j: int|
            0 <= i < j < self.tags@.len() ==> (#[trigger] self.tags@[i]).id != (
            #[trigger] self.tags@[j]).id
        &&& forall|i: int, j: int|
            0 <= i < j < self.tags@.len() ==> (#[trigger] self.tags@[i]).tag@ != (
            #[trigger] self.tags@[j]).tag@
        &&& forall|i: int| 0 <= i < self.tags@.len() ==> (#[trigger] self.tags@[i]).id
            < self.next_id
        &&& forall|i: int, j: int|
            0 <= i < j < self.article_tags@.len() ==> !((#[trigger] self.article_tags@[i]).article_id
                == (#[trigger] self.article_tags@[j]).article_id && self.article_tags@[i].tag_id
                == self.article_tags@[j].tag_id)
        &&& forall|i: int| 0 <= i < self.article_tags@.len() ==> tag_id_in(self.tags@, (
        #[trigger] self.article_tags@[i]).tag_id)
    }

    pub fn new() -> (r: Self)
        ensures
            r.wf(),
            r.tags@ =~= Seq::<TagEntity>::empty(),
            r.article_tags@ =~= Seq::<ArticleTagEntity>::empty(),
            r.next_id == 0,
    {
        TagStore { tags: Vec::new(), article_tags: Vec::new(), next_id: 0 }
    }

    /// Bulk conflict-do-nothing insert of tag names, returning only the
    /// newly inserted rows.  A name already present (or repeated in the
    /// input) is silently skipped: callers must not assume the result
    /// matches the input.
    pub fn create_tags(&mut self, tags: Vec<String>, now: u64) -> (r: Vec<TagEntity>)
        requires
            old(self).wf(),
            old(self).next_id + tags@.len() <= u64::MAX,
        ensures
            final(self).wf(),
            ({
                let spec = create_tags_spec(old(self).tags@, tags@, old(self).next_id as int, now);
                r@ == spec.0 && final(self).tags@ == spec.1 && final(self).next_id == spec.2
            }),
            final(self).article_tags@ == old(self).article_tags@,
    {
        let names = tags;
        let mut r: Vec<TagEntity> = Vec::new();
        let n = names.len();
        let mut i: usize = 0;
        proof {
            assert(names@.subrange(0, 0) =~= Seq::<String>::empty());
        }
        while i < n
            invariant
                0 <= i <= n,
                n == names@.len(),
                old(self).wf(),
                old(self).next_id + n <= u64::MAX,
                self.wf(),
                self.article_tags@ == old(self).article_tags@,
                self.next_id <= old(self).next_id + i,
                ({
                    let spec = create_tags_spec(old(self).tags@, names@.subrange(0, i as int), old(
                        self).next_id as int, now);
                    r@ == spec.0 && self.tags@ == spec.1 && self.next_id == spec.2
                }),
            decreases n - i,
        {
            proof {
                let pre = names@.subrange(0, i as int);
                let cur = names@.subrange(0, i + 1);
                assert(cur.drop_last() =~= pre);
                assert(cur.last() == names@[i as int]);
            }
            let name = &names[i];
            match self.find_tag_by_name(name.as_str()) {
                Some(_) => {},
                None => {
                    proof {
                        lemma_find_first(self.tags@, |e: TagEntity| tag_is(e, name@));
                    }
                    let e = TagEntity { id: self.next_id, tag: name.clone(), created_at: now };
                    let ghost prev = self.tags@;
                    r.push(e.clone());
                    self.tags.push(e);
                    self.next_id = self.next_id + 1;
                    proof {
                        assert forall|a: int| 0 <= a < self.article_tags@.len() implies tag_id_in(
                            self.tags@, (#[trigger] self.article_tags@[a]).tag_id) by {
                            assert(tag_id_in(prev, self.article_tags@[a].tag_id));
                            let t = choose|t: int|
                                0 <= t < prev.len() && (#[trigger] prev[t]).id
                                    == self.article_tags@[a].tag_id;
                            assert(self.tags@[t].id == self.article_tags@[a].tag_id);
                        }
                    }
                },
            }
            i += 1;
        }
        proof {
            assert(names@.subrange(0, n as int) =~= names@);
        }
        r
    }

    /// Index of the vocabulary row with this text, if any.
    fn find_tag_by_name(&self, name: &str) -> (r: Option<usize>)
        ensures
            match tag_name_idx(self.tags@, name@) {
                Some(i) => r matches Some(u) && u as int == i,
                None => r is None,
            },
    {
        let n = self.tags.len();
        let mut i: usize = 0;
        while i < n
            invariant
                0 <= i <= n,
                n == self.tags@.len(),
                forall|j: int| 0 <= j < i ==> (#[trigger] self.tags@[j]).tag@ != name@,
            decreases n - i,
        {
            if str_eq(self.tags[i].tag.as_str(), name) {
                proof {
                    lemma_find_first_is(self.tags@, |e: TagEntity| tag_is(e, name@), i as int);
                }
                return Some(i);
            }
            i += 1;
        }
        proof {
            lemma_find_first_none(self.tags@, |e: TagEntity| tag_is(e, name@));
        }
        None
    }

    /// Index of the vocabulary row with this id, if any.
    fn find_tag_by_id(&self, id: u64) -> (r: Option<usize>)
        ensures
            match tag_id_idx(self.tags@, id) {
                Some(i) => r matches Some(u) && u as int == i && 0 <= i < self.tags@.len()
                    && self.tags@[i].id == id,
                None => r is None,
            },
    {
        let n = self.tags.len();
        let mut i: usize = 0;
        while i < n
            invariant
                0 <= i <= n,
                n == self.tags@.len(),
                forall|j: int| 0 <= j < i ==> (#[trigger] self.tags@[j]).id != id,
            decreases n - i,
        {
            if self.tags[i].id == id {
                proof {
                    lemma_find_first_is(self.tags@, |e: TagEntity| e.id == id, i as int);
                }
                return Some(i);
            }
            i += 1;
        }
        proof {
            lemma_find_first_none(self.tags@, |e: TagEntity| e.id == id);
        }
        None
    }

    /// The subset of `tags` that exists in the vocabulary, resolved to
    /// full rows, in store order (not input order).
    pub fn get_tags_exists(&self, tags: Vec<String>) -> (r: Vec<TagEntity>)
        ensures
            r@ == self.tags@.filter(|e: TagEntity| name_in(tags@, e.tag@)),
    {
        let names = tags;
        let mut r: Vec<TagEntity> = Vec::new();
        let n = self.tags.len();
        let mut i: usize = 0;
        proof {
            reveal(Seq::filter);
            assert(self.tags@.subrange(0, 0) =~= Seq::<TagEntity>::empty());
        }
        while i < n
            invariant
                0 <= i <= n,
                n == self.tags@.len(),
                r@ == self.tags@.subrange(0, i as int).filter(|e: TagEntity| name_in(names@,
                    e.tag@)),
            decreases n - i,
        {
            proof {
                let pre = self.tags@.subrange(0, i as int);
                assert(self.tags@.subrange(0, i + 1) =~= pre.push(self.tags@[i as int]));
                pre.lemma_filter_push(self.tags@[i as int], |e: TagEntity| name_in(names@, e.tag@));
            }
            if contains_name(&names, self.tags[i].tag.as_str()) {
                r.push(self.tags[i].clone());
            }
            i += 1;
        }
        proof {
            assert(self.tags@.subrange(0, n as int) =~= self.tags@);
        }
        r
    }

    /// Bulk idempotent insert of association pairs: a pair that is already
    /// present (or repeated in the input) is silently skipped.  Every tag id
    /// must exist in the vocabulary, as it does when the pairs come from
    /// `get_tags_exists`.
    pub fn create_article_tags(&mut self, article_tag_ids: Vec<(u64, u64)>, now: u64) -> (r:
        ConduitResult<()>)
        requires
            old(self).wf(),
            forall|k: int| 0 <= k < article_tag_ids@.len() ==> tag_id_in(old(self).tags@, (
            #[trigger] article_tag_ids@[k]).1),
        ensures
            final(self).wf(),
            r is Ok,
            final(self).article_tags@ == assocs_after(old(self).article_tags@, article_tag_ids@,
                now),
            final(self).tags@ == old(self).tags@,
            final(self).next_id == old(self).next_id,
    {
        let pairs = article_tag_ids;
        let n = pairs.len();
        let mut i: usize = 0;
        proof {
            assert(pairs@.subrange(0, 0) =~= Seq::<(u64, u64)>::empty());
        }
        while i < n
            invariant
                0 <= i <= n,
                n == pairs@.len(),
                old(self).wf(),
                self.wf(),
                self.tags@ == old(self).tags@,
                self.next_id == old(self).next_id,
                forall|k: int| 0 <= k < n ==> tag_id_in(old(self).tags@, (
                #[trigger] pairs@[k]).1),
                self.article_tags@ == assocs_after(old(self).article_tags@, pairs@.subrange(0,
                    i as int), now),
            decreases n - i,
        {
            proof {
                let pre = pairs@.subrange(0, i as int);
                let cur = pairs@.subrange(0, i + 1);
                assert(cur.drop_last() =~= pre);
                assert(cur.last() == pairs@[i as int]);
            }
            let (article_id, tag_id) = pairs[i];
            match self.find_assoc(article_id, tag_id) {
                Some(_) => {},
                None => {
                    proof {
                        lemma_find_first(self.article_tags@, |e: ArticleTagEntity| e.article_id
                            == article_id && e.tag_id == tag_id);
                    }
                    self.article_tags.push(ArticleTagEntity { article_id, tag_id, created_at: now });
                },
            }
            i += 1;
        }
        proof {
            assert(pairs@.subrange(0, n as int) =~= pairs@);
        }
        Ok(())
    }

    /// Index of the association row for this pair, if any.
    fn find_assoc(&self, article_id: u64, tag_id: u64) -> (r: Option<usize>)
        ensures
            match assoc_pair_idx(self.article_tags@, article_id, tag_id) {
                Some(i) => r matches Some(u) && u as int == i,
                None => r is None,
            },
    {
        let n = self.article_tags.len();
        let mut i: usize = 0;
        while i < n
            invariant
                0 <= i <= n,
                n == self.article_tags@.len(),
                forall|j: int|
                    0 <= j < i ==> !((#[trigger] self.article_tags@[j]).article_id == article_id
                        && self.article_tags@[j].tag_id == tag_id),
            decreases n - i,
        {
            if self.article_tags[i].article_id == article_id && self.article_tags[i].tag_id
                == tag_id {
                proof {
                    lemma_find_first_is(self.article_tags@, |e: ArticleTagEntity| e.article_id
                        == article_id && e.tag_id == tag_id, i as int);
                }
                return Some(i);
            }
            i += 1;
        }
        proof {
            lemma_find_first_none(self.article_tags@, |e: ArticleTagEntity| e.article_id
                == article_id && e.tag_id == tag_id);
        }
        None
    }

    /// Drops every association row of one article, as deleting the article
    /// does.  The vocabulary itself is untouched.
    pub fn delete_article_assocs(&mut self, article_id: u64)
        requires
            old(self).wf(),
        ensures
            final(self).wf(),
            final(self).tags@ == old(self).tags@,
            final(self).next_id == old(self).next_id,
            final(self).article_tags@ == old(self).article_tags@.filter(
                |a: ArticleTagEntity| a.article_id != article_id),
    {
        let mut kept: Vec<ArticleTagEntity> = Vec::new();
        let n = self.article_tags.len();
        let mut i: usize = 0;
        proof {
            reveal(Seq::filter);
            assert(self.article_tags@.subrange(0, 0) =~= Seq::<ArticleTagEntity>::empty());
        }
        while i < n
            invariant
                0 <= i <= n,
                n == self.article_tags@.len(),
                *self == *old(self),
                old(self).wf(),
                kept@ == self.article_tags@.subrange(0, i as int).filter(
                    |a: ArticleTagEntity| a.article_id != article_id),
                forall|a: int| 0 <= a < kept@.len() ==> exists|j: int|
                    0 <= j < i && #[trigger] kept@[a] == self.article_tags@[j],
                forall|a: int, b: int|
                    0 <= a < b < kept@.len() ==> !((#[trigger] kept@[a]).article_id == (
                    #[trigger] kept@[b]).article_id && kept@[a].tag_id == kept@[b].tag_id),
                forall|a: int| 0 <= a < kept@.len() ==> tag_id_in(self.tags@, (
                #[trigger] kept@[a]).tag_id),
            decreases n - i,
        {
            proof {
                let pre = self.article_tags@.subrange(0, i as int);
                assert(self.article_tags@.subrange(0, i + 1) =~= pre.push(
                    self.article_tags@[i as int]));
                pre.lemma_filter_push(self.article_tags@[i as int], |a: ArticleTagEntity| a.article_id
                    != article_id);
            }
            let ghost prev_kept = kept@;
            if self.article_tags[i].article_id != article_id {
                kept.push(self.article_tags[i]);
                proof {
                    assert forall|a: int| 0 <= a < kept@.len() implies exists|j: int|
                        0 <= j < i + 1 && #[trigger] kept@[a] == self.article_tags@[j] by {
                        if a < prev_kept.len() {
                            assert(kept@[a] == prev_kept[a]);
                            let j = choose|j: int|
                                0 <= j < i && #[trigger] prev_kept[a] == self.article_tags@[j];
                            assert(kept@[a] == self.article_tags@[j]);
                        } else {
                            assert(kept@[a] == self.article_tags@[i as int]);
                        }
                    }
                    assert forall|a: int| 0 <= a < prev_kept.len() implies !((
                    #[trigger] kept@[a]).article_id == self.article_tags@[i as int].article_id
                        && kept@[a].tag_id == self.article_tags@[i as int].tag_id) by {
                        let j = choose|j: int|
                            0 <= j < i && #[trigger] prev_kept[a] == self.article_tags@[j];
                        assert(kept@[a] == self.article_tags@[j]);
                    }
                    assert(tag_id_in(self.tags@, self.article_tags@[i as int].tag_id));
                }
            }
            i += 1;
        }
        proof {
            assert(self.article_tags@.subrange(0, n as int) =~= self.article_tags@);
        }
        self.article_tags = kept;
    }

    /// All tags currently associated with an article, in association order.
    pub fn get_article_tags(&self, article_id: u64) -> (r: Vec<TagEntity>)
        ensures
            r@ == tags_for_article(self.tags@, self.article_tags@, article_id),
    {
        let mut r: Vec<TagEntity> = Vec::new();
        let n = self.article_tags.len();
        let mut i: usize = 0;
        proof {
            assert(self.article_tags@.subrange(0, 0) =~= Seq::<ArticleTagEntity>::empty());
        }
        while i < n
            invariant
                0 <= i <= n,
                n == self.article_tags@.len(),
                r@ == tags_for_article(self.tags@, self.article_tags@.subrange(0, i as int),
                    article_id),
            decreases n - i,
        {
            proof {
                let pre = self.article_tags@.subrange(0, i as int);
                let cur = self.article_tags@.subrange(0, i + 1);
                assert(cur.drop_last() =~= pre);
                assert(cur.last() == self.article_tags@[i as int]);
            }
            let a = self.article_tags[i];
            if a.article_id == article_id {
                match self.find_tag_by_id(a.tag_id) {
                    Some(t) => {
                        r.push(self.tags[t].clone());
                    },
                    None => {},
                }
            }
            i += 1;
        }
        proof {
            assert(self.article_tags@.subrange(0, n as int) =~= self.article_tags@);
        }
        r
    }
}

/// Whether `s` occurs in `names`.
fn contains_name(names: &Vec<String>, s: &str) -> (r: bool)
    ensures
        r == name_in(names@, s@),
{
    let n = names.len();
    let mut i: usize = 0;
    while i < n
        invariant
            0 <= i <= n,
            n == names@.len(),
            forall|j: int| 0 <= j < i ==> (#[trigger] names@[j])@ != s@,
        decreases n - i,
    {
        if str_eq(names[i].as_str(), s) {
            return true;
        }
        i += 1;
    }
    false
}

/// After a bulk insert of `names`, every one of them stands in the
/// vocabulary.
pub proof fn lemma_create_tags_covers(tags: Seq<TagEntity>, names: Seq<String>, next_id: int,
    now: u64)
    ensures
        forall|k: int| 0 <= k < names.len() ==> tag_name_idx(create_tags_spec(tags, names,
            next_id, now).1, (#[trigger] names[k])@) is Some,
    decreases names.len(),
{
    if names.len() > 0 {
        let pre = names.drop_last();
        lemma_create_tags_covers(tags, pre, next_id, now);
        let rec = create_tags_spec(tags, pre, next_id, now);
        let spec = create_tags_spec(tags, names, next_id, now);
        assert forall|k: int| 0 <= k < names.len() implies tag_name_idx(spec.1, (
        #[trigger] names[k])@) is Some by {
            if tag_name_idx(rec.1, names.last()@) is Some {
                assert(spec.1 == rec.1);
                if k < names.len() - 1 {
                    assert(names[k] == pre[k]);
                } else {
                    assert(names[k] == names.last());
                }
            } else {
                let e = TagEntity { id: rec.2 as u64, tag: names.last(), created_at: now };
                assert(spec.1 == rec.1.push(e));
                if k < names.len() - 1 {
                    assert(names[k] == pre[k]);
                    lemma_find_first(rec.1, |t: TagEntity| tag_is(t, names[k]@));
                    let i = tag_name_idx(rec.1, names[k]@)->0;
                    lemma_find_first_is(spec.1, |t: TagEntity| tag_is(t, names[k]@), i);
                } else {
                    lemma_find_first(rec.1, |t: TagEntity| tag_is(t, names.last()@));
                    lemma_find_first_is(spec.1, |t: TagEntity| tag_is(t, names.last()@),
                        rec.1.len() as int);
                    assert(names[k] == names.last());
                }
            }
        }
    }
}

/// Inserting names that all stand in the vocabulary already inserts
/// nothing and changes nothing.
pub proof fn lemma_create_tags_noop(tags: Seq<TagEntity>, names: Seq<String>, next_id: int,
    now: u64)
    requires
        forall|k: int| 0 <= k < names.len() ==> tag_name_idx(tags, (#[trigger] names[k])@)
            is Some,
    ensures
        create_tags_spec(tags, names, next_id, now) == (Seq::<TagEntity>::empty(), tags, next_id),
    decreases names.len(),
{
    if names.len() > 0 {
        let pre = names.drop_last();
        assert forall|k: int| 0 <= k < pre.len() implies tag_name_idx(tags, (
        #[trigger] pre[k])@) is Some by {
            assert(pre[k] == names[k]);
        }
        lemma_create_tags_noop(tags, pre, next_id, now);
        assert(names[names.len() - 1] == names.last());
    }
}

/// Creating the same tag set twice leaves the vocabulary and the id
/// counter exactly as after the first time, and returns no new rows.
pub proof fn lemma_create_tags_idempotent(tags: Seq<TagEntity>, names: Seq<String>, next_id: int,
    now: u64, now2: u64)
    ensures
        ({
            let first = create_tags_spec(tags, names, next_id, now);
            create_tags_spec(first.1, names, first.2, now2) == (Seq::<TagEntity>::empty(),
                first.1, first.2)
        }),
{
    let first = create_tags_spec(tags, names, next_id, now);
    lemma_create_tags_covers(tags, names, next_id, now);
    lemma_create_tags_noop(first.1, names, first.2, now2);
}

/// A pair that has an association row keeps it when another row is
/// appended.
proof fn lemma_assoc_has_push(assocs: Seq<ArticleTagEntity>, e: ArticleTagEntity, a: u64, t: u64)
    requires
        assoc_pair_idx(assocs, a, t) is Some,
    ensures
        assoc_pair_idx(assocs.push(e), a, t) is Some,
{
    lemma_find_first(assocs, |x: ArticleTagEntity| x.article_id == a && x.tag_id == t);
    let i = assoc_pair_idx(assocs, a, t)->0;
    lemma_find_first_is(assocs.push(e), |x: ArticleTagEntity| x.article_id == a && x.tag_id == t,
        i);
}

/// After a bulk association of `pairs`, every one of them has a row.
pub proof fn lemma_assocs_after_covers(
    assocs: Seq<ArticleTagEntity>,
    pairs: Seq<(u64, u64)>,
    now: u64,
)
    ensures
        forall|k: int| 0 <= k < pairs.len() ==> assoc_pair_idx(
            assocs_after(assocs, pairs, now), (#[trigger] pairs[k]).0,
            pairs[k].1) is Some,
    decreases pairs.len(),
{
    if pairs.len() > 0 {
        let pre = pairs.drop_last();
        lemma_assocs_after_covers(assocs, pre, now);
        let rec = assocs_after(assocs, pre, now);
        let full = assocs_after(assocs, pairs, now);
        let last = pairs.last();
        assert forall|k: int| 0 <= k < pairs.len() implies assoc_pair_idx(full, (
        #[trigger] pairs[k]).0, pairs[k].1) is Some by {
            if assoc_pair_idx(rec, last.0, last.1) is Some {
                assert(full == rec);
                if k < pairs.len() - 1 {
                    assert(pairs[k] == pre[k]);
                } else {
                    assert(pairs[k] == last);
                }
            } else {
                let e = ArticleTagEntity { article_id: last.0, tag_id: last.1, created_at: now };
                assert(full == rec.push(e));
                if k < pairs.len() - 1 {
                    assert(pairs[k] == pre[k]);
                    lemma_assoc_has_push(rec, e, pairs[k].0, pairs[k].1);
                } else {
                    assert(pairs[k] == last);
                    lemma_find_first(rec, |x: ArticleTagEntity| x.article_id == last.0 && x.tag_id
                        == last.1);
                    lemma_find_first_is(full, |x: ArticleTagEntity| x.article_id == last.0
                        && x.tag_id == last.1, rec.len() as int);
                }
            }
        }
    }
}

/// Associating pairs that all have rows already changes nothing.
pub proof fn lemma_assocs_after_noop(
    assocs: Seq<ArticleTagEntity>,
    pairs: Seq<(u64, u64)>,
    now: u64,
)
    requires
        forall|k: int| 0 <= k < pairs.len() ==> assoc_pair_idx(assocs, (#[trigger] pairs[k]).0,
            pairs[k].1) is Some,
    ensures
        assocs_after(assocs, pairs, now) == assocs,
    decreases pairs.len(),
{
    if pairs.len() > 0 {
        let pre = pairs.drop_last();
        assert forall|k: int| 0 <= k < pre.len() implies assoc_pair_idx(assocs, (
        #[trigger] pre[k]).0, pre[k].1) is Some by {
            assert(pre[k] == pairs[k]);
        }
        lemma_assocs_after_noop(assocs, pre, now);
        assert(pairs[pairs.len() - 1] == pairs.last());
    }
}

/// Idempotence of the association algorithm: running the same bulk
/// association twice leaves the association rows exactly as one run does.
pub proof fn lemma_assocs_idempotent(
    assocs: Seq<ArticleTagEntity>,
    pairs: Seq<(u64, u64)>,
    now: u64,
    now2: u64,
)
    ensures
        assocs_after(assocs_after(assocs, pairs, now), pairs, now2)
            == assocs_after(assocs, pairs, now),
{
    lemma_assocs_after_covers(assocs, pairs, now);
    lemma_assocs_after_noop(assocs_after(assocs, pairs, now), pairs, now2);
}

} // verus!
