use vstd::prelude::*;

use crate::articles::ArticleStore;
use crate::favorites::FavoriteStore;
use crate::profiles::FollowStore;
use crate::tags::TagStore;
use crate::users::UserStore;

verus! {

/// The five stores of the system, owned together so that one handle can be
/// threaded through every operation.
pub struct Daos {
    pub users: UserStore,
    pub profiles: FollowStore,
    pub articles: ArticleStore,
    pub tags: TagStore,
    pub favorites: FavoriteStore,
}

impl Daos {
    pub open spec fn wf(self) -> bool {
        &&& self.users.wf()
        &&& self.profiles.wf()
        &&& self.articles.wf()
        &&& self.tags.wf()
        &&& self.favorites.wf()
    }

    pub fn new() -> (r: Self)
        ensures
            r.wf(),
            r.users.rows@ =~= Seq::<crate::users::UserEntity>::empty(),
            r.profiles.rows@ =~= Seq::<crate::profiles::UserFollowEntity>::empty(),
            r.articles.rows@ =~= Seq::<crate::articles::ArticleEntity>::empty(),
            r.tags.tags@ =~= Seq::<crate::tags::TagEntity>::empty(),
            r.tags.article_tags@ =~= Seq::<crate::tags::ArticleTagEntity>::empty(),
            r.favorites.rows@ =~= Seq::<crate::favorites::FavoritesEntity>::empty(),
            r.users.next_id == 0,
            r.profiles.next_id == 0,
            r.articles.next_id == 0,
            r.tags.next_id == 0,
    {
        Daos {
            users: UserStore::new(),
            profiles: FollowStore::new(),
            articles: ArticleStore::new(),
            tags: TagStore::new(),
            favorites: FavoriteStore::new(),
        }
    }
}

} // verus!
