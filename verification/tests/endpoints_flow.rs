use conduit_core::articles::{CreateArticleReq, NewArticle, UpdateArticle, UpdateArticleReq};
use conduit_core::clock::now_timestamp;
use conduit_core::dao::Daos;
use conduit_core::endpoints::articles::ArticleRouter;
use conduit_core::endpoints::favorites::FavoritesRouter;
use conduit_core::endpoints::profiles::ProfileRouter;
use conduit_core::endpoints::users::UserRouter;
use conduit_core::error::ConduitError;
use conduit_core::users::{NewUser, PasswdHashedNewUser, RegisterUserReq};
use conduit_core::AppState;

fn quick_user(daos: &mut Daos, name: &str) -> u64 {
    let user = daos.users.create_user(
        PasswdHashedNewUser::new(
            name.to_string(),
            format!("{}@example.com", name),
            "stored-hash".to_string(),
        ),
        now_timestamp(),
    );
    user.id
}

fn new_article_req(title: &str, tags: Vec<&str>) -> CreateArticleReq {
    CreateArticleReq {
        article: NewArticle {
            title: Some(title.to_string()),
            description: Some("description".to_string()),
            body: Some("body".to_string()),
            tag_list: Some(tags.into_iter().map(|t| t.to_string()).collect()),
        },
    }
}

#[test]
fn end_to_end_publication() {
    let state = AppState {
        jwt_secret: "scenario secret".to_string(),
    };
    let mut daos = Daos::new();
    let now = now_timestamp();

    // register user A
    let a = UserRouter::register_user(
        &state,
        &mut daos,
        RegisterUserReq {
            user: NewUser {
                username: Some("user-a".to_string()),
                email: Some("a@example.com".to_string()),
                password: Some("password-a".to_string()),
            },
        },
        now,
    )
    .unwrap();
    assert_eq!(a.user.username, "user-a");
    let a_id = daos.users.get_user_by_email("a@example.com").unwrap().id;
    let b_id = quick_user(&mut daos, "user-b");

    // A creates an article
    let res = ArticleRouter::create_article(
        &mut daos,
        a_id,
        new_article_req("My First Post", vec!["rust", "web"]),
        now,
    )
    .unwrap();
    assert_eq!(res.article.slug, "my-first-post");
    assert!(res.article.tag_list.contains(&"rust".to_string()));
    assert!(res.article.tag_list.contains(&"web".to_string()));
    assert_eq!(res.article.favorites_count, 0);
    assert!(!res.article.favorited);

    // B favorites it
    let res = FavoritesRouter::add_favorite_article(&mut daos, "my-first-post", b_id, now).unwrap();
    assert_eq!(res.article.favorites_count, 1);
    assert!(res.article.favorited);

    // B unfavorites it
    let res = FavoritesRouter::delete_favorite_article(&mut daos, "my-first-post", b_id).unwrap();
    assert_eq!(res.article.favorites_count, 0);
    assert!(!res.article.favorited);

    // A creates a second article and then tries to collide with it
    ArticleRouter::create_article(&mut daos, a_id, new_article_req("Other Post", vec![]), now)
        .unwrap();
    let err = ArticleRouter::update_article(
        &mut daos,
        "my-first-post",
        a_id,
        UpdateArticleReq {
            article: UpdateArticle {
                title: Some("Other Post".to_string()),
                description: None,
                body: None,
            },
        },
    )
    .unwrap_err();
    assert!(matches!(err, ConduitError::Conflict(_)));
    let unchanged = ArticleRouter::get_article(&daos, "my-first-post", None).unwrap();
    assert_eq!(unchanged.article.title, "My First Post");
}

#[test]
fn second_create_with_same_slug_is_conflict() {
    let mut daos = Daos::new();
    let now = now_timestamp();
    let a_id = quick_user(&mut daos, "author");

    ArticleRouter::create_article(&mut daos, a_id, new_article_req("A Unique Title", vec![]), now)
        .unwrap();
    ArticleRouter::create_article(&mut daos, a_id, new_article_req("Another Title", vec![]), now)
        .unwrap();
    let err = ArticleRouter::create_article(
        &mut daos,
        a_id,
        new_article_req("A   Unique -- Title!", vec![]),
        now,
    )
    .unwrap_err();
    assert!(matches!(err, ConduitError::Conflict(_)));
    assert_eq!(daos.articles.rows.len(), 2);
}

#[test]
fn update_without_title_keeps_slug() {
    let mut daos = Daos::new();
    let now = now_timestamp();
    let a_id = quick_user(&mut daos, "author");
    ArticleRouter::create_article(&mut daos, a_id, new_article_req("Stable Slug", vec![]), now)
        .unwrap();

    let res = ArticleRouter::update_article(
        &mut daos,
        "stable-slug",
        a_id,
        UpdateArticleReq {
            article: UpdateArticle {
                title: None,
                description: Some("updated description".to_string()),
                body: None,
            },
        },
    )
    .unwrap();
    assert_eq!(res.article.slug, "stable-slug");
    assert_eq!(res.article.description, "updated description");
}

#[test]
fn blank_title_update_fails_validation_before_store() {
    let mut daos = Daos::new();
    let now = now_timestamp();
    let a_id = quick_user(&mut daos, "author");
    ArticleRouter::create_article(&mut daos, a_id, new_article_req("Stays Put", vec![]), now)
        .unwrap();

    let err = ArticleRouter::update_article(
        &mut daos,
        "stays-put",
        a_id,
        UpdateArticleReq {
            article: UpdateArticle {
                title: Some("   ".to_string()),
                description: None,
                body: None,
            },
        },
    )
    .unwrap_err();
    assert!(matches!(err, ConduitError::ValidationError(_)));
    let unchanged = ArticleRouter::get_article(&daos, "stays-put", None).unwrap();
    assert_eq!(unchanged.article.title, "Stays Put");
}

#[test]
fn not_found_takes_precedence_over_forbidden() {
    let mut daos = Daos::new();
    let now = now_timestamp();
    let author = quick_user(&mut daos, "author");
    let intruder = quick_user(&mut daos, "intruder");
    ArticleRouter::create_article(&mut daos, author, new_article_req("Owned Post", vec![]), now)
        .unwrap();

    // nonexistent slug: NotFound even for a user who would lack permission
    let err = ArticleRouter::update_article(
        &mut daos,
        "no-such-slug",
        intruder,
        UpdateArticleReq {
            article: UpdateArticle {
                title: None,
                description: Some("x".to_string()),
                body: None,
            },
        },
    )
    .unwrap_err();
    assert!(matches!(err, ConduitError::NotFound(_)));

    let err = ArticleRouter::delete_article(&mut daos, "no-such-slug", intruder).unwrap_err();
    assert!(matches!(err, ConduitError::NotFound(_)));

    // existing slug, wrong author: Forbidden
    let err = ArticleRouter::delete_article(&mut daos, "owned-post", intruder).unwrap_err();
    assert!(matches!(err, ConduitError::Forbidden(_)));
}

#[test]
fn remove_favorite_without_prior_favorite_is_not_found() {
    let mut daos = Daos::new();
    let now = now_timestamp();
    let author = quick_user(&mut daos, "author");
    let reader = quick_user(&mut daos, "reader");
    ArticleRouter::create_article(&mut daos, author, new_article_req("Unloved", vec![]), now)
        .unwrap();

    let err = FavoritesRouter::delete_favorite_article(&mut daos, "unloved", reader).unwrap_err();
    assert!(matches!(err, ConduitError::NotFound(_)));
}

#[test]
fn favorite_toggle_leaves_one_active_row() {
    let mut daos = Daos::new();
    let now = now_timestamp();
    let author = quick_user(&mut daos, "author");
    let reader = quick_user(&mut daos, "reader");
    ArticleRouter::create_article(&mut daos, author, new_article_req("Loved", vec![]), now)
        .unwrap();

    FavoritesRouter::add_favorite_article(&mut daos, "loved", reader, now).unwrap();
    FavoritesRouter::delete_favorite_article(&mut daos, "loved", reader).unwrap();
    let res = FavoritesRouter::add_favorite_article(&mut daos, "loved", reader, now).unwrap();

    assert_eq!(daos.favorites.rows.len(), 1);
    assert!(!daos.favorites.rows[0].is_deleted);
    assert_eq!(res.article.favorites_count, 1);
    assert!(res.article.favorited);
}

#[test]
fn follow_and_profile_views() {
    let mut daos = Daos::new();
    let now = now_timestamp();
    let a = quick_user(&mut daos, "alice");
    let _b = quick_user(&mut daos, "bob");

    let res = ProfileRouter::follow_user(&mut daos, "bob", a, now).unwrap();
    assert!(res.profile.following);
    assert_eq!(res.profile.username, "bob");

    // idempotent from the caller's perspective
    let res = ProfileRouter::follow_user(&mut daos, "bob", a, now).unwrap();
    assert!(res.profile.following);
    assert_eq!(daos.profiles.rows.len(), 1);

    let viewed = ProfileRouter::get_profile_by_username(&daos, "bob", Some(a)).unwrap();
    assert!(viewed.profile.following);
    let anonymous = ProfileRouter::get_profile_by_username(&daos, "bob", None).unwrap();
    assert!(!anonymous.profile.following);

    let err = ProfileRouter::follow_user(&mut daos, "nobody", a, now).unwrap_err();
    assert!(matches!(err, ConduitError::NotFound(_)));
}

#[test]
fn delete_article_cascades() {
    let mut daos = Daos::new();
    let now = now_timestamp();
    let author = quick_user(&mut daos, "author");
    let reader = quick_user(&mut daos, "reader");
    ArticleRouter::create_article(
        &mut daos,
        author,
        new_article_req("Doomed Post", vec!["tagged"]),
        now,
    )
    .unwrap();
    FavoritesRouter::add_favorite_article(&mut daos, "doomed-post", reader, now).unwrap();

    ArticleRouter::delete_article(&mut daos, "doomed-post", author).unwrap();
    assert_eq!(daos.articles.rows.len(), 0);
    assert_eq!(daos.tags.article_tags.len(), 0);
    assert_eq!(daos.favorites.rows.len(), 0);
    // the vocabulary itself stays
    assert_eq!(daos.tags.tags.len(), 1);

    let err = ArticleRouter::get_article(&daos, "doomed-post", None).unwrap_err();
    assert!(matches!(err, ConduitError::NotFound(_)));
}
