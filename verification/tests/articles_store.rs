use conduit_core::articles::{ArticleStore, CreatArticle, NewArticleValidated, UpdateArticle};
use conduit_core::clock::now_timestamp;
use conduit_core::users::{PasswdHashedNewUser, UserStore};

fn make_user(users: &mut UserStore) -> conduit_core::users::UserEntity {
    let new_user = PasswdHashedNewUser::new(
        "a".to_string(),
        "example@email.com".to_string(),
        "password".to_string(),
    );
    users.create_user(new_user, now_timestamp())
}

#[test]
fn create_article() {
    let mut users = UserStore::new();
    let user = make_user(&mut users);

    let mut dao = ArticleStore::new();
    let create_article = CreatArticle::new(
        NewArticleValidated {
            title: "title".to_string(),
            description: "description".to_string(),
            body: "body".to_string(),
            tag_list: vec![],
        },
        user.id,
        "slug".to_string(),
    );
    let article = dao.create_article(create_article.clone(), now_timestamp());
    assert!(article.is_some());

    let article = dao.create_article(create_article, now_timestamp());
    assert!(article.is_none());
}

#[test]
fn get_article_by_slug() {
    let mut users = UserStore::new();
    let user = make_user(&mut users);

    let mut dao = ArticleStore::new();
    let create_article = CreatArticle::new(
        NewArticleValidated {
            title: "title".to_string(),
            description: "description".to_string(),
            body: "body".to_string(),
            tag_list: vec![],
        },
        user.id,
        "slug".to_string(),
    );

    let created_article = dao.create_article(create_article, now_timestamp());

    let article = dao.get_article_by_slug("slug");

    assert_eq!(article.unwrap(), created_article.unwrap());
}

#[test]
fn update_article() {
    let mut users = UserStore::new();
    let user = make_user(&mut users);

    let mut dao = ArticleStore::new();
    let create_article = CreatArticle::new(
        NewArticleValidated {
            title: "title".to_string(),
            description: "description".to_string(),
            body: "body".to_string(),
            tag_list: vec![],
        },
        user.id,
        "slug".to_string(),
    );

    let created_article = dao
        .create_article(create_article, now_timestamp())
        .unwrap();

    let updated_article = dao
        .update_article(
            created_article.id,
            Some("slug".to_string()),
            UpdateArticle {
                title: Some("new title".to_string()),
                description: Some("new description".to_string()),
                body: None,
            },
        )
        .expect("failed to update article");

    assert_eq!(updated_article.title, "new title");
    assert_eq!(updated_article.description, "new description");
    assert_eq!(updated_article.body, "body");
    assert_eq!(updated_article.slug, "slug");
}

#[test]
#[should_panic]
fn update_article_conflict() {
    let mut users = UserStore::new();
    let user = make_user(&mut users);

    let mut dao = ArticleStore::new();
    let create_article = CreatArticle::new(
        NewArticleValidated {
            title: "title".to_string(),
            description: "description".to_string(),
            body: "body".to_string(),
            tag_list: vec![],
        },
        user.id,
        "slug".to_string(),
    );

    let _created_article = dao
        .create_article(create_article, now_timestamp())
        .unwrap();

    let create_article = CreatArticle::new(
        NewArticleValidated {
            title: "title".to_string(),
            description: "description".to_string(),
            body: "body".to_string(),
            tag_list: vec![],
        },
        user.id,
        "slug2".to_string(),
    );

    let created_article2 = dao
        .create_article(create_article, now_timestamp())
        .unwrap();

    let _updated_article = dao
        .update_article(
            created_article2.id,
            Some("slug".to_string()),
            UpdateArticle {
                title: Some("new title".to_string()),
                description: Some("new description".to_string()),
                body: None,
            },
        )
        .expect("failed to update article");
}
