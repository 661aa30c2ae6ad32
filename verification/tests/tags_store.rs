use conduit_core::articles::{ArticleStore, CreatArticle, NewArticleValidated};
use conduit_core::clock::now_timestamp;
use conduit_core::tags::TagStore;
use conduit_core::users::{PasswdHashedNewUser, UserStore};

#[test]
fn test_create_tags() {
    let mut dao = TagStore::new();

    let tags = vec!["tag1".to_string(), "tag2".to_string()];
    let tags_entity = dao.create_tags(tags, now_timestamp());

    assert_eq!(tags_entity.len(), 2);
    assert_eq!(tags_entity[0].tag, "tag1");
    assert_eq!(tags_entity[1].tag, "tag2");
}

#[test]
fn test_get_tags_exists() {
    let mut dao = TagStore::new();

    let tags = vec!["tag1".to_string(), "tag2".to_string()];
    let _ = dao.create_tags(tags, now_timestamp());

    let tags = vec![
        "tag1".to_string(),
        "tag2".to_string(),
        "tag3_no_Exsitsts".to_string(),
    ];
    let tags_entity = dao.get_tags_exists(tags);

    assert_eq!(tags_entity.len(), 2);
    assert_eq!(tags_entity[0].tag, "tag1");
    assert_eq!(tags_entity[1].tag, "tag2");
    assert_eq!(tags_entity.get(2), None);
}

#[test]
fn test_create_article_tags() {
    let mut users = UserStore::new();
    let new_user = PasswdHashedNewUser {
        username: "username".to_string(),
        email: "email".to_string(),
        password: "password".to_string(),
    };
    let user = users.create_user(new_user, now_timestamp());

    let mut articles = ArticleStore::new();
    let new_article_validated = NewArticleValidated {
        title: "title".to_string(),
        description: "description".to_string(),
        body: "body".to_string(),
        tag_list: vec!["tag1".to_string(), "tag2".to_string()],
    };
    let tags = new_article_validated.tag_list.clone();

    let craate_article = CreatArticle {
        article: new_article_validated,
        author_id: user.id,
        slug: "title".to_string(),
    };

    let article = articles
        .create_article(craate_article, now_timestamp())
        .unwrap();

    let mut dao = TagStore::new();

    let tags_entity = dao.create_tags(tags, now_timestamp());

    let article_tag_ids = vec![
        (article.id, tags_entity[0].id),
        (article.id, tags_entity[1].id),
    ];
    dao.create_article_tags(article_tag_ids, now_timestamp())
        .unwrap();
}

#[test]
fn test_tag_algorithm_idempotent() {
    let mut dao = TagStore::new();
    let names = vec!["alpha".to_string(), "beta".to_string(), "alpha".to_string()];

    let created = dao.create_tags(names.clone(), now_timestamp());
    assert_eq!(created.len(), 2);
    let resolved = dao.get_tags_exists(names.clone());
    let pairs: Vec<(u64, u64)> = resolved.iter().map(|t| (7, t.id)).collect();
    dao.create_article_tags(pairs.clone(), now_timestamp()).unwrap();
    let first_tags = dao.get_article_tags(7);

    let created_again = dao.create_tags(names.clone(), now_timestamp());
    assert_eq!(created_again.len(), 0);
    let resolved_again = dao.get_tags_exists(names);
    let pairs_again: Vec<(u64, u64)> = resolved_again.iter().map(|t| (7, t.id)).collect();
    assert_eq!(pairs, pairs_again);
    dao.create_article_tags(pairs_again, now_timestamp()).unwrap();
    let second_tags = dao.get_article_tags(7);

    assert_eq!(first_tags, second_tags);
    assert_eq!(second_tags.len(), 2);
}
