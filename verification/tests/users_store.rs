use conduit_core::clock::now_timestamp;
use conduit_core::users::{PasswdHashedNewUser, UserEntity, UserStore};

#[test]
fn users_test_create_user() {
    let new_user = PasswdHashedNewUser {
        email: "test@gmail.com".to_string(),
        password: "password".to_string(),
        username: "test".to_string(),
    };
    let mut dao = UserStore::new();
    let user = dao.create_user(new_user.clone(), now_timestamp());
    let test_user = UserEntity {
        id: user.id,
        created_at: user.created_at,
        updated_at: user.updated_at,
        username: new_user.username,
        email: new_user.email,
        password: new_user.password,
        bio: "".to_string(),
        image: None,
    };
    assert_eq!(user, test_user);
}

#[test]
fn users_test_get_user_by_id() {
    let new_user = PasswdHashedNewUser {
        email: "userid_get_test@gmail.com".to_string(),
        password: "password".to_string(),
        username: "userid_get_test".to_string(),
    };
    let mut dao = UserStore::new();
    let user = dao.create_user(new_user.clone(), now_timestamp());
    let get_user = dao.get_user_by_id(user.id).unwrap();

    assert_eq!(user, get_user);
}

#[test]
fn test_get_user_by_email() {
    let new_user = PasswdHashedNewUser {
        email: "email_get_test@gmail.com".to_string(),
        password: "password".to_string(),
        username: "email_get_test".to_string(),
    };
    let mut dao = UserStore::new();
    let user = dao.create_user(new_user.clone(), now_timestamp());
    let get_user = dao.get_user_by_email(&new_user.email);
    assert_eq!(user, get_user.unwrap());
}

#[test]
fn dao_test_create_user() {
    let new_user = PasswdHashedNewUser {
        email: "test@gmail.com".to_string(),
        password: "password".to_string(),
        username: "test".to_string(),
    };
    let mut dao = UserStore::new();
    let user = dao.create_user(new_user.clone(), now_timestamp());
    let test_user = UserEntity {
        id: user.id,
        created_at: user.created_at,
        updated_at: user.updated_at,
        username: new_user.username,
        email: new_user.email,
        password: new_user.password,
        bio: "".to_string(),
        image: None,
    };
    assert_eq!(user, test_user);
}

#[test]
fn dao_test_get_user_by_id() {
    let new_user = PasswdHashedNewUser {
        email: "userid_get_test@gmail.com".to_string(),
        password: "password".to_string(),
        username: "userid_get_test".to_string(),
    };
    let mut dao = UserStore::new();
    let user = dao.create_user(new_user.clone(), now_timestamp());
    let get_user = dao.get_user_by_id(user.id).unwrap();

    assert_eq!(user, get_user);
}

#[test]
fn update_cannot_forge_identity_or_timestamps() {
    let mut dao = UserStore::new();
    let user = dao.create_user(
        PasswdHashedNewUser::new(
            "steady".to_string(),
            "steady@example.com".to_string(),
            "hash".to_string(),
        ),
        1000,
    );
    let mut forged = user.clone();
    forged.created_at = 1;
    forged.updated_at = 2;
    forged.username = "renamed".to_string();
    let stored = dao.update_user(forged).unwrap();
    assert_eq!(stored.username, "renamed");
    assert_eq!(stored.created_at, 1000);
    assert_eq!(stored.updated_at, 1000);
    assert_eq!(dao.get_user_by_id(user.id).unwrap().created_at, 1000);
}

#[test]
fn test_update_user_keeps_absent_fields() {
    let mut dao = UserStore::new();
    let user = dao.create_user(
        PasswdHashedNewUser::new(
            "keeper".to_string(),
            "keeper@example.com".to_string(),
            "hash".to_string(),
        ),
        now_timestamp(),
    );
    let updated = user.clone().update_user_entity(conduit_core::users::UpdateUser {
        email: None,
        password: None,
        username: Some("renamed".to_string()),
        bio: None,
        image: None,
    });
    let stored = dao.update_user(updated).unwrap();
    assert_eq!(stored.username, "renamed");
    assert_eq!(stored.email, "keeper@example.com");
    assert_eq!(stored.password, "hash");
    assert_eq!(stored.bio, "");
    assert_eq!(stored.image, None);
}
