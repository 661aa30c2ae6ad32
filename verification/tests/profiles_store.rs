use conduit_core::clock::now_timestamp;
use conduit_core::profiles::FollowStore;
use conduit_core::users::{PasswdHashedNewUser, UserEntity, UserStore};

fn setup_user_ab(users: &mut UserStore) -> (UserEntity, UserEntity) {
    let new_a_user = PasswdHashedNewUser::new(
        "test_user_a".to_string(),
        "test@example.com".to_string(),
        "password".to_string(),
    );
    let user_a = users.create_user(new_a_user, now_timestamp());

    let new_b_user = PasswdHashedNewUser::new(
        "test_user_b".to_string(),
        "testb@eexample.com".to_string(),
        "password".to_string(),
    );
    let user_b = users.create_user(new_b_user, now_timestamp());
    (user_a, user_b)
}

#[test]
fn test_following_user() {
    let mut users = UserStore::new();
    let (user_a, user_b) = setup_user_ab(&mut users);

    let mut follows = FollowStore::new();
    let user_follow = follows.following_user(user_a.id, user_b.id, now_timestamp());
    assert_eq!(user_follow.follower_id, user_a.id);
    assert_eq!(user_follow.followee_id, user_b.id);
}

#[test]
fn test_unfollow_user() {
    let mut users = UserStore::new();
    let (user_a, user_b) = setup_user_ab(&mut users);

    let mut follows = FollowStore::new();
    let user_follow = follows.following_user(user_a.id, user_b.id, now_timestamp());
    assert_eq!(user_follow.follower_id, user_a.id);
    assert_eq!(user_follow.followee_id, user_b.id);

    let user_follow = follows.unfollow_user(user_a.id, user_b.id).unwrap();
    assert_eq!(user_follow.follower_id, user_a.id);
    assert_eq!(user_follow.followee_id, user_b.id);
}

#[test]
fn test_get_user_followees() {
    let mut users = UserStore::new();
    let (user_a, user_b) = setup_user_ab(&mut users);

    let mut follows = FollowStore::new();
    let user_follow = follows.following_user(user_a.id, user_b.id, now_timestamp());
    assert_eq!(user_follow.follower_id, user_a.id);
    assert_eq!(user_follow.followee_id, user_b.id);

    let user_follows = follows.get_user_followees(user_a.id);
    assert_eq!(user_follows.len(), 1);
    assert_eq!(user_follows[0].follower_id, user_a.id);
    assert_eq!(user_follows[0].followee_id, user_b.id);
}

#[test]
fn test_follow_twice_keeps_one_edge() {
    let mut users = UserStore::new();
    let (user_a, user_b) = setup_user_ab(&mut users);

    let mut follows = FollowStore::new();
    let first = follows.following_user(user_a.id, user_b.id, now_timestamp());
    let second = follows.following_user(user_a.id, user_b.id, now_timestamp());
    assert_eq!(first, second);
    assert_eq!(follows.get_user_followees(user_a.id).len(), 1);
}
