use conduit_core::clock::now_timestamp;
use conduit_core::dao::Daos;
use conduit_core::endpoints::users::UserRouter;
use conduit_core::users::{NewUser, RegisterUserReq, User};
use conduit_core::AppState;

#[test]
fn create_user() {
    let state = AppState {
        jwt_secret: "test".to_string(),
    };
    let mut daos = Daos::new();

    let req = NewUser {
        email: Some("test@gmail.com".to_string()),
        password: Some("password".to_string()),
        username: Some("test".to_string()),
    };
    let req = RegisterUserReq { user: req };

    let create_user = UserRouter::register_user(&state, &mut daos, req, now_timestamp())
        .unwrap()
        .user;

    let req_user = User {
        email: "test@gmail.com".to_string(),
        username: "test".to_string(),
        bio: "".to_string(),
        image: None,
        token: create_user.token.clone(),
    };

    assert_eq!(req_user, create_user);
}
