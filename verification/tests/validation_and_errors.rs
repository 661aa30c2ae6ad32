use conduit_core::articles::{CreateArticleReq, NewArticle};
use conduit_core::clock::now_timestamp;
use conduit_core::dao::Daos;
use conduit_core::endpoints::users::UserRouter;
use conduit_core::error::ConduitError;
use conduit_core::users::{LoginUser, LoginUserReq, NewUser, RegisterUserReq};
use conduit_core::validation::{validate_create_article, validate_register};
use conduit_core::AppState;

#[test]
fn register_requires_every_field_and_email_shape() {
    let good = RegisterUserReq {
        user: NewUser {
            username: Some("name".to_string()),
            email: Some("name@example.com".to_string()),
            password: Some("pw".to_string()),
        },
    };
    assert!(validate_register(&good).is_ok());

    let bad_email = RegisterUserReq {
        user: NewUser {
            username: Some("name".to_string()),
            email: Some("not-an-email".to_string()),
            password: Some("pw".to_string()),
        },
    };
    assert!(matches!(
        validate_register(&bad_email).unwrap_err(),
        ConduitError::ValidationError(_)
    ));

    let missing = RegisterUserReq {
        user: NewUser {
            username: None,
            email: Some("name@example.com".to_string()),
            password: Some("pw".to_string()),
        },
    };
    assert!(validate_register(&missing).is_err());
}

#[test]
fn article_payload_rules() {
    let blank_title = CreateArticleReq {
        article: NewArticle {
            title: Some("  \t ".to_string()),
            description: Some("d".to_string()),
            body: Some("b".to_string()),
            tag_list: None,
        },
    };
    assert!(validate_create_article(&blank_title).is_err());

    let empty_body = CreateArticleReq {
        article: NewArticle {
            title: Some("t".to_string()),
            description: Some("d".to_string()),
            body: Some("".to_string()),
            tag_list: None,
        },
    };
    assert!(validate_create_article(&empty_body).is_err());

    let fine = CreateArticleReq {
        article: NewArticle {
            title: Some("t".to_string()),
            description: Some("".to_string()),
            body: Some("b".to_string()),
            tag_list: None,
        },
    };
    assert!(validate_create_article(&fine).is_ok());
}

#[test]
fn unknown_email_and_wrong_password_read_the_same() {
    let state = AppState {
        jwt_secret: "login secret".to_string(),
    };
    let mut daos = Daos::new();
    let now = now_timestamp();
    UserRouter::register_user(
        &state,
        &mut daos,
        RegisterUserReq {
            user: NewUser {
                username: Some("known".to_string()),
                email: Some("known@example.com".to_string()),
                password: Some("right-password".to_string()),
            },
        },
        now,
    )
    .unwrap();

    let unknown = UserRouter::login_user(
        &state,
        &daos,
        LoginUserReq {
            user: LoginUser {
                email: Some("unknown@example.com".to_string()),
                password: Some("whatever".to_string()),
            },
        },
        now,
    )
    .unwrap_err();
    let wrong = UserRouter::login_user(
        &state,
        &daos,
        LoginUserReq {
            user: LoginUser {
                email: Some("known@example.com".to_string()),
                password: Some("wrong-password".to_string()),
            },
        },
        now,
    )
    .unwrap_err();
    assert!(matches!(unknown, ConduitError::InvalidLogin));
    assert!(matches!(wrong, ConduitError::InvalidLogin));
    assert_eq!(unknown.into_response(), wrong.into_response());

    let ok = UserRouter::login_user(
        &state,
        &daos,
        LoginUserReq {
            user: LoginUser {
                email: Some("known@example.com".to_string()),
                password: Some("right-password".to_string()),
            },
        },
        now,
    )
    .unwrap();
    assert_eq!(ok.user.username, "known");
}

#[test]
fn duplicate_email_registration_is_conflict() {
    let state = AppState {
        jwt_secret: "register secret".to_string(),
    };
    let mut daos = Daos::new();
    let now = now_timestamp();
    let req = || RegisterUserReq {
        user: NewUser {
            username: Some("taken".to_string()),
            email: Some("taken@example.com".to_string()),
            password: Some("pw".to_string()),
        },
    };
    UserRouter::register_user(&state, &mut daos, req(), now).unwrap();
    let err = UserRouter::register_user(&state, &mut daos, req(), now).unwrap_err();
    assert!(matches!(err, ConduitError::Conflict(_)));
    assert_eq!(daos.users.rows.len(), 1);
}

#[test]
fn error_taxonomy_maps_to_status_codes() {
    assert_eq!(ConduitError::Unauthorized.into_response().0, 401);
    assert_eq!(ConduitError::InvalidLogin.into_response().0, 401);
    assert_eq!(ConduitError::BadRequest("b".to_string()).into_response().0, 400);
    assert_eq!(ConduitError::InternalServerError.into_response().0, 500);
    assert_eq!(ConduitError::NotFound("n".to_string()).into_response().0, 404);
    assert_eq!(ConduitError::Forbidden("f".to_string()).into_response().0, 403);
    assert_eq!(ConduitError::Conflict("c".to_string()).into_response().0, 409);
    assert_eq!(ConduitError::ValidationError("v".to_string()).into_response().0, 422);
    assert_eq!(ConduitError::CredentialHashFailure.into_response().0, 500);
    assert_eq!(
        ConduitError::Unauthorized.into_response().1,
        "Unauthorized".to_string()
    );
    assert_eq!(
        ConduitError::NotFound("article not found".to_string()).into_response().1,
        "article not found".to_string()
    );
}

#[test]
fn clock_reads_a_plausible_time() {
    assert!(now_timestamp() > 1_600_000_000);
}
