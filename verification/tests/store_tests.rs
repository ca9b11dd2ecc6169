//! The user directory, the post store and the account flows.

use bread::api::auth_change_pass;
use bread::api::auth_login;
use bread::api::token::SessionTokenService;
use bread::credentials::CredentialManager;
use bread::database::delete_post_decision;
use bread::database::register_decision;
use bread::database::DatabaseHandler;
use bread::errors::AppError;
use bread::models::post::Post;
use bread::models::user::User;

/// Cheap cost parameters so the memory-hard function stays fast in tests.
fn cheap() -> CredentialManager {
    CredentialManager::with_params(8, 1, 1, 4)
}

#[test]
fn create_and_save_user() {
    let mut db_handler = DatabaseHandler::new();
    let credentials = cheap();
    let created_user = db_handler.create_user("Foo".to_string(), "Bar".to_string(), &credentials);
    println!("Created: {:#?}", created_user);
}

#[test]
fn create_and_save_user_and_post() {
    let mut db_handler = DatabaseHandler::new();
    let credentials = cheap();

    let user = match User::create("Foo".to_string(), "Bar".to_string(), &credentials) {
        Ok(user) => user,
        Err(err) => panic!("Could not create user! {:?}", err),
    };

    let user_id = db_handler.save_user(&user);

    // A dummy post; it does not point at a real user.
    let post = Post::create(user_id, Some("Foo".to_string()), Some(()));

    let _post_id = db_handler.save_post(&post);
    println!("Success!");
}

#[test]
fn create_save_and_delete_user_and_post() {
    let mut db_handler = DatabaseHandler::new();
    let credentials = cheap();

    let user = match User::create("Foo".to_string(), "Bar".to_string(), &credentials) {
        Ok(user) => user,
        Err(err) => panic!("Could not create user! {:?}", err),
    };

    let user_id = db_handler.save_user(&user);

    // A dummy post; it does not point at a real user.
    let post = Post::create(user_id, Some("Foo".to_string()), Some(()));

    let post_id = db_handler.save_post(&post);

    match db_handler.delete_post(user_id, post_id) {
        Ok(_) => println!("Successfully deleted post!"),
        Err(err) => println!("Could not delete post! {:?}", err),
    }

    match db_handler.delete_user(user_id) {
        Ok(_) => println!("Successfully deleted user!"),
        Err(err) => println!("Could not delete post! {:?}", err),
    }
}

#[test]
fn find_random_post() {
    let mut db_handler = DatabaseHandler::new();
    let post = Post::create(0, Some("Lorem ipsum".to_string()), None);
    db_handler.save_post(&post);

    match db_handler.find_random_post() {
        Ok(post) => println!("Success! Found post: {:?}", post),
        Err(err) => panic!("{:?}", err),
    };
}

#[test]
fn create_user() {
    let credentials = cheap();
    let user = User::create(
        "Cat_Lover_84".to_string(),
        "This is a hashed password!".to_string(),
        &credentials,
    );
    println!("Created the following: {:#?}", user);
}

#[test]
fn foreign_delete_is_forbidden_and_post_survives() {
    let mut db = DatabaseHandler::new();
    let author_post = Post::create(1, Some("mine".to_string()), None);
    let post_id = db.save_post(&author_post);

    let r = db.delete_post(2, post_id);
    assert!(matches!(r, Err(AppError::ForbiddenError)));

    let still_there = db.find_post_by_id(post_id).expect("the post must survive");
    assert_eq!(still_there.author, 1);
    assert_eq!(still_there.content.as_deref(), Some("mine"));
}

#[test]
fn author_delete_succeeds_and_post_is_gone() {
    let mut db = DatabaseHandler::new();
    let post = Post::create(1, Some("mine".to_string()), None);
    let post_id = db.save_post(&post);

    assert!(db.delete_post(1, post_id).is_ok());
    assert!(db.find_post_by_id(post_id).is_none());
}

#[test]
fn deletion_decision_on_a_fetched_record() {
    let post = Post::create(3, None, None);
    assert!(matches!(delete_post_decision(None, 3), Err(AppError::NotFoundError)));
    assert!(matches!(delete_post_decision(Some(&post), 4), Err(AppError::ForbiddenError)));
    assert!(delete_post_decision(Some(&post), 3).is_ok());
}

#[test]
fn registration_decision_on_a_fetched_record() {
    let credentials = cheap();
    let taken = User::create("alice".to_string(), "pw".to_string(), &credentials).unwrap();
    assert!(matches!(register_decision(Some(&taken)), Err(AppError::ValidationError)));
    assert!(register_decision(None).is_ok());
}

#[test]
fn deleting_a_missing_post_is_not_found() {
    let mut db = DatabaseHandler::new();
    assert!(matches!(db.delete_post(1, 42), Err(AppError::NotFoundError)));
}

#[test]
fn sampling_an_empty_store_is_not_found() {
    let db = DatabaseHandler::new();
    assert!(matches!(db.find_random_post(), Err(AppError::NotFoundError)));
}

#[test]
fn sampling_always_yields_a_member() {
    let mut db = DatabaseHandler::new();
    let mut ids = Vec::new();
    for author in 0..5u64 {
        let post = Post::create(author, None, None);
        ids.push(db.save_post(&post));
    }
    for _draw in 0..20 {
        let post = db.find_random_post().expect("a non-empty store must yield a post");
        assert!(ids.contains(&post.id.unwrap()));
    }
}

#[test]
fn register_login_and_duplicate_scenario() {
    let mut db = DatabaseHandler::new();
    let credentials = cheap();
    let tokens = SessionTokenService::new(b"a shared test signing key".to_vec());

    let id_a = db
        .register("alice".to_string(), "secret1".to_string(), &credentials)
        .expect("first registration must commit");

    let (identity, _token) =
        auth_login(&db, &tokens, "alice", "secret1", &credentials).expect("login must succeed");
    assert_eq!(identity.id, Some(id_a));
    assert_eq!(identity.name, "alice");

    let wrong = auth_login(&db, &tokens, "alice", "wrong", &credentials);
    assert!(matches!(wrong, Err(AppError::AuthError)));

    let duplicate = db.register("alice".to_string(), "anything".to_string(), &credentials);
    assert!(matches!(duplicate, Err(AppError::ValidationError)));
}

#[test]
fn login_of_an_unknown_user_is_an_auth_error() {
    let db = DatabaseHandler::new();
    let credentials = cheap();
    let r = db.login_user("nobody", "whatever", &credentials);
    assert!(matches!(r, Err(AppError::AuthError)));
}

#[test]
fn change_password_flow() {
    let mut db = DatabaseHandler::new();
    let credentials = cheap();
    let tokens = SessionTokenService::new(b"a shared test signing key".to_vec());

    db.register("bob".to_string(), "old pass".to_string(), &credentials).unwrap();

    let wrong_old = auth_change_pass(&mut db, "bob", "not the old pass", "new pass", &credentials);
    assert!(matches!(wrong_old, Err(AppError::AuthError)));
    assert!(auth_login(&db, &tokens, "bob", "old pass", &credentials).is_ok());

    auth_change_pass(&mut db, "bob", "old pass", "new pass", &credentials).unwrap();
    assert!(auth_login(&db, &tokens, "bob", "new pass", &credentials).is_ok());
    assert!(matches!(
        auth_login(&db, &tokens, "bob", "old pass", &credentials),
        Err(AppError::AuthError)
    ));

    let missing = db.change_password("nobody", "some hash".to_string());
    assert!(matches!(missing, Err(AppError::NotFoundError)));
}

#[test]
fn user_lifecycle_ids_and_lookup() {
    let mut db = DatabaseHandler::new();
    let credentials = cheap();

    let first = db.register("alice".to_string(), "pw one".to_string(), &credentials).unwrap();
    let second = db.register("carol".to_string(), "pw two".to_string(), &credentials).unwrap();
    assert_eq!(first, 0);
    assert_eq!(second, 1);

    let carol = db.find_user_by_id(second).expect("carol is stored");
    assert_eq!(carol.name, "carol");
    assert_eq!(carol.id, Some(second));
    assert!(db.find_user_by_id(99).is_none());

    assert!(db.delete_user(first).is_ok());
    assert!(db.find_user_by_name("alice").is_none());
    assert!(matches!(db.delete_user(first), Err(AppError::NotFoundError)));
    assert!(db.find_user_by_name("carol").is_some());
}

#[test]
fn error_descriptions_are_distinct() {
    let all = [
        AppError::ValidationError,
        AppError::AuthError,
        AppError::NotFoundError,
        AppError::ForbiddenError,
        AppError::StoreError,
        AppError::HashError,
    ];
    for e in all.iter() {
        assert!(!e.describe().is_empty());
    }
    assert_ne!(AppError::AuthError.describe(), AppError::NotFoundError.describe());
}
