use game_store::errors::StoreError;
use game_store::store::Database;

fn fresh() -> Database {
    Database::new(":memory:").expect("an in-memory store must open")
}

fn fresh_with_user(username: &str) -> (Database, i64) {
    let mut db = fresh();
    db.register_user(username, "a password").expect("fresh username must register");
    let id = db.authenticate_user(username, "a password").expect("right password must pass");
    (db, id)
}

#[test]
fn register_then_authenticate_returns_same_id() {
    let mut db = fresh();
    db.register_user("alice", "secret").expect("fresh username must register");
    let id1 = db.authenticate_user("alice", "secret").expect("right password must pass");
    let id2 = db.authenticate_user("alice", "secret").expect("right password must pass again");
    assert_eq!(id1, id2);
}

#[test]
fn duplicate_username_rejected_and_credentials_kept() {
    let mut db = fresh();
    db.register_user("bob", "first-password").expect("fresh username must register");
    let second = db.register_user("bob", "other-password");
    assert!(matches!(second, Err(StoreError::DuplicateUsername)));
    assert!(db.authenticate_user("bob", "first-password").is_ok());
    assert!(matches!(
        db.authenticate_user("bob", "other-password"),
        Err(StoreError::InvalidCredentials)
    ));
}

#[test]
fn wrong_password_and_unknown_username_rejected_alike() {
    let mut db = fresh();
    db.register_user("carol", "right").expect("fresh username must register");
    assert!(matches!(
        db.authenticate_user("carol", "wrong"),
        Err(StoreError::InvalidCredentials)
    ));
    assert!(matches!(
        db.authenticate_user("nobody", "anything"),
        Err(StoreError::InvalidCredentials)
    ));
}

#[test]
fn settings_round_trip_then_full_overwrite() {
    let (mut db, id) = fresh_with_user("dora");
    db.save_user_settings(id, 1, 100, 5).expect("save must reach the store");
    assert_eq!(db.load_user_settings(id).unwrap(), (1, 100, 5));
    db.save_user_settings(id, 10, 20, 3).expect("save must reach the store");
    assert_eq!(db.load_user_settings(id).unwrap(), (10, 20, 3));
}

#[test]
fn settings_are_persisted_unvalidated() {
    let (mut db, id) = fresh_with_user("erin");
    db.save_user_settings(id, 50, 10, 0).expect("save must reach the store");
    assert_eq!(db.load_user_settings(id).unwrap(), (50, 10, 0));
}

#[test]
fn settings_of_two_users_stay_apart() {
    let mut db = fresh();
    db.register_user("frank", "pw-one").expect("fresh username must register");
    db.register_user("grace", "pw-two").expect("fresh username must register");
    let frank = db.authenticate_user("frank", "pw-one").unwrap();
    let grace = db.authenticate_user("grace", "pw-two").unwrap();
    assert_ne!(frank, grace);
    db.save_user_settings(frank, 1, 100, 5).expect("save must reach the store");
    db.save_user_settings(grace, 3, 7, 9).expect("save must reach the store");
    assert_eq!(db.load_user_settings(frank).unwrap(), (1, 100, 5));
    assert_eq!(db.load_user_settings(grace).unwrap(), (3, 7, 9));
}

#[test]
fn three_outcomes_add_up() {
    let (mut db, id) = fresh_with_user("henry");
    db.update_game_stats(id, true).expect("recording must reach the store");
    db.update_game_stats(id, false).expect("recording must reach the store");
    db.update_game_stats(id, true).expect("recording must reach the store");
    assert_eq!(db.get_user_stats(id).unwrap(), (3, 2, 1));
}

#[test]
fn long_outcome_sequence_keeps_invariant() {
    let (mut db, id) = fresh_with_user("iris");
    let mut round: u32 = 0;
    while round < 10 {
        db.update_game_stats(id, round % 3 == 0).expect("recording must reach the store");
        round += 1;
    }
    let (played, won, lost) = db.get_user_stats(id).unwrap();
    assert_eq!(played, 10);
    assert_eq!(won, 4);
    assert_eq!(won + lost, played);
}

#[test]
fn missing_rows_are_not_found() {
    let (db, id) = fresh_with_user("judy");
    assert!(matches!(db.load_user_settings(id), Err(StoreError::NotFound)));
    assert!(matches!(db.get_user_stats(id), Err(StoreError::NotFound)));
    assert!(matches!(db.load_user_settings(12345), Err(StoreError::NotFound)));
    assert!(matches!(db.get_user_stats(12345), Err(StoreError::NotFound)));
}

#[test]
fn unopenable_path_is_a_storage_error() {
    let r = Database::new("/surely/no/such/directory/store.sqlite");
    assert!(matches!(r, Err(StoreError::StorageError(_))));
}

#[test]
fn row_for_unknown_user_is_a_storage_error() {
    let mut db = fresh();
    assert!(matches!(
        db.save_user_settings(999, 1, 100, 5),
        Err(StoreError::StorageError(_))
    ));
    assert!(matches!(db.update_game_stats(999, true), Err(StoreError::StorageError(_))));
}

#[test]
fn stored_hash_is_not_the_plaintext() {
    let mut db = fresh();
    db.register_user("dave", "securepassword").expect("fresh username must register");
    assert!(matches!(
        db.authenticate_user("dave", "$2b$10$securepassword"),
        Err(StoreError::InvalidCredentials)
    ));
    assert!(db.authenticate_user("dave", "securepassword").is_ok());
}
