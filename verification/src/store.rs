use vstd::prelude::*;
use crate::backend::{
    create_schema, db_settings, db_stats, db_users, exec_insert_user, exec_lookup_settings,
    exec_lookup_stats, exec_lookup_user, exec_record_loss, exec_record_win,
    exec_upsert_settings, open_connection, InsertOutcome,
};
use crate::errors::StoreError;
use crate::hashing::{bcrypt_matches, hash_password, verify_password};
use crate::model::{auth_ok, next_stats, owner_registered};

verus! {

/// The work factor handed to the password hasher at registration; a named
/// constant so it can be tuned without touching call sites.
pub const HASH_COST: u32 = 10;

/// The persistent account store: it exclusively owns the one connection to
/// the backing database and keeps three tables there, abstracted by the
/// ghost maps `users`, `settings` and `stats`. Callers hold the store
/// behind an exclusive reference, so operations are serialized and each
/// runs to completion before the next begins.
pub struct Database {
    conn: rusqlite::Connection,
}

impl Database {
    /// The users table: username to (user id, stored password hash).
    pub closed spec fn users(self) -> Map<Seq<char>, (int, Seq<char>)> {
        db_users(self.conn)
    }

    /// The settings table: user id to (minimum bound, maximum bound,
    /// allowed guesses).
    pub closed spec fn settings(self) -> Map<int, (int, int, int)> {
        db_settings(self.conn)
    }

    /// The stats table: user id to (games played, games won, games lost).
    pub closed spec fn stats(self) -> Map<int, (int, int, int)> {
        db_stats(self.conn)
    }

    /// A store with no rows at all, as a brand-new database starts.
    pub open spec fn is_empty(self) -> bool {
        self.users() == Map::<Seq<char>, (int, Seq<char>)>::empty() && self.settings()
            == Map::<int, (int, int, int)>::empty() && self.stats() == Map::<
            int,
            (int, int, int),
        >::empty()
    }

    /// Opens (creating if absent) the database file at the given path and
    /// idempotently ensures the three tables exist, with foreign-key
    /// enforcement switched on. The special path `:memory:` yields a
    /// fresh store with all three tables empty. Failure here leaves no
    /// usable store, and is the only failure a caller may treat as fatal.
    pub fn new(db_path: &str) -> (r: Result<Database, StoreError>)
        ensures
            r matches Err(e) ==> e is StorageError,
            r matches Ok(db) ==> (db_path@ == ":memory:"@ ==> db.is_empty()),
    {
        let mut conn = match open_connection(db_path) {
            Ok(c) => c,
            Err(msg) => {
                return Err(StoreError::StorageError(msg));
            },
        };
        match create_schema(&mut conn) {
            Ok(_) => Ok(Database { conn }),
            Err(msg) => Err(StoreError::StorageError(msg)),
        }
    }

    /// Registers a new account: hashes the plaintext password (which is
    /// never stored) and inserts one user row. On success the users table
    /// gains exactly this username, bound to a hash that matches the given
    /// password and to an id no stored row carries (ids are auto-assigned
    /// and never reused); a taken username is rejected as
    /// `DuplicateUsername`, and no failure of any kind changes any table.
    pub fn register_user(&mut self, username: &str, password: &str) -> (r: Result<(), StoreError>)
        requires
            username@.len() > 0,
        ensures
            r is Ok ==> !old(self).users().contains_key(username@),
            r is Ok ==> final(self).users() == old(self).users().insert(
                username@,
                final(self).users()[username@],
            ),
            r is Ok ==> bcrypt_matches(password@, final(self).users()[username@].1),
            r is Ok ==> forall|u: Seq<char>|
                old(self).users().contains_key(u) ==> #[trigger] old(self).users()[u].0
                    != final(self).users()[username@].0,
            !(r is Ok) ==> final(self).users() == old(self).users(),
            r matches Err(e) ==> (e is DuplicateUsername || e is StorageError),
            r matches Err(e) && e is DuplicateUsername ==> old(self).users().contains_key(
                username@,
            ),
            old(self).users().contains_key(username@) ==> !(r is Ok),
            final(self).settings() == old(self).settings(),
            final(self).stats() == old(self).stats(),
    {
        let hashed = match hash_password(password, HASH_COST) {
            Ok(h) => h,
            Err(msg) => {
                return Err(StoreError::StorageError(msg));
            },
        };
        match exec_insert_user(&mut self.conn, username, hashed.as_str()) {
            InsertOutcome::Inserted => Ok(()),
            InsertOutcome::DuplicateName => Err(StoreError::DuplicateUsername),
            InsertOutcome::Failed(msg) => Err(StoreError::StorageError(msg)),
        }
    }

    /// Looks the username up and verifies the plaintext against the stored
    /// hash. The result is pinned to `auth_ok` over the users table: the
    /// stored id exactly when the username is present and the password
    /// matches, and `InvalidCredentials` — the same error for an unknown
    /// username, a wrong password, or a verifier refusal — otherwise.
    pub fn authenticate_user(&self, username: &str, password: &str) -> (r: Result<i64, StoreError>)
        ensures
            r matches Ok(id) ==> auth_ok(self.users(), username@, password@) == Some(id as int),
            r matches Err(e) ==> (e is InvalidCredentials || e is StorageError),
            r matches Err(e) && e is InvalidCredentials ==> auth_ok(
                self.users(),
                username@,
                password@,
            ) is None,
            auth_ok(self.users(), username@, password@) is None ==> !(r is Ok),
    {
        let row = match exec_lookup_user(&self.conn, username) {
            Ok(found) => found,
            Err(msg) => {
                return Err(StoreError::StorageError(msg));
            },
        };
        match row {
            Some((id, stored_hash)) => match verify_password(password, stored_hash.as_str()) {
                Ok(true) => Ok(id),
                Ok(false) => Err(StoreError::InvalidCredentials),
                Err(_) => Err(StoreError::InvalidCredentials),
            },
            None => Err(StoreError::InvalidCredentials),
        }
    }

    /// Upserts the settings row for the user in one atomic statement: on
    /// success the row holds exactly the three given values (full
    /// overwrite, not a merge), and the store validates nothing — the
    /// bounds are persisted as given. A row can only come into being for
    /// a registered user id (the enforced foreign key), so settings rows
    /// never orphan. On failure prior settings stand.
    pub fn save_user_settings(&mut self, user_id: i64, min: i64, max: i64, guesses: i64) -> (r:
        Result<(), StoreError>)
        ensures
            r is Ok ==> final(self).settings() == old(self).settings().insert(
                user_id as int,
                (min as int, max as int, guesses as int),
            ),
            r is Ok ==> old(self).settings().contains_key(user_id as int) || owner_registered(
                old(self).users(),
                user_id as int,
            ),
            !(r is Ok) ==> final(self).settings() == old(self).settings(),
            r matches Err(e) ==> e is StorageError,
            final(self).users() == old(self).users(),
            final(self).stats() == old(self).stats(),
    {
        match exec_upsert_settings(&mut self.conn, user_id, min, max, guesses) {
            Ok(_) => Ok(()),
            Err(msg) => Err(StoreError::StorageError(msg)),
        }
    }

    /// Reads the settings row for the user. A user who never saved
    /// settings gets `NotFound`, never an invented default.
    pub fn load_user_settings(&self, user_id: i64) -> (r: Result<(i64, i64, i64), StoreError>)
        ensures
            r matches Ok(s) ==> self.settings().contains_key(user_id as int)
                && self.settings()[user_id as int] == (s.0 as int, s.1 as int, s.2 as int),
            r matches Err(e) ==> (e is NotFound || e is StorageError),
            r matches Err(e) && e is NotFound ==> !self.settings().contains_key(user_id as int),
            !self.settings().contains_key(user_id as int) ==> !(r is Ok),
    {
        match exec_lookup_settings(&self.conn, user_id) {
            Ok(Some(s)) => Ok(s),
            Ok(None) => Err(StoreError::NotFound),
            Err(msg) => Err(StoreError::StorageError(msg)),
        }
    }

    /// Records one finished game in one atomic upsert: a user without a
    /// stats row starts at one game played and the one relevant counter at
    /// one; an existing row has games played and exactly one of games won
    /// / games lost raised by one, the counter chosen here by a fixed
    /// two-way selection, never by caller-controlled text. A row can only
    /// come into being for a registered user id (the enforced foreign
    /// key), so stats rows never orphan. On failure prior counters stand.
    pub fn update_game_stats(&mut self, user_id: i64, won: bool) -> (r: Result<(), StoreError>)
        ensures
            r is Ok ==> final(self).stats() == old(self).stats().insert(
                user_id as int,
                next_stats(old(self).stats(), user_id as int, won),
            ),
            r is Ok ==> old(self).stats().contains_key(user_id as int) || owner_registered(
                old(self).users(),
                user_id as int,
            ),
            !(r is Ok) ==> final(self).stats() == old(self).stats(),
            r matches Err(e) ==> e is StorageError,
            final(self).users() == old(self).users(),
            final(self).settings() == old(self).settings(),
    {
        let res = if won {
            exec_record_win(&mut self.conn, user_id)
        } else {
            exec_record_loss(&mut self.conn, user_id)
        };
        match res {
            Ok(_) => Ok(()),
            Err(msg) => Err(StoreError::StorageError(msg)),
        }
    }

    /// Reads the stats row for the user. A user who never recorded an
    /// outcome gets `NotFound`, never zeroed counters.
    pub fn get_user_stats(&self, user_id: i64) -> (r: Result<(i64, i64, i64), StoreError>)
        ensures
            r matches Ok(s) ==> self.stats().contains_key(user_id as int)
                && self.stats()[user_id as int] == (s.0 as int, s.1 as int, s.2 as int),
            r matches Err(e) ==> (e is NotFound || e is StorageError),
            r matches Err(e) && e is NotFound ==> !self.stats().contains_key(user_id as int),
            !self.stats().contains_key(user_id as int) ==> !(r is Ok),
    {
        match exec_lookup_stats(&self.conn, user_id) {
            Ok(Some(s)) => Ok(s),
            Ok(None) => Err(StoreError::NotFound),
            Err(msg) => Err(StoreError::StorageError(msg)),
        }
    }
}

} // verus!
