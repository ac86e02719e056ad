//! Trusted boundary to the relational engine. The ghost maps below read
//! each table as a function of the `Connection` value; that reading is
//! sound under the store's ownership discipline: one store exclusively
//! owns the connection and the file behind it, the schema is the one
//! `create_schema` lays down, and no other writer touches the database.
//! Two stores opened on one path, or a pre-existing file with a foreign
//! schema, fall outside this model.

use vstd::prelude::*;
use crate::model::{next_stats, owner_registered};

verus! {

#[verifier::external_type_specification]
#[verifier::external_body]
pub struct ExConnection(rusqlite::Connection);

/// The rows of the `users` table reachable through a connection, as a map
/// from username to (row id, password hash).
pub uninterp spec fn db_users(c: rusqlite::Connection) -> Map<Seq<char>, (int, Seq<char>)>;

/// The rows of the `settings` table: user id to
/// (minimum bound, maximum bound, allowed guesses).
pub uninterp spec fn db_settings(c: rusqlite::Connection) -> Map<int, (int, int, int)>;

/// The rows of the `stats` table: user id to
/// (games played, games won, games lost).
pub uninterp spec fn db_stats(c: rusqlite::Connection) -> Map<int, (int, int, int)>;

/// How inserting a fresh user row went.
pub enum InsertOutcome {
    /// The row went in.
    Inserted,
    /// The UNIQUE constraint on username rejected the row; nothing changed.
    DuplicateName,
    /// Any other engine failure, with detail; nothing changed.
    Failed(String),
}

/// All three tables hold no rows, as in a brand-new database.
pub open spec fn store_empty(c: rusqlite::Connection) -> bool {
    db_users(c) == Map::<Seq<char>, (int, Seq<char>)>::empty() && db_settings(c) == Map::<
        int,
        (int, int, int),
    >::empty() && db_stats(c) == Map::<int, (int, int, int)>::empty()
}

/// Relies on `rusqlite::Connection::open`: it opens the database file at
/// the given path, creating the file if absent; the documented special
/// path `:memory:` yields a fresh private in-memory database holding no
/// rows at all.
#[verifier::external_body]
pub(crate) fn open_connection(path: &str) -> (r: Result<rusqlite::Connection, String>)
    ensures
        r matches Ok(c) ==> (path@ == ":memory:"@ ==> store_empty(c)),
{
    rusqlite::Connection::open(path).map_err(|e| e.to_string())
}

/// Relies on `rusqlite::Connection::execute_batch` running
/// `PRAGMA foreign_keys = ON` and three `CREATE TABLE IF NOT EXISTS`
/// statements: idempotent, and whether it succeeds or fails partway it
/// adds, removes and changes no row. The pragma switches foreign-key
/// enforcement on for this connection itself, so the references from
/// settings and stats to users hold whatever the engine build's default.
#[verifier::external_body]
pub(crate) fn create_schema(conn: &mut rusqlite::Connection) -> (r: Result<(), String>)
    ensures
        db_users(*final(conn)) == db_users(*old(conn)),
        db_settings(*final(conn)) == db_settings(*old(conn)),
        db_stats(*final(conn)) == db_stats(*old(conn)),
{
    conn.execute_batch(
        "PRAGMA foreign_keys = ON;
         CREATE TABLE IF NOT EXISTS users (id INTEGER PRIMARY KEY AUTOINCREMENT, username TEXT UNIQUE NOT NULL, password_hash TEXT NOT NULL);
         CREATE TABLE IF NOT EXISTS settings (user_id INTEGER PRIMARY KEY, min_range INTEGER NOT NULL, max_range INTEGER NOT NULL, max_guesses INTEGER NOT NULL, FOREIGN KEY (user_id) REFERENCES users (id) ON DELETE CASCADE);
         CREATE TABLE IF NOT EXISTS stats (user_id INTEGER PRIMARY KEY, games_played INTEGER DEFAULT 0, games_won INTEGER DEFAULT 0, games_lost INTEGER DEFAULT 0, FOREIGN KEY (user_id) REFERENCES users (id) ON DELETE CASCADE);",
    ).map_err(|e| e.to_string())
}

/// Relies on `rusqlite::Connection::execute` running
/// `INSERT INTO users (username, password_hash) VALUES (?1, ?2)`: SQLite
/// adds one fresh row unless the UNIQUE constraint on username rejects the
/// statement, and a failed statement changes nothing. A constraint
/// violation on this statement can only be that UNIQUE constraint, since
/// both bound values are non-null and the row id is auto-assigned.
/// AUTOINCREMENT assigns an id larger than any the table has ever held,
/// so the new row's id differs from every stored id.
#[verifier::external_body]
pub(crate) fn exec_insert_user(conn: &mut rusqlite::Connection, username: &str, hash: &str) -> (r: InsertOutcome)
    ensures
        r is Inserted ==> !db_users(*old(conn)).contains_key(username@),
        r is Inserted ==> db_users(*final(conn)) == db_users(*old(conn)).insert(
            username@,
            (db_users(*final(conn))[username@].0, hash@),
        ),
        r is Inserted ==> forall|u: Seq<char>|
            db_users(*old(conn)).contains_key(u) ==> #[trigger] db_users(*old(conn))[u].0
                != db_users(*final(conn))[username@].0,
        !(r is Inserted) ==> db_users(*final(conn)) == db_users(*old(conn)),
        r is DuplicateName ==> db_users(*old(conn)).contains_key(username@),
        db_users(*old(conn)).contains_key(username@) ==> !(r is Inserted),
        db_settings(*final(conn)) == db_settings(*old(conn)),
        db_stats(*final(conn)) == db_stats(*old(conn)),
{
    match conn.execute("INSERT INTO users (username, password_hash) VALUES (?1, ?2)", [username, hash]) {
        Ok(_) => InsertOutcome::Inserted,
        Err(e) if e.sqlite_error_code() == Some(rusqlite::ffi::ErrorCode::ConstraintViolation) => InsertOutcome::DuplicateName,
        Err(e) => InsertOutcome::Failed(e.to_string()),
    }
}

/// Relies on `rusqlite::Connection::query_row` running
/// `SELECT id, password_hash FROM users WHERE username = ?1`: a row comes
/// back exactly when the username is present (it is unique), carrying that
/// row's id and stored hash.
#[verifier::external_body]
pub(crate) fn exec_lookup_user(conn: &rusqlite::Connection, username: &str) -> (r: Result<Option<(i64, String)>, String>)
    ensures
        r matches Ok(row) ==> (row is Some <==> db_users(*conn).contains_key(username@)),
        r matches Ok(Some(row)) ==> db_users(*conn)[username@] == (row.0 as int, row.1@),
{
    match conn.query_row("SELECT id, password_hash FROM users WHERE username = ?1", [username], |row| {
        Ok((row.get(0)?, row.get(1)?))
    }) {
        Ok(found) => Ok(Some(found)),
        Err(rusqlite::Error::QueryReturnedNoRows) => Ok(None),
        Err(e) => Err(e.to_string()),
    }
}

/// Relies on `rusqlite::Connection::execute` running
/// `INSERT INTO settings ... ON CONFLICT(user_id) DO UPDATE SET ...`: one
/// atomic statement that leaves the settings row for the user holding
/// exactly the three given values, whether or not a row existed before,
/// and a failed statement changes nothing. With foreign keys enforced,
/// an insert of a new row succeeds only for a registered user id.
#[verifier::external_body]
pub(crate) fn exec_upsert_settings(conn: &mut rusqlite::Connection, user_id: i64, min: i64, max: i64, guesses: i64) -> (r: Result<(), String>)
    ensures
        r is Ok ==> db_settings(*final(conn)) == db_settings(*old(conn)).insert(
            user_id as int,
            (min as int, max as int, guesses as int),
        ),
        r is Ok ==> db_settings(*old(conn)).contains_key(user_id as int) || owner_registered(
            db_users(*old(conn)),
            user_id as int,
        ),
        r is Err ==> db_settings(*final(conn)) == db_settings(*old(conn)),
        db_users(*final(conn)) == db_users(*old(conn)),
        db_stats(*final(conn)) == db_stats(*old(conn)),
{
    conn.execute(
        "INSERT INTO settings (user_id, min_range, max_range, max_guesses) VALUES (?1, ?2, ?3, ?4) ON CONFLICT(user_id) DO UPDATE SET min_range = excluded.min_range, max_range = excluded.max_range, max_guesses = excluded.max_guesses",
        [user_id, min, max, guesses],
    ).map(|_| ()).map_err(|e| e.to_string())
}

/// Relies on `rusqlite::Connection::query_row` running
/// `SELECT min_range, max_range, max_guesses FROM settings WHERE user_id = ?1`:
/// a row comes back exactly when the user has saved settings, carrying the
/// three stored values.
#[verifier::external_body]
pub(crate) fn exec_lookup_settings(conn: &rusqlite::Connection, user_id: i64) -> (r: Result<Option<(i64, i64, i64)>, String>)
    ensures
        r matches Ok(row) ==> (row is Some <==> db_settings(*conn).contains_key(user_id as int)),
        r matches Ok(Some(row)) ==> db_settings(*conn)[user_id as int] == (row.0 as int, row.1 as int, row.2 as int),
{
    match conn.query_row("SELECT min_range, max_range, max_guesses FROM settings WHERE user_id = ?1", [user_id], |row| {
        Ok((row.get(0)?, row.get(1)?, row.get(2)?))
    }) {
        Ok(found) => Ok(Some(found)),
        Err(rusqlite::Error::QueryReturnedNoRows) => Ok(None),
        Err(e) => Err(e.to_string()),
    }
}

/// Relies on `rusqlite::Connection::execute` running
/// `INSERT INTO stats (user_id, games_played, games_won) VALUES (?1, 1, 1)
/// ON CONFLICT(user_id) DO UPDATE SET games_played = stats.games_played + 1,
/// games_won = stats.games_won + 1`: one atomic statement that starts a
/// missing row at one played, one won, zero lost (the column default), or
/// raises played and won by one; a failed statement changes nothing. With
/// foreign keys enforced, an insert of a new row succeeds only for a
/// registered user id.
#[verifier::external_body]
pub(crate) fn exec_record_win(conn: &mut rusqlite::Connection, user_id: i64) -> (r: Result<(), String>)
    ensures
        r is Ok ==> db_stats(*final(conn)) == db_stats(*old(conn)).insert(
            user_id as int,
            next_stats(db_stats(*old(conn)), user_id as int, true),
        ),
        r is Ok ==> db_stats(*old(conn)).contains_key(user_id as int) || owner_registered(
            db_users(*old(conn)),
            user_id as int,
        ),
        r is Err ==> db_stats(*final(conn)) == db_stats(*old(conn)),
        db_users(*final(conn)) == db_users(*old(conn)),
        db_settings(*final(conn)) == db_settings(*old(conn)),
{
    conn.execute(
        "INSERT INTO stats (user_id, games_played, games_won) VALUES (?1, 1, 1) ON CONFLICT(user_id) DO UPDATE SET games_played = stats.games_played + 1, games_won = stats.games_won + 1",
        [user_id],
    ).map(|_| ()).map_err(|e| e.to_string())
}

/// Relies on `rusqlite::Connection::execute` running
/// `INSERT INTO stats (user_id, games_played, games_lost) VALUES (?1, 1, 1)
/// ON CONFLICT(user_id) DO UPDATE SET games_played = stats.games_played + 1,
/// games_lost = stats.games_lost + 1`: one atomic statement that starts a
/// missing row at one played, zero won (the column default), one lost, or
/// raises played and lost by one; a failed statement changes nothing.
/// With foreign keys enforced, an insert of a new row succeeds only for a
/// registered user id.
#[verifier::external_body]
pub(crate) fn exec_record_loss(conn: &mut rusqlite::Connection, user_id: i64) -> (r: Result<(), String>)
    ensures
        r is Ok ==> db_stats(*final(conn)) == db_stats(*old(conn)).insert(
            user_id as int,
            next_stats(db_stats(*old(conn)), user_id as int, false),
        ),
        r is Ok ==> db_stats(*old(conn)).contains_key(user_id as int) || owner_registered(
            db_users(*old(conn)),
            user_id as int,
        ),
        r is Err ==> db_stats(*final(conn)) == db_stats(*old(conn)),
        db_users(*final(conn)) == db_users(*old(conn)),
        db_settings(*final(conn)) == db_settings(*old(conn)),
{
    conn.execute(
        "INSERT INTO stats (user_id, games_played, games_lost) VALUES (?1, 1, 1) ON CONFLICT(user_id) DO UPDATE SET games_played = stats.games_played + 1, games_lost = stats.games_lost + 1",
        [user_id],
    ).map(|_| ()).map_err(|e| e.to_string())
}

/// Relies on `rusqlite::Connection::query_row` running
/// `SELECT games_played, games_won, games_lost FROM stats WHERE user_id = ?1`:
/// a row comes back exactly when the user has recorded outcomes, carrying
/// the three counters.
#[verifier::external_body]
pub(crate) fn exec_lookup_stats(conn: &rusqlite::Connection, user_id: i64) -> (r: Result<Option<(i64, i64, i64)>, String>)
    ensures
        r matches Ok(row) ==> (row is Some <==> db_stats(*conn).contains_key(user_id as int)),
        r matches Ok(Some(row)) ==> db_stats(*conn)[user_id as int] == (row.0 as int, row.1 as int, row.2 as int),
{
    match conn.query_row("SELECT games_played, games_won, games_lost FROM stats WHERE user_id = ?1", [user_id], |row| {
        Ok((row.get(0)?, row.get(1)?, row.get(2)?))
    }) {
        Ok(found) => Ok(Some(found)),
        Err(rusqlite::Error::QueryReturnedNoRows) => Ok(None),
        Err(e) => Err(e.to_string()),
    }
}

} // verus!
