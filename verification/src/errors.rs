use vstd::prelude::*;

verus! {

/// The classified failures of the account store.
#[derive(Debug)]
pub enum StoreError {
    /// Registration was attempted with a username that is already taken.
    DuplicateUsername,
    /// Authentication failed: the username is unknown or the password does
    /// not match. The two causes are deliberately not distinguished, so a
    /// caller cannot probe which usernames exist.
    InvalidCredentials,
    /// A read found no row for the given user; the store invents no
    /// defaults.
    NotFound,
    /// Any other backing-engine or hashing failure, with human-readable
    /// detail.
    StorageError(String),
}

} // verus!
