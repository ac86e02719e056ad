use vstd::prelude::*;
use crate::hashing::bcrypt_matches;

verus! {

/// What a completed authentication must resolve to for a given users
/// table: `Some(id)` when the username is present and the password matches
/// its stored hash, `None` otherwise.
pub open spec fn auth_ok(
    users: Map<Seq<char>, (int, Seq<char>)>,
    username: Seq<char>,
    password: Seq<char>,
) -> Option<int> {
    if users.contains_key(username) && bcrypt_matches(password, users[username].1) {
        Some(users[username].0)
    } else {
        None
    }
}

/// One recorded outcome applied to the stats table: a user without a row
/// starts from all-zero counters; games played and exactly one of games
/// won / games lost go up by one.
pub open spec fn next_stats(
    stats: Map<int, (int, int, int)>,
    user_id: int,
    won: bool,
) -> (int, int, int) {
    let prev = if stats.contains_key(user_id) {
        stats[user_id]
    } else {
        (0int, 0int, 0int)
    };
    if won {
        (prev.0 + 1, prev.1 + 1, prev.2)
    } else {
        (prev.0 + 1, prev.1, prev.2 + 1)
    }
}

/// The stats table after a whole sequence of outcomes recorded for one
/// user, earliest outcome first.
pub open spec fn stats_after(
    stats: Map<int, (int, int, int)>,
    user_id: int,
    outcomes: Seq<bool>,
) -> Map<int, (int, int, int)>
    decreases outcomes.len(),
{
    if outcomes.len() == 0 {
        stats
    } else {
        stats_after(
            stats.insert(user_id, next_stats(stats, user_id, outcomes[0])),
            user_id,
            outcomes.drop_first(),
        )
    }
}

/// How many of a sequence of outcomes were wins.
pub open spec fn count_wins(outcomes: Seq<bool>) -> int
    decreases outcomes.len(),
{
    if outcomes.len() == 0 {
        0
    } else {
        (if outcomes[0] {
            1int
        } else {
            0int
        }) + count_wins(outcomes.drop_first())
    }
}

/// A stats row is consistent when the games played split exactly into wins
/// and losses.
pub open spec fn stats_row_ok(row: (int, int, int)) -> bool {
    row.0 == row.1 + row.2
}

/// Some registered user carries this id.
pub open spec fn owner_registered(users: Map<Seq<char>, (int, Seq<char>)>, user_id: int) -> bool {
    exists|u: Seq<char>| users.contains_key(u) && #[trigger] users[u].0 == user_id
}

/// Every settings or stats row belongs to a registered user — the
/// referential integrity the schema's foreign keys enforce, so orphaned
/// rows cannot exist.
pub open spec fn rows_reference_users(
    users: Map<Seq<char>, (int, Seq<char>)>,
    rows: Map<int, (int, int, int)>,
) -> bool {
    forall|id: int| #[trigger] rows.contains_key(id) ==> owner_registered(users, id)
}

/// No two usernames share a user id.
pub open spec fn ids_distinct(users: Map<Seq<char>, (int, Seq<char>)>) -> bool {
    forall|u1: Seq<char>, u2: Seq<char>|
        #![trigger users[u1], users[u2]]
        users.contains_key(u1) && users.contains_key(u2) && u1 != u2 ==> users[u1].0
            != users[u2].0
}

} // verus!
