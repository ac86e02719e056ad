use vstd::prelude::*;
use crate::hashing::bcrypt_matches;
use crate::model::{
    auth_ok, count_wins, ids_distinct, next_stats, owner_registered, rows_reference_users,
    stats_after, stats_row_ok,
};

verus! {

/// Referential integrity survives a write: if every settings (or stats)
/// row belonged to a registered user, and a row is written whose key
/// either already existed or belongs to a registered user — the only
/// writes the store's contracts allow to succeed — then every row still
/// belongs to a registered user.
pub proof fn lemma_rows_stay_referenced(
    users: Map<Seq<char>, (int, Seq<char>)>,
    rows: Map<int, (int, int, int)>,
    user_id: int,
    value: (int, int, int),
)
    requires
        rows_reference_users(users, rows),
        rows.contains_key(user_id) || owner_registered(users, user_id),
    ensures
        rows_reference_users(users, rows.insert(user_id, value)),
{
    assert forall|id: int|
        #[trigger] rows.insert(user_id, value).contains_key(id) implies owner_registered(
        users,
        id,
    ) by {
        if id != user_id {
            assert(rows.contains_key(id));
        }
    }
}

/// Referential integrity survives a registration: adding a fresh
/// username leaves every existing user row in place, so every settings
/// or stats row keeps its owner.
pub proof fn lemma_rows_survive_new_user(
    users: Map<Seq<char>, (int, Seq<char>)>,
    rows: Map<int, (int, int, int)>,
    username: Seq<char>,
    entry: (int, Seq<char>),
)
    requires
        rows_reference_users(users, rows),
        !users.contains_key(username),
    ensures
        rows_reference_users(users.insert(username, entry), rows),
{
    let updated = users.insert(username, entry);
    assert forall|id: int| #[trigger] rows.contains_key(id) implies owner_registered(
        updated,
        id,
    ) by {
        let u = choose|u: Seq<char>| users.contains_key(u) && #[trigger] users[u].0 == id;
        assert(updated.contains_key(u) && updated[u].0 == id);
    }
}

/// User ids never collide: if distinct usernames held distinct ids and a
/// row is inserted whose id differs from every stored id — which is what
/// a successful registration does — distinct usernames still hold
/// distinct ids.
pub proof fn lemma_fresh_id_keeps_ids_distinct(
    users: Map<Seq<char>, (int, Seq<char>)>,
    username: Seq<char>,
    entry: (int, Seq<char>),
)
    requires
        ids_distinct(users),
        forall|u: Seq<char>| users.contains_key(u) ==> #[trigger] users[u].0 != entry.0,
    ensures
        ids_distinct(users.insert(username, entry)),
{
    let updated = users.insert(username, entry);
    assert forall|u1: Seq<char>, u2: Seq<char>|
        #![trigger updated[u1], updated[u2]]
        updated.contains_key(u1) && updated.contains_key(u2) && u1 != u2 implies updated[u1].0
        != updated[u2].0 by {
        if u1 == username {
            assert(users[u2].0 != entry.0);
        } else if u2 == username {
            assert(users[u1].0 != entry.0);
        } else {
            assert(users[u1] == updated[u1] && users[u2] == updated[u2]);
        }
    }
}

/// Registration round trip: take any users table without the username and
/// insert a row for it — which is what a successful registration does,
/// with a hash the password matches. Authentication against the new table
/// then resolves to exactly that row's id; and since `auth_ok` is a
/// function of the table alone, every later authentication against the
/// unchanged table resolves to the same id.
pub proof fn lemma_register_round_trip(
    users: Map<Seq<char>, (int, Seq<char>)>,
    username: Seq<char>,
    password: Seq<char>,
    id: int,
    hash: Seq<char>,
)
    requires
        !users.contains_key(username),
    ensures
        bcrypt_matches(password, hash) ==> auth_ok(
            users.insert(username, (id, hash)),
            username,
            password,
        ) == Some(id),
{
}

/// Wrong-credential rejection: authentication resolves to no id for an
/// unknown username, and for a known username whenever the password does
/// not match the stored hash. The store's `authenticate_user` then cannot
/// return an id and reports `InvalidCredentials` in both cases alike.
pub proof fn lemma_bad_credentials_rejected(
    users: Map<Seq<char>, (int, Seq<char>)>,
    username: Seq<char>,
    password: Seq<char>,
)
    ensures
        !users.contains_key(username) ==> auth_ok(users, username, password) is None,
        users.contains_key(username) && !bcrypt_matches(password, users[username].1)
            ==> auth_ok(users, username, password) is None,
{
}

/// Settings upsert: saving writes the whole triple, so a save followed by
/// a load yields exactly what was saved, and a second save fully
/// overwrites the first — the table ends as if only the last save had
/// happened.
pub proof fn lemma_settings_overwrite(
    settings: Map<int, (int, int, int)>,
    user_id: int,
    first: (int, int, int),
    second: (int, int, int),
)
    ensures
        settings.insert(user_id, first)[user_id] == first,
        settings.insert(user_id, first).insert(user_id, second)[user_id] == second,
        settings.insert(user_id, first).insert(user_id, second) == settings.insert(
            user_id,
            second,
        ),
{
    assert(settings.insert(user_id, first).insert(user_id, second) =~= settings.insert(
        user_id,
        second,
    ));
}

/// One recorded outcome keeps a user's counters consistent: if the user
/// had no row yet, or a row whose games played split into wins and
/// losses, the row after the outcome splits the same way.
pub proof fn lemma_outcome_preserves_invariant(
    stats: Map<int, (int, int, int)>,
    user_id: int,
    won: bool,
)
    ensures
        !stats.contains_key(user_id) || stats_row_ok(stats[user_id]) ==> stats_row_ok(
            next_stats(stats, user_id, won),
        ),
{
}

/// The number of wins in a sequence of outcomes is between zero and the
/// number of outcomes.
proof fn lemma_count_wins_bounds(outcomes: Seq<bool>)
    ensures
        0 <= count_wins(outcomes) <= outcomes.len(),
    decreases outcomes.len(),
{
    if outcomes.len() > 0 {
        lemma_count_wins_bounds(outcomes.drop_first());
    }
}

/// Counters track a whole history: starting from any row, a sequence of
/// recorded outcomes raises games played by the number of outcomes, wins
/// by the number won, and losses by the rest.
proof fn lemma_stats_after_tracks(
    stats: Map<int, (int, int, int)>,
    user_id: int,
    outcomes: Seq<bool>,
)
    requires
        stats.contains_key(user_id),
    ensures
        stats_after(stats, user_id, outcomes).contains_key(user_id),
        stats_after(stats, user_id, outcomes)[user_id].0 == stats[user_id].0 + outcomes.len(),
        stats_after(stats, user_id, outcomes)[user_id].1 == stats[user_id].1 + count_wins(
            outcomes,
        ),
        stats_after(stats, user_id, outcomes)[user_id].2 == stats[user_id].2 + (outcomes.len()
            - count_wins(outcomes)),
    decreases outcomes.len(),
{
    if outcomes.len() > 0 {
        let stepped = stats.insert(user_id, next_stats(stats, user_id, outcomes[0]));
        lemma_stats_after_tracks(stepped, user_id, outcomes.drop_first());
    }
}

/// Stats over any history: a user starting with no stats row who records
/// any non-empty sequence of outcomes ends with games played equal to the
/// number of outcomes, games won equal to the outcomes won, games lost
/// the rest — and so games played always equals wins plus losses.
pub proof fn lemma_stats_sequence(
    stats: Map<int, (int, int, int)>,
    user_id: int,
    outcomes: Seq<bool>,
)
    requires
        !stats.contains_key(user_id),
        outcomes.len() > 0,
    ensures
        stats_after(stats, user_id, outcomes).contains_key(user_id),
        stats_after(stats, user_id, outcomes)[user_id].0 == outcomes.len(),
        stats_after(stats, user_id, outcomes)[user_id].1 == count_wins(outcomes),
        stats_after(stats, user_id, outcomes)[user_id].2 == outcomes.len() - count_wins(outcomes),
        stats_row_ok(stats_after(stats, user_id, outcomes)[user_id]),
{
    let stepped = stats.insert(user_id, next_stats(stats, user_id, outcomes[0]));
    lemma_count_wins_bounds(outcomes);
    lemma_stats_after_tracks(stepped, user_id, outcomes.drop_first());
}

} // verus!
