//! The decisions the bot takes around its database: which leaderboard query
//! to run, what to do after looking a member up, and how a catch changes
//! the ownership records. Running the queries is left to the program.

use vstd::prelude::*;

use crate::models::leaderboard::LeaderboardType;
use crate::models::pokemon::pokemon_ownership_record::PokemonOwnershipRecord;

verus! {

/// The bot's database.
pub struct Database;

/// How looking a member's social credit up went.
#[derive(Clone, Copy, Debug, PartialEq, Eq, Structural)]
pub enum UserLookup {
    /// The member has a record.
    Found,
    /// The database has no row for the member.
    Missing,
    /// The lookup failed for another reason.
    Failed,
}

/// What to do next for a member who must have a record.
pub enum UserStep {
    /// The member has a record; nothing more to do.
    Ready,
    /// Add the member.
    AddUser,
    /// Give up with this message.
    Fail(String),
}

/// How a catch changes the catcher's ownership record.
#[derive(Clone, Copy, Debug, PartialEq, Eq, Structural)]
pub enum OwnershipWrite {
    /// The member already owns this Pokémon in this look: set the count.
    SetCount(i64),
    /// First of its kind for the member: insert a record with a count of 1.
    InsertFirst,
}

/// The query behind each leaderboard: the five members with the most
/// positive votes, the most negative votes, the most votes of either kind,
/// or the best positive-minus-negative balance.
pub open spec fn leaderboard_sql(t: LeaderboardType) -> Seq<char> {
    match t {
        LeaderboardType::Positive => "SELECT users.username, social_credit.positive_credit as vote_count FROM social_credit INNER JOIN users ON social_credit.discord_id = users.discord_id ORDER BY positive_credit DESC LIMIT 5"@,
        LeaderboardType::Negative => "SELECT users.username, social_credit.negative_credit as vote_count FROM social_credit INNER JOIN users ON social_credit.discord_id = users.discord_id ORDER BY negative_credit DESC LIMIT 5"@,
        LeaderboardType::Total => "SELECT users.username, (social_credit.positive_credit + social_credit.negative_credit) AS vote_count FROM social_credit INNER JOIN users ON social_credit.discord_id = users.discord_id ORDER BY vote_count DESC LIMIT 5"@,
        LeaderboardType::Sum => "SELECT users.username, (social_credit.positive_credit - social_credit.negative_credit) AS vote_count FROM social_credit INNER JOIN users ON social_credit.discord_id = users.discord_id ORDER BY vote_count DESC LIMIT 5"@,
    }
}

/// What a leaderboard ranks members by, as its query selects it under the
/// name `vote_count`.
pub open spec fn board_score_sql(t: LeaderboardType) -> Seq<char> {
    match t {
        LeaderboardType::Positive => "social_credit.positive_credit as vote_count"@,
        LeaderboardType::Negative => "social_credit.negative_credit as vote_count"@,
        LeaderboardType::Total => "(social_credit.positive_credit + social_credit.negative_credit) AS vote_count"@,
        LeaderboardType::Sum => "(social_credit.positive_credit - social_credit.negative_credit) AS vote_count"@,
    }
}

/// Every leaderboard's query selects each member's name and the board's
/// score, ranks by that score from the highest down, and keeps the first
/// five rows: the positive board by votes for, the negative board by votes
/// against, the total board by all votes, and the sum board by votes for
/// minus votes against.
#[verifier::rlimit(50)]
pub proof fn lemma_leaderboards_rank_highest_first(t: LeaderboardType)
    ensures
        ("SELECT users.username, "@ + board_score_sql(t)).is_prefix_of(leaderboard_sql(t)),
        (" DESC LIMIT 5"@).is_suffix_of(leaderboard_sql(t)),
        (t == LeaderboardType::Positive ==> ("ORDER BY positive_credit DESC LIMIT 5"@).is_suffix_of(
            leaderboard_sql(t),
        )),
        (t == LeaderboardType::Negative ==> ("ORDER BY negative_credit DESC LIMIT 5"@).is_suffix_of(
            leaderboard_sql(t),
        )),
        ((t == LeaderboardType::Total || t == LeaderboardType::Sum) ==> ("ORDER BY vote_count DESC LIMIT 5"@).is_suffix_of(
            leaderboard_sql(t),
        )),
{
    reveal_strlit("SELECT users.username, ");
    reveal_strlit(" DESC LIMIT 5");
    reveal_strlit("ORDER BY positive_credit DESC LIMIT 5");
    reveal_strlit("ORDER BY negative_credit DESC LIMIT 5");
    reveal_strlit("ORDER BY vote_count DESC LIMIT 5");
    match t {
        LeaderboardType::Positive => {
            reveal_strlit("SELECT users.username, social_credit.positive_credit as vote_count FROM social_credit INNER JOIN users ON social_credit.discord_id = users.discord_id ORDER BY positive_credit DESC LIMIT 5");
            reveal_strlit("social_credit.positive_credit as vote_count");
        },
        LeaderboardType::Negative => {
            reveal_strlit("SELECT users.username, social_credit.negative_credit as vote_count FROM social_credit INNER JOIN users ON social_credit.discord_id = users.discord_id ORDER BY negative_credit DESC LIMIT 5");
            reveal_strlit("social_credit.negative_credit as vote_count");
        },
        LeaderboardType::Total => {
            reveal_strlit("SELECT users.username, (social_credit.positive_credit + social_credit.negative_credit) AS vote_count FROM social_credit INNER JOIN users ON social_credit.discord_id = users.discord_id ORDER BY vote_count DESC LIMIT 5");
            reveal_strlit("(social_credit.positive_credit + social_credit.negative_credit) AS vote_count");
        },
        LeaderboardType::Sum => {
            reveal_strlit("SELECT users.username, (social_credit.positive_credit - social_credit.negative_credit) AS vote_count FROM social_credit INNER JOIN users ON social_credit.discord_id = users.discord_id ORDER BY vote_count DESC LIMIT 5");
            reveal_strlit("(social_credit.positive_credit - social_credit.negative_credit) AS vote_count");
        },
    }
    let q = leaderboard_sql(t);
    let head = "SELECT users.username, "@ + board_score_sql(t);
    assert(head =~= q.subrange(0, head.len() as int));
    let tail = " DESC LIMIT 5"@;
    assert(tail =~= q.subrange(q.len() - tail.len(), q.len() as int));
    let order = match t {
        LeaderboardType::Positive => "ORDER BY positive_credit DESC LIMIT 5"@,
        LeaderboardType::Negative => "ORDER BY negative_credit DESC LIMIT 5"@,
        _ => "ORDER BY vote_count DESC LIMIT 5"@,
    };
    assert(order =~= q.subrange(q.len() - order.len(), q.len() as int));
}

/// The statement that records a catch in the catcher's ownership records:
/// setting the count of an existing record (bound to the new count, then
/// the record's member, slug and look), or inserting a first record with a
/// count of 1 (bound to the member, slug and look).
pub open spec fn ownership_write_sql(w: OwnershipWrite) -> Seq<char> {
    match w {
        OwnershipWrite::SetCount(_) => "UPDATE pokemon_ownership_record SET number_owned = ? WHERE discord_id = ? AND pokemon_slug = ? AND pokemon_type = ?"@,
        OwnershipWrite::InsertFirst => "INSERT INTO pokemon_ownership_record (discord_id, pokemon_slug, number_owned, pokemon_type) VALUES (?, ?, 1, ?)"@,
    }
}

/// The statement that stamps a member's catch command record with the time
/// of a catch and counts one more use (bound to the time, then the member).
pub open spec fn command_record_touch_sql() -> Seq<char> {
    "UPDATE pokemon_command_record SET last_used_at = ?, times_used = times_used + 1 WHERE discord_id = ?"@
}

impl Database {
    /// The two statements a catch runs, in order, in one transaction: the
    /// ownership write that `write` calls for, then the stamp on the
    /// catcher's command record.
    pub fn catch_statements(write: OwnershipWrite) -> (r: (&'static str, &'static str))
        ensures
            r.0@ == ownership_write_sql(write),
            r.1@ == command_record_touch_sql(),
    {
        let ownership = match write {
            OwnershipWrite::SetCount(_) => "UPDATE pokemon_ownership_record SET number_owned = ? WHERE discord_id = ? AND pokemon_slug = ? AND pokemon_type = ?",
            OwnershipWrite::InsertFirst => "INSERT INTO pokemon_ownership_record (discord_id, pokemon_slug, number_owned, pokemon_type) VALUES (?, ?, 1, ?)",
        };
        (
            ownership,
            "UPDATE pokemon_command_record SET last_used_at = ?, times_used = times_used + 1 WHERE discord_id = ?",
        )
    }

    /// The query that fetches a leaderboard's rows.
    pub fn leaderboard_query(leaderboard_type: LeaderboardType) -> (r: &'static str)
        ensures
            r@ == leaderboard_sql(leaderboard_type),
    {
        match leaderboard_type {
            LeaderboardType::Positive => "SELECT users.username, social_credit.positive_credit as vote_count FROM social_credit INNER JOIN users ON social_credit.discord_id = users.discord_id ORDER BY positive_credit DESC LIMIT 5",
            LeaderboardType::Negative => "SELECT users.username, social_credit.negative_credit as vote_count FROM social_credit INNER JOIN users ON social_credit.discord_id = users.discord_id ORDER BY negative_credit DESC LIMIT 5",
            LeaderboardType::Total => "SELECT users.username, (social_credit.positive_credit + social_credit.negative_credit) AS vote_count FROM social_credit INNER JOIN users ON social_credit.discord_id = users.discord_id ORDER BY vote_count DESC LIMIT 5",
            LeaderboardType::Sum => "SELECT users.username, (social_credit.positive_credit - social_credit.negative_credit) AS vote_count FROM social_credit INNER JOIN users ON social_credit.discord_id = users.discord_id ORDER BY vote_count DESC LIMIT 5",
        }
    }

    /// After looking a member up: a member with a record is ready, a member
    /// without one is to be added, and any other failure ends the attempt.
    pub fn after_user_lookup(lookup: UserLookup) -> (r: UserStep)
        ensures
            lookup == UserLookup::Found <==> r is Ready,
            lookup == UserLookup::Missing <==> r is AddUser,
            r matches UserStep::Fail(e) ==> lookup == UserLookup::Failed && e@
                == "Unhandled error when getting a user social credit"@,
            lookup == UserLookup::Failed ==> r is Fail,
    {
        match lookup {
            UserLookup::Found => UserStep::Ready,
            UserLookup::Missing => UserStep::AddUser,
            UserLookup::Failed => UserStep::Fail(
                "Unhandled error when getting a user social credit".to_owned(),
            ),
        }
    }

    /// After trying to add a member: done, or the message that adding them
    /// failed.
    pub fn after_add_user(added: bool) -> (r: Result<(), String>)
        ensures
            r is Ok <==> added,
            r matches Err(e) ==> e@ == "Failed to add user to db when handling social credit retrieval"@,
    {
        if added {
            Ok(())
        } else {
            Err("Failed to add user to db when handling social credit retrieval".to_owned())
        }
    }

    /// How a catch changes the record the catcher has for that Pokémon in
    /// that look: one more where there is a record, a first record
    /// otherwise.
    pub fn ownership_write(existing: &Option<PokemonOwnershipRecord>) -> (r: OwnershipWrite)
        requires
            existing matches Some(e) ==> e.number_owned < i64::MAX,
        ensures
            match existing {
                Some(e) => r == OwnershipWrite::SetCount((e.number_owned + 1) as i64),
                None => r == OwnershipWrite::InsertFirst,
            },
    {
        match existing {
            // This user already has this pokemon, so we want to increment their count for it
            Some(existing_record) => OwnershipWrite::SetCount(existing_record.number_owned + 1),
            // This user does not have this pokemon yet, so we want to create a new record
            None => OwnershipWrite::InsertFirst,
        }
    }
}

} // verus!
