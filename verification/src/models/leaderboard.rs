//! Leaderboards of social credit.

use vstd::prelude::*;

use crate::text::{same_text, split_words, words};

verus! {

/// Which score a leaderboard ranks members by.
#[derive(Clone, Copy, Debug, PartialEq, Eq, Structural)]
pub enum LeaderboardType {
    Positive,
    Negative,
    Sum,
    Total,
}

/// The name a leaderboard is shown under.
pub open spec fn leaderboard_name(t: LeaderboardType) -> Seq<char> {
    match t {
        LeaderboardType::Positive => "Positive"@,
        LeaderboardType::Negative => "Negative"@,
        LeaderboardType::Sum => "Sum"@,
        LeaderboardType::Total => "Total"@,
    }
}

/// Distinct leaderboards are shown under distinct names, and the board a
/// command asks for when it names none (the sum of votes for minus votes
/// against) is shown as "Sum".
pub proof fn lemma_leaderboard_names_distinct(t1: LeaderboardType, t2: LeaderboardType)
    ensures
        t1 != t2 ==> leaderboard_name(t1) != leaderboard_name(t2),
        leaderboard_name(LeaderboardType::Sum) == "Sum"@,
{
    reveal_strlit("Positive");
    reveal_strlit("Negative");
    reveal_strlit("Sum");
    reveal_strlit("Total");
    if t1 != t2 {
        let n1 = leaderboard_name(t1);
        let n2 = leaderboard_name(t2);
        if n1.len() == n2.len() {
            assert(n1[0] != n2[0]);
        }
    }
}

/// The leaderboard that a command's words ask for: the second word names
/// it ("sum", "positive", "negative" or "total"); without a second word, or
/// with any other, it is the sum.
pub open spec fn leaderboard_asked(ws: Seq<Seq<char>>) -> LeaderboardType {
    if ws.len() == 1 {
        LeaderboardType::Sum
    } else if ws[1] == "sum"@ {
        LeaderboardType::Sum
    } else if ws[1] == "positive"@ {
        LeaderboardType::Positive
    } else if ws[1] == "negative"@ {
        LeaderboardType::Negative
    } else if ws[1] == "total"@ {
        LeaderboardType::Total
    } else {
        LeaderboardType::Sum
    }
}

/// A leaderboard's name with its first letter in lower case is the word
/// that asks for that board.
pub proof fn lemma_board_asked_by_its_name(command: Seq<char>, t: LeaderboardType)
    ensures
        ({
            let name = leaderboard_name(t);
            leaderboard_asked(seq![command, name.update(0, ((name[0] as int) + 32) as char)]) == t
        }),
{
    reveal_strlit("Positive");
    reveal_strlit("Negative");
    reveal_strlit("Sum");
    reveal_strlit("Total");
    reveal_strlit("positive");
    reveal_strlit("negative");
    reveal_strlit("sum");
    reveal_strlit("total");
    let name = leaderboard_name(t);
    let word = name.update(0, ((name[0] as int) + 32) as char);
    let ws = seq![command, word];
    assert(ws[1] == word);
    match t {
        LeaderboardType::Positive => {
            assert(word =~= "positive"@);
        },
        LeaderboardType::Negative => {
            assert(word =~= "negative"@);
            assert(word != "sum"@);
            assert(word[0] != "positive"@[0]);
        },
        LeaderboardType::Sum => {
            assert(word =~= "sum"@);
        },
        LeaderboardType::Total => {
            assert(word =~= "total"@);
            assert(word != "sum"@);
            assert(word[0] != "positive"@[0]);
            assert(word[0] != "negative"@[0]);
        },
    }
}

impl LeaderboardType {
    /// The name this leaderboard is shown under (its `Display`).
    pub fn name(&self) -> (r: &'static str)
        ensures
            r@ == leaderboard_name(*self),
    {
        match self {
            LeaderboardType::Positive => "Positive",
            LeaderboardType::Negative => "Negative",
            LeaderboardType::Sum => "Sum",
            LeaderboardType::Total => "Total",
        }
    }

    /// The leaderboard that a leaderboard command asks for.
    pub fn from_command(content: &str) -> (r: LeaderboardType)
        requires
            words(content@).len() >= 1,
        ensures
            r == leaderboard_asked(words(content@)),
    {
        let command_segments = split_words(content);
        if command_segments.len() == 1 {
            // If the user did not specify which leaderboard, default to the sum
            return LeaderboardType::Sum;
        }
        let arg = command_segments[1].as_str();
        if same_text(arg, "sum") {
            LeaderboardType::Sum
        } else if same_text(arg, "positive") {
            LeaderboardType::Positive
        } else if same_text(arg, "negative") {
            LeaderboardType::Negative
        } else if same_text(arg, "total") {
            LeaderboardType::Total
        } else {
            LeaderboardType::Sum
        }
    }
}

/// One row of a leaderboard: a member and their score.
pub struct LeaderboardEntry {
    pub username: String,
    pub vote_count: i64,
}

} // verus!
