//! A member's social-credit tally.

use vstd::prelude::*;

verus! {

/// The social-credit tally of one member: the votes for them, the votes
/// against them, and the credit traded to them.
pub struct SocialCredit {
    pub username: String,
    pub positive_credit: i64,
    pub negative_credit: i64,
    pub traded_credit: i64,
}

impl SocialCredit {
    /// The member's score: votes for, plus credit traded, minus votes
    /// against.
    pub open spec fn score(&self) -> int {
        self.positive_credit + self.traded_credit - self.negative_credit
    }

    /// The score as an unsigned number. A negative score wraps around, as
    /// Rust's `as usize` does; a score that is not negative and fits in a
    /// `usize` comes out as it is.
    pub fn sum_score(&self) -> (r: usize)
        requires
            i64::MIN <= self.positive_credit + self.traded_credit <= i64::MAX,
            i64::MIN <= self.score() <= i64::MAX,
        ensures
            r == self.score() as usize,
            0 <= self.score() <= usize::MAX ==> r as int == self.score(),
    {
        #[verifier::truncate]
        (((self.positive_credit + self.traded_credit) - self.negative_credit) as usize)
    }
}

/// One more unit of a signed number moves its unsigned form up by one,
/// unless that form wraps around to zero.
proof fn lemma_unsigned_step_up(a: i64, b: i64)
    by (bit_vector)
    requires
        b == a + 1,
    ensures
        (b as usize) == 0 || (b as usize) == (a as usize) + 1,
        (b as usize) == 0 ==> (((a as usize) + 1) as usize) == 0,
{
}

/// One unit less of a signed number moves its unsigned form down by one,
/// unless that form was zero.
proof fn lemma_unsigned_step_down(a: i64, b: i64)
    by (bit_vector)
    requires
        b == a - 1,
    ensures
        (a as usize) > 0 ==> (b as usize) == (a as usize) - 1,
{
}

/// A vote for a member raises their unsigned score by one, and a vote
/// against them lowers it by one, except where the unsigned score wraps
/// around: a vote for a member whose score reads as the largest `usize`
/// (a score of -1) gives 0, and a vote against a member whose score reads
/// as 0 gives the largest `usize`.
pub proof fn lemma_votes_move_score_by_one(c1: SocialCredit, c2: SocialCredit, c3: SocialCredit)
    requires
        i64::MIN <= c1.positive_credit + c1.traded_credit <= i64::MAX,
        i64::MIN <= c1.score() <= i64::MAX,
        i64::MIN <= c2.positive_credit + c2.traded_credit <= i64::MAX,
        i64::MIN <= c2.score() <= i64::MAX,
        i64::MIN <= c3.positive_credit + c3.traded_credit <= i64::MAX,
        i64::MIN <= c3.score() <= i64::MAX,
        c2.username == c1.username,
        c2.positive_credit == c1.positive_credit + 1,
        c2.negative_credit == c1.negative_credit,
        c2.traded_credit == c1.traded_credit,
        c3.username == c1.username,
        c3.positive_credit == c1.positive_credit,
        c3.negative_credit == c1.negative_credit + 1,
        c3.traded_credit == c1.traded_credit,
    ensures
        (c1.score() as usize) < usize::MAX ==> (c2.score() as usize) as int == (c1.score()
            as usize) + 1,
        (c1.score() as usize) > 0 ==> (c3.score() as usize) as int == (c1.score() as usize) - 1,
{
    let a = c1.score() as i64;
    let up = c2.score() as i64;
    let down = c3.score() as i64;
    lemma_unsigned_step_up(a, up);
    lemma_unsigned_step_down(a, down);
}

} // verus!
