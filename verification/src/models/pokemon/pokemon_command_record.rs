//! When a member last caught a Pokémon, and how long they must wait.

use vstd::prelude::*;

verus! {

/// How long a member waits between two catches: three hours.
pub const SECS_BETWEEN_USES: i64 = 3600 * 3;

/// A member's use of the catch command: when they last caught a Pokémon
/// (Unix seconds) and how many times they have.
pub struct PokemonCommandRecord {
    pub discord_id: String,
    pub last_used_at: i64,
    pub times_used: i64,
}

/// How far past the end of the waiting time `timestamp` lies, for a catch
/// made at `last_used_at`; negative while the member still has to wait.
pub open spec fn time_past_wait(last_used_at: int, timestamp: int) -> int {
    (timestamp - SECS_BETWEEN_USES) - last_used_at
}

impl PokemonCommandRecord {
    /// Whether the member may catch again at `timestamp`; if not, how many
    /// seconds they still have to wait.
    pub fn enough_time_since_timestamp(&self, timestamp: i64) -> (r: Result<(), i64>)
        requires
            i64::MIN <= timestamp - SECS_BETWEEN_USES,
            i64::MIN < time_past_wait(self.last_used_at as int, timestamp as int) <= i64::MAX,
        ensures
            r is Ok <==> time_past_wait(self.last_used_at as int, timestamp as int) >= 0,
            r matches Err(left) ==> left == -time_past_wait(
                self.last_used_at as int,
                timestamp as int,
            ),
    {
        let time_remaining = (timestamp - SECS_BETWEEN_USES) - self.last_used_at;
        if time_remaining < 0 {
            return Err(-time_remaining);
        }
        Ok(())
    }
}

/// Waiting exactly the time that a refusal names is enough, waiting any
/// less is not, and once the wait is over it stays over.
pub proof fn lemma_wait_is_exact(last_used_at: int, timestamp: int, later: int)
    requires
        time_past_wait(last_used_at, timestamp) < 0,
    ensures
        time_past_wait(
            last_used_at,
            timestamp - time_past_wait(last_used_at, timestamp),
        ) == 0,
        later < timestamp - time_past_wait(last_used_at, timestamp) ==> time_past_wait(
            last_used_at,
            later,
        ) < 0,
        later >= timestamp - time_past_wait(last_used_at, timestamp) ==> time_past_wait(
            last_used_at,
            later,
        ) >= 0,
{
}

} // verus!
