//! The bot's log line format.

use vstd::prelude::*;
use vstd::string::*;

use crate::text::{nat_text, push_nat};

verus! {

/// Formats the bot's log lines; writing them out is left to the program.
pub struct Logger;

impl Logger {
    /// A log line: the Unix time in seconds, a colon and a space, then the
    /// message.
    pub fn entry(timestamp: u64, msg: &str) -> (r: String)
        ensures
            r@ == nat_text(timestamp as nat) + ": "@ + msg@,
    {
        let mut line = String::new();
        push_nat(&mut line, timestamp);
        line.append(": ");
        line.append(msg);
        assert(line@ =~= nat_text(timestamp as nat) + ": "@ + msg@);
        line
    }
}

} // verus!
