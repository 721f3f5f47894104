//! The lifecycle handler: what the bot reports when the runtime tells it
//! that it connected or reconnected.

use vstd::prelude::*;
use vstd::string::StringExecFns;

verus! {

/// The handler of the lifecycle notifications. It holds no state: each
/// notification gives one line for the log and returns at once.
#[derive(Clone, Copy, Debug, PartialEq, Eq, Structural)]
pub struct Handler;

impl Handler {
    /// The line for a bot that connected under the name `user_name`.
    pub fn ready(&self, user_name: &str) -> (line: String)
        ensures
            line@ == "Connected as "@ + user_name@,
    {
        String::from_str("Connected as ").concat(user_name)
    }

    /// The line for a bot that reconnected.
    pub fn resume(&self) -> (line: String)
        ensures
            line@ == "Resumed"@,
    {
        String::from_str("Resumed")
    }
}

} // verus!
