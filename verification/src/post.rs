//! A journal entry.

use vstd::prelude::*;

verus! {

/// Seconds in one day.
pub const SECONDS_PER_DAY: i64 = 86_400;

/// One entry of the journal, as the database holds it.
#[derive(Clone, Debug)]
pub struct EchoPost {
    /// The row's key.
    pub id: i64,
    /// When the entry was written, in seconds since the epoch.
    pub created: i64,
    /// When the entry was last changed, in seconds since the epoch.
    pub edited: i64,
    /// What the entry says.
    pub text: String,
}

impl EchoPost {
    /// The day the entry was written on: whole days since the epoch, the
    /// division rounding towards zero.
    pub open spec fn day(self) -> int {
        if self.created >= 0 {
            self.created as int / SECONDS_PER_DAY as int
        } else {
            -((-(self.created as int)) / SECONDS_PER_DAY as int)
        }
    }

    /// Computes [`EchoPost::day`].
    pub fn day_created(&self) -> (day: i64)
        ensures
            day == self.day(),
    {
        self.created / SECONDS_PER_DAY
    }
}

impl Default for EchoPost {
    /// An empty entry with key zero, written at the epoch.
    fn default() -> (post: EchoPost)
        ensures
            post.id == 0,
            post.created == 0,
            post.edited == 0,
            post.text@ == Seq::<char>::empty(),
    {
        EchoPost { id: 0, created: 0, edited: 0, text: String::new() }
    }
}

} // verus!
