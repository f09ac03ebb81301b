//! Points in time as the API reports them.

use vstd::prelude::*;

verus! {

/// A point in time, measured in seconds since the Unix epoch.
#[derive(Debug, Clone, Copy, PartialEq, Eq, PartialOrd, Ord, Hash, Structural)]
pub struct Timestamp {
    seconds: i64,
}

impl View for Timestamp {
    type V = int;

    closed spec fn view(&self) -> int {
        self.seconds as int
    }
}

impl Default for Timestamp {
    /// The Unix epoch.
    fn default() -> (r: Self)
        ensures
            r@ == 0,
    {
        Timestamp { seconds: 0 }
    }
}

impl Timestamp {
    /// The point in time `seconds` seconds after the Unix epoch.
    pub fn from_unix(seconds: i64) -> (r: Self)
        ensures
            r@ == seconds,
    {
        Timestamp { seconds }
    }

    /// The seconds since the Unix epoch.
    pub fn as_unix(&self) -> (seconds: i64)
        ensures
            seconds == self@,
    {
        self.seconds
    }
}

} // verus!
