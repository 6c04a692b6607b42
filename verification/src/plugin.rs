use vstd::prelude::*;
use crate::level::LevelFilter;

verus! {

/// A capability attached to the shell before the event loop starts.
#[derive(Clone, Copy, PartialEq, Eq, Structural, Debug)]
pub enum Plugin {
    /// Persistent key-value store, with its default configuration.
    Store,
    /// Logging, emitting messages at `min_level` and above.
    Log { min_level: LevelFilter },
}

/// How often `p` occurs in `s`.
pub open spec fn count_of(s: Seq<Plugin>, p: Plugin) -> nat
    decreases s.len(),
{
    if s.len() == 0 {
        0
    } else {
        count_of(s.drop_last(), p) + (if s.last() == p {
            1nat
        } else {
            0nat
        })
    }
}

} // verus!
