use vstd::prelude::*;

verus! {

/// Severity of a single log message, most severe first.
#[derive(Clone, Copy, PartialEq, Eq, Structural, Debug)]
pub enum Level {
    Error,
    Warn,
    Info,
    Debug,
    Trace,
}

/// Threshold for log emission: `Off` suppresses everything; any other
/// variant admits messages at its own severity and above.
#[derive(Clone, Copy, PartialEq, Eq, Structural, Debug)]
pub enum LevelFilter {
    Off,
    Error,
    Warn,
    Info,
    Debug,
    Trace,
}

/// Rank of a message severity; a smaller rank is more severe.
pub open spec fn level_rank(l: Level) -> int {
    match l {
        Level::Error => 1,
        Level::Warn => 2,
        Level::Info => 3,
        Level::Debug => 4,
        Level::Trace => 5,
    }
}

/// Rank of a threshold; messages with a rank up to it are emitted.
pub open spec fn filter_rank(f: LevelFilter) -> int {
    match f {
        LevelFilter::Off => 0,
        LevelFilter::Error => 1,
        LevelFilter::Warn => 2,
        LevelFilter::Info => 3,
        LevelFilter::Debug => 4,
        LevelFilter::Trace => 5,
    }
}

/// Whether a message at severity `l` is emitted under threshold `f`.
pub open spec fn passes(f: LevelFilter, l: Level) -> bool {
    level_rank(l) <= filter_rank(f)
}

impl LevelFilter {
    /// Whether a message at `level` is emitted under this threshold.
    pub fn allows(&self, level: Level) -> (r: bool)
        ensures
            r == passes(*self, level),
    {
        let level_rank: u8 = match level {
            Level::Error => 1,
            Level::Warn => 2,
            Level::Info => 3,
            Level::Debug => 4,
            Level::Trace => 5,
        };
        let threshold_rank: u8 = match *self {
            LevelFilter::Off => 0,
            LevelFilter::Error => 1,
            LevelFilter::Warn => 2,
            LevelFilter::Info => 3,
            LevelFilter::Debug => 4,
            LevelFilter::Trace => 5,
        };
        level_rank <= threshold_rank
    }
}

/// Under the informational threshold exactly the error, warning and
/// informational messages are emitted; debug and trace messages are
/// suppressed.
pub proof fn lemma_info_threshold(l: Level)
    ensures
        passes(LevelFilter::Info, l) <==> (l is Error || l is Warn || l is Info),
{
}

} // verus!
