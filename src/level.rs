use vstd::prelude::*;

verus! {

/// The severity of a record, from the most severe to the least.
#[derive(Clone, Copy, Debug, PartialEq, Eq, Structural, Hash)]
pub enum Level {
    Error,
    Warn,
    Info,
    Debug,
    Trace,
}

/// The least severe level a logger lets through, or `Off` for none.
#[derive(Clone, Copy, Debug, PartialEq, Eq, Structural, Hash)]
pub enum LevelFilter {
    Off,
    Error,
    Warn,
    Info,
    Debug,
    Trace,
}

/// Position of a level in the order of severity: `Error` is 1, `Trace` is 5.
pub open spec fn rank(level: Level) -> nat {
    match level {
        Level::Error => 1,
        Level::Warn => 2,
        Level::Info => 3,
        Level::Debug => 4,
        Level::Trace => 5,
    }
}

/// The level a filter names, if it is not `Off`.
pub open spec fn filter_level(filter: LevelFilter) -> Option<Level> {
    match filter {
        LevelFilter::Off => None,
        LevelFilter::Error => Some(Level::Error),
        LevelFilter::Warn => Some(Level::Warn),
        LevelFilter::Info => Some(Level::Info),
        LevelFilter::Debug => Some(Level::Debug),
        LevelFilter::Trace => Some(Level::Trace),
    }
}

/// Whether a record of `level` passes `filter`: the filter is not `Off` and
/// the record is at least as severe as the filter's level.
pub open spec fn passes(filter: LevelFilter, level: Level) -> bool {
    match filter_level(filter) {
        None => false,
        Some(threshold) => rank(level) <= rank(threshold),
    }
}

impl Level {
    /// The position of this level in the order of severity.
    pub fn rank(self) -> (r: u8)
        ensures
            r as nat == rank(self),
    {
        match self {
            Level::Error => 1,
            Level::Warn => 2,
            Level::Info => 3,
            Level::Debug => 4,
            Level::Trace => 5,
        }
    }
}

impl LevelFilter {
    /// The level this filter names, or `None` for `Off`.
    pub fn to_level(self) -> (r: Option<Level>)
        ensures
            r == filter_level(self),
    {
        match self {
            LevelFilter::Off => None,
            LevelFilter::Error => Some(Level::Error),
            LevelFilter::Warn => Some(Level::Warn),
            LevelFilter::Info => Some(Level::Info),
            LevelFilter::Debug => Some(Level::Debug),
            LevelFilter::Trace => Some(Level::Trace),
        }
    }

    /// Whether a record of `level` passes this filter.
    pub fn allows(self, level: Level) -> (r: bool)
        ensures
            r == passes(self, level),
            self == LevelFilter::Off ==> !r,
    {
        match self.to_level() {
            None => false,
            Some(threshold) => level.rank() <= threshold.rank(),
        }
    }
}

} // verus!
