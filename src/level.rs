use vstd::prelude::*;

verus! {

/// How severe a log event is. `Error` is the most severe, `Trace` the least.
#[derive(Clone, Copy, Debug, PartialEq, Eq, Structural)]
pub enum Level {
    Error,
    Warn,
    Info,
    Debug,
    Trace,
}

/// The least severe level that a sink admits; `Off` admits nothing.
#[derive(Clone, Copy, Debug, PartialEq, Eq, Structural)]
pub enum LevelFilter {
    Off,
    Error,
    Warn,
    Info,
    Debug,
    Trace,
}

impl Level {
    /// Position in the order of severity: 1 for `Error` up to 5 for `Trace`.
    pub open spec fn rank(self) -> nat {
        match self {
            Level::Error => 1,
            Level::Warn => 2,
            Level::Info => 3,
            Level::Debug => 4,
            Level::Trace => 5,
        }
    }

    /// The upper-case name of the level.
    pub open spec fn spec_label(self) -> Seq<char> {
        match self {
            Level::Error => seq!['E', 'R', 'R', 'O', 'R'],
            Level::Warn => seq!['W', 'A', 'R', 'N'],
            Level::Info => seq!['I', 'N', 'F', 'O'],
            Level::Debug => seq!['D', 'E', 'B', 'U', 'G'],
            Level::Trace => seq!['T', 'R', 'A', 'C', 'E'],
        }
    }

    pub fn rank_of(&self) -> (r: u8)
        ensures
            r as nat == self.rank(),
    {
        match self {
            Level::Error => 1,
            Level::Warn => 2,
            Level::Info => 3,
            Level::Debug => 4,
            Level::Trace => 5,
        }
    }

    /// The upper-case name of the level.
    pub fn label(&self) -> (r: String)
        ensures
            r@ == self.spec_label(),
    {
        let r = match self {
            Level::Error => String::from_str("ERROR"),
            Level::Warn => String::from_str("WARN"),
            Level::Info => String::from_str("INFO"),
            Level::Debug => String::from_str("DEBUG"),
            Level::Trace => String::from_str("TRACE"),
        };
        proof {
            reveal_strlit("ERROR");
            reveal_strlit("WARN");
            reveal_strlit("INFO");
            reveal_strlit("DEBUG");
            reveal_strlit("TRACE");
        }
        r
    }
}

impl LevelFilter {
    /// Position in the order of verbosity: 0 for `Off` up to 5 for `Trace`.
    pub open spec fn rank(self) -> nat {
        match self {
            LevelFilter::Off => 0,
            LevelFilter::Error => 1,
            LevelFilter::Warn => 2,
            LevelFilter::Info => 3,
            LevelFilter::Debug => 4,
            LevelFilter::Trace => 5,
        }
    }

    /// An event at `level` passes this filter when it is at least as severe.
    pub open spec fn admits(self, level: Level) -> bool {
        level.rank() <= self.rank()
    }

    pub fn rank_of(&self) -> (r: u8)
        ensures
            r as nat == self.rank(),
    {
        match self {
            LevelFilter::Off => 0,
            LevelFilter::Error => 1,
            LevelFilter::Warn => 2,
            LevelFilter::Info => 3,
            LevelFilter::Debug => 4,
            LevelFilter::Trace => 5,
        }
    }

    /// Whether an event at `level` passes this filter.
    pub fn allows(&self, level: Level) -> (r: bool)
        ensures
            r == self.admits(level),
    {
        level.rank_of() <= self.rank_of()
    }
}

} // verus!
