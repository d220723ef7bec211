//! Severities of the logging front end and the numeric levels of the bunyan
//! record format.

use vstd::prelude::*;
use vstd::std_specs::convert::FromSpecImpl;

verus! {

/// How important the application considers a log event.
#[derive(Clone, Copy, Debug, PartialEq, Eq, Hash, Structural)]
pub enum Severity {
    Critical,
    Error,
    Warning,
    Info,
    Debug,
    Trace,
}

/// A level of the bunyan record format.
#[derive(Clone, Copy, Debug, PartialEq, Eq, Hash, Structural)]
pub enum BunyanLevel {
    Fatal,
    Error,
    Warn,
    Info,
    Debug,
    Trace,
}

/// The numbers that a bunyan record may carry under `level`.
pub open spec fn is_level_code(code: int) -> bool {
    code == 10 || code == 20 || code == 30 || code == 40 || code == 50 || code == 60
}

impl BunyanLevel {
    /// The number that stands for this level in a record.
    pub open spec fn spec_code(self) -> i8 {
        match self {
            BunyanLevel::Fatal => 60,
            BunyanLevel::Error => 50,
            BunyanLevel::Warn => 40,
            BunyanLevel::Info => 30,
            BunyanLevel::Debug => 20,
            BunyanLevel::Trace => 10,
        }
    }

    /// The number that stands for this level in a record.
    #[verifier::when_used_as_spec(spec_code)]
    pub fn code(self) -> (code: i8)
        ensures
            code == self.spec_code(),
    {
        match self {
            BunyanLevel::Fatal => 60,
            BunyanLevel::Error => 50,
            BunyanLevel::Warn => 40,
            BunyanLevel::Info => 30,
            BunyanLevel::Debug => 20,
            BunyanLevel::Trace => 10,
        }
    }
}

/// The bunyan level that each severity is reported as.
pub open spec fn level_of(severity: Severity) -> BunyanLevel {
    match severity {
        Severity::Critical => BunyanLevel::Fatal,
        Severity::Error => BunyanLevel::Error,
        Severity::Warning => BunyanLevel::Warn,
        Severity::Info => BunyanLevel::Info,
        Severity::Debug => BunyanLevel::Debug,
        Severity::Trace => BunyanLevel::Trace,
    }
}

impl FromSpecImpl<Severity> for BunyanLevel {
    open spec fn obeys_from_spec() -> bool {
        true
    }

    open spec fn from_spec(severity: Severity) -> Self {
        level_of(severity)
    }
}

impl From<Severity> for BunyanLevel {
    /// The bunyan level of a severity. The match names every severity, so a
    /// severity added later has to be given a level before this compiles.
    fn from(severity: Severity) -> (level: Self) {
        match severity {
            Severity::Critical => BunyanLevel::Fatal,
            Severity::Error => BunyanLevel::Error,
            Severity::Warning => BunyanLevel::Warn,
            Severity::Info => BunyanLevel::Info,
            Severity::Debug => BunyanLevel::Debug,
            Severity::Trace => BunyanLevel::Trace,
        }
    }
}

/// The number that a record of the given severity carries under `level`.
pub open spec fn level_code(severity: Severity) -> int {
    level_of(severity).spec_code() as int
}

/// Maps a severity to the number that a record carries under `level`.
pub fn map_level(severity: Severity) -> (code: i8)
    ensures
        code == level_code(severity),
{
    BunyanLevel::from(severity).code()
}

/// Every severity is mapped to one of the six numbers of the format.
pub proof fn lemma_level_code_in_format(severity: Severity)
    ensures
        is_level_code(level_code(severity)),
{
}

/// No two severities share a number.
pub proof fn lemma_level_code_injective(first: Severity, second: Severity)
    requires
        level_code(first) == level_code(second),
    ensures
        first == second,
{
}

/// Each of the six numbers of the format is the number of some severity, so
/// that together with the two laws above the mapping is a bijection between
/// the severities and the numbers.
pub proof fn lemma_level_code_onto(code: int)
    requires
        is_level_code(code),
    ensures
        exists|severity: Severity| level_code(severity) == code,
{
    if code == 10 {
        assert(level_code(Severity::Trace) == code);
    } else if code == 20 {
        assert(level_code(Severity::Debug) == code);
    } else if code == 30 {
        assert(level_code(Severity::Info) == code);
    } else if code == 40 {
        assert(level_code(Severity::Warning) == code);
    } else if code == 50 {
        assert(level_code(Severity::Error) == code);
    } else {
        assert(level_code(Severity::Critical) == code);
    }
}

} // verus!
