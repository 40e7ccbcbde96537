//! The ways in which a run can go wrong.

use vstd::prelude::*;

verus! {

/// What went wrong, by kind.
#[derive(Clone, Copy, Debug, PartialEq, Eq, Structural)]
pub enum Failure {
    /// The configuration document is missing, unreadable or malformed.
    ConfigLoadError,
    /// A numeric field of the configuration is out of its range.
    InvalidConfig,
    /// One fact could not be collected.
    DetailUnavailable,
    /// The first argument names no subcommand.
    UnknownCommand,
}

impl Failure {
    /// Whether a failure of this kind stops the run before anything is printed.
    pub open spec fn fatal(self) -> bool {
        self == Failure::ConfigLoadError || self == Failure::InvalidConfig
    }

    /// Whether a failure of this kind stops the run before anything is printed.
    pub fn is_fatal(&self) -> (b: bool)
        ensures
            b == self.fatal(),
    {
        match self {
            Failure::ConfigLoadError => true,
            Failure::InvalidConfig => true,
            Failure::DetailUnavailable => false,
            Failure::UnknownCommand => false,
        }
    }
}

} // verus!
