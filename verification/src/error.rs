//! Why an operation on a record was refused.

use vstd::prelude::*;
use vstd::string::StringExecFns;

verus! {

/// The ways in which fitting or removing an upgrade can fail.
#[derive(Clone, Copy, Debug, PartialEq, Eq, Structural)]
pub enum UpgradeError {
    /// The record already holds as many upgrades as it may.
    CapacityExceeded,
    /// The record holds no upgrade of the name asked for.
    NotFound,
}

impl UpgradeError {
    /// The text shown to a client for each kind of failure.
    pub open spec fn message_text(self) -> Seq<char> {
        match self {
            UpgradeError::CapacityExceeded => "Maximum upgrades reached"@,
            UpgradeError::NotFound => "Upgrade not found"@,
        }
    }

    /// Renders the failure as text for a client.
    pub fn message(&self) -> (text: String)
        ensures
            text@ == self.message_text(),
    {
        match self {
            UpgradeError::CapacityExceeded => String::from_str("Maximum upgrades reached"),
            UpgradeError::NotFound => String::from_str("Upgrade not found"),
        }
    }
}

} // verus!
