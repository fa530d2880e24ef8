//! What can go wrong with a simulator.
use vstd::prelude::*;
use vstd::string::StringExecFns;

verus! {

/// A failure of a simulator, with its account in words.
#[derive(Debug)]
pub enum SimError {
    /// The vehicle description cannot be run.
    Config(String),
    /// The integration failed.
    Integration(String),
    /// A model of the environment or the vehicle failed.
    Physics(String),
}

impl SimError {
    /// The account that came with the failure.
    pub open spec fn account(&self) -> Seq<char> {
        match self {
            SimError::Config(account) => account@,
            SimError::Integration(account) => account@,
            SimError::Physics(account) => account@,
        }
    }

    /// The failure in words: its kind, then its account.
    pub fn message(&self) -> (text: String)
        ensures
            text@ == match self {
                SimError::Config(_) => "Configuration error: "@,
                SimError::Integration(_) => "Integration error: "@,
                SimError::Physics(_) => "Physics error: "@,
            } + self.account(),
    {
        match self {
            SimError::Config(account) => String::from_str("Configuration error: ").concat(
                account.as_str(),
            ),
            SimError::Integration(account) => String::from_str("Integration error: ").concat(
                account.as_str(),
            ),
            SimError::Physics(account) => String::from_str("Physics error: ").concat(
                account.as_str(),
            ),
        }
    }
}

} // verus!
