//! What can go wrong, and how each failure is worded for the user.

use vstd::prelude::*;
use vstd::string::*;

verus! {

/// The reasons for which a query ends without a result. None of them is
/// fatal, and none of them changes the cache.
#[derive(Debug, Clone, Copy, PartialEq, Eq, Structural)]
pub enum Failure {
    /// The rate service rejected the credential.
    Auth,
    /// The rate service could not be reached, answered with another status
    /// than success, or sent a body that is no table of rates.
    Fetch,
    /// The table has no rate for the target currency.
    Lookup,
}

impl Failure {
    /// The words in which the failure is reported.
    pub open spec fn text(self) -> Seq<char> {
        match self {
            Failure::Auth => "Need to grab a new token."@,
            Failure::Fetch => "There is no data on currencies. Refresh the data."@,
            Failure::Lookup => "There is no such currency."@,
        }
    }

    /// The message that reports the failure to the user.
    pub fn message(&self) -> (message: String)
        ensures
            message@ == self.text(),
    {
        match self {
            Failure::Auth => String::from_str("Need to grab a new token."),
            Failure::Fetch => String::from_str("There is no data on currencies. Refresh the data."),
            Failure::Lookup => String::from_str("There is no such currency."),
        }
    }
}

} // verus!
