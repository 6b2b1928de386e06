//! Why endpoints could not be had.

use vstd::prelude::*;

verus! {

#[derive(Debug)]
pub enum HealthError {
    GenericError(String),
    /// A document that is not the JSON it should be.
    Json(String),
    /// A BMC that could not be queried.
    Redfish(String),
}

impl HealthError {
    /// The error is a generic one and says this.
    pub open spec fn says(self, text: Seq<char>) -> bool {
        self matches HealthError::GenericError(message) && message@ == text
    }
}

/// A generic error whose message is a text and what went wrong.
pub(crate) fn generic(text: &str, error: &str) -> (r: HealthError)
    ensures
        r.says(text@ + error@),
{
    let mut message: String = text.to_owned();
    message.append(error);
    HealthError::GenericError(message)
}

} // verus!
