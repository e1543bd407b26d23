//! Errors which may arise from this crate.

use vstd::prelude::*;

verus! {

/// The errors this crate may produce.
#[derive(Debug, Clone, Copy, PartialEq, Eq, Structural)]
pub enum AnalyticsError {
    /// The given message is too large to be sent to the data plane.
    MessageTooLarge,
    /// Neither `user_id` nor `anonymous_id` is present on an event whose kind
    /// needs one of them.
    InvalidRequest,
}

impl AnalyticsError {
    /// The text that describes this error to a human reader.
    pub open spec fn spec_message(self) -> Seq<char> {
        match self {
            AnalyticsError::MessageTooLarge => "message too large"@,
            AnalyticsError::InvalidRequest => "either user_id or anonymous_id are required"@,
        }
    }

    /// Describes the error in words.
    pub fn message(&self) -> (text: String)
        ensures
            text@ == self.spec_message(),
    {
        match self {
            AnalyticsError::MessageTooLarge => "message too large".to_string(),
            AnalyticsError::InvalidRequest => {
                "either user_id or anonymous_id are required".to_string()
            },
        }
    }
}

} // verus!
