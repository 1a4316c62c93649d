//! Why a call produced no request.

use vstd::prelude::*;

verus! {

/// Every failure is fatal to the call: no partial payload is produced.
#[derive(Debug, Clone, Copy, PartialEq, Eq, Structural)]
pub enum MappingError {
    /// The settings hold no `amplitude_api_key`.
    MissingApiKey,
    /// The page operation was handed another kind of event.
    MissingPageData,
    /// The track operation was handed another kind of event.
    MissingTrackData,
    /// The identify operation was handed another kind of event.
    MissingUserData,
    /// A track event with an empty name.
    MissingEventName,
    /// An identify event with neither a user id nor an anonymous id.
    MissingUserIds,
    /// A session id that is not a decimal `u64`, or too large once scaled.
    InvalidSessionId,
    /// A non-empty referrer that is not a URL.
    InvalidReferrer,
    /// A non-empty page URL that is not a URL.
    InvalidPageUrl,
}

pub open spec fn error_message(e: MappingError) -> Seq<char> {
    match e {
        MappingError::MissingApiKey => "Missing Amplitude API KEY"@,
        MappingError::MissingPageData => "Missing page data"@,
        MappingError::MissingTrackData => "Missing track data"@,
        MappingError::MissingUserData => "Missing user data"@,
        MappingError::MissingEventName => "Missing event name"@,
        MappingError::MissingUserIds => "user_id or anonymous_id is not set"@,
        MappingError::InvalidSessionId => "session id is not a valid unsigned integer"@,
        MappingError::InvalidReferrer => "referrer is not a valid URL"@,
        MappingError::InvalidPageUrl => "page URL is not a valid URL"@,
    }
}

impl MappingError {
    /// The description handed to the caller.
    pub fn message(&self) -> (r: String)
        ensures
            r@ == error_message(*self),
    {
        match self {
            MappingError::MissingApiKey => String::from_str("Missing Amplitude API KEY"),
            MappingError::MissingPageData => String::from_str("Missing page data"),
            MappingError::MissingTrackData => String::from_str("Missing track data"),
            MappingError::MissingUserData => String::from_str("Missing user data"),
            MappingError::MissingEventName => String::from_str("Missing event name"),
            MappingError::MissingUserIds => String::from_str("user_id or anonymous_id is not set"),
            MappingError::InvalidSessionId => String::from_str(
                "session id is not a valid unsigned integer",
            ),
            MappingError::InvalidReferrer => String::from_str("referrer is not a valid URL"),
            MappingError::InvalidPageUrl => String::from_str("page URL is not a valid URL"),
        }
    }
}

} // verus!
