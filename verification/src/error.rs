//! The errors that the analyzer and its Bungie API client report.
use vstd::prelude::*;

verus! {

/// An error of the HTTP client.
#[verifier::external_type_specification]
#[verifier::external_body]
pub struct ExReqwestError(reqwest::Error);

/// An error of the JSON reader.
#[verifier::external_type_specification]
#[verifier::external_body]
pub struct ExSerdeJsonError(serde_json::Error);

/// An input/output error.
#[verifier::external_type_specification]
#[verifier::external_body]
pub struct ExIoError(std::io::Error);

/// An error in reading a URL.
#[verifier::external_type_specification]
#[verifier::external_body]
pub struct ExUrlParseError(url::ParseError);

/// Everything that can go wrong in searching players, fetching carnage reports and analyzing them.
#[derive(Debug)]
pub enum BungieError {
    /// The HTTP request failed.
    HttpError(reqwest::Error),
    /// The response was not JSON.
    JsonError(serde_json::Error),
    /// The Bungie API answered with an error.
    ApiError {
        /// The message that the API gave.
        message: String,
        /// The API's error code.
        error_code: i32,
    },
    /// No participant of a report has the membership ID that was asked for.
    UserNotFound {
        /// The membership ID that was looked for.
        bungie_id: String,
    },
    /// There is no carnage report for an activity.
    PgcrNotFound {
        /// The activity instance that was looked for.
        activity_id: String,
    },
    /// An activity type that is not known.
    InvalidActivityType {
        /// The text that was given as an activity type.
        activity_type: String,
    },
    /// The API refused the credentials.
    AuthenticationError {
        /// What the API said.
        message: String,
    },
    /// The API's rate limit is used up.
    RateLimitExceeded {
        /// Seconds to wait before the next request.
        retry_after: u64,
    },
    /// The client is not configured as it must be.
    ConfigError {
        /// What is wrong with the configuration.
        message: String,
    },
    /// A response does not have the shape that was expected.
    ValidationError {
        /// The field that is missing or malformed.
        field: String,
        /// What is wrong with it.
        message: String,
    },
    /// An input/output error.
    IoError(std::io::Error),
    /// A URL could not be read.
    UrlError(url::ParseError),
}

} // verus!
