//! Errors reported to the webhook sender.

use vstd::prelude::*;

verus! {

/// Why an inbound event was rejected or could not be processed.
#[derive(Debug, Clone, Copy, PartialEq, Eq, Structural)]
pub enum Error {
    DeserializationErrorJson,
    InvalidBody,
    InvalidHeader,
    InvalidRepository,
    InvalidConfig,
    MissingSignatureHeader,
    MissingSignaturePrefix,
    InvalidSignatureHex,
    InvalidSignature,
    FailedToGetRepoConfig,
    FailedToSendMessage,
    FailedToUnwrapValue,
    InvalidRegex,
    CannotFindMessage,
    Reqwest,
    FailedToFindEmoji,
}

impl Error {
    /// Whether the error is a malformed signature header (missing prefix or bad hex),
    /// as opposed to a well-formed signature that does not match.
    pub open spec fn is_malformed_signature(self) -> bool {
        self == Error::MissingSignaturePrefix || self == Error::InvalidSignatureHex
    }

    /// The single-line text sent back with a rejection.
    pub fn message(&self) -> (r: &'static str)
        ensures
            r@ == error_text(*self),
    {
        match self {
            Error::DeserializationErrorJson => "Encountered error during json deserialization",
            Error::InvalidBody => "Invalid body",
            Error::InvalidHeader => "X-GitHub-Event header is invalid",
            Error::InvalidRepository => "Repository is missing or invalid",
            Error::InvalidConfig => "No config found",
            Error::MissingSignatureHeader => "X-Hub-Signature-256 header is missing",
            Error::MissingSignaturePrefix => "Signature prefix is missing",
            Error::InvalidSignatureHex => "Signature hex is invalid",
            Error::InvalidSignature => "Invalid Signature",
            Error::FailedToGetRepoConfig => "Unable to get repository config",
            Error::FailedToSendMessage => "Failed to send message",
            Error::FailedToUnwrapValue => "Failed to unwrap value",
            Error::InvalidRegex => "Invalid Regex",
            Error::CannotFindMessage => "Cannot find message",
            Error::Reqwest => "Failed to send http request",
            Error::FailedToFindEmoji => "Failed to find application emoji",
        }
    }
}

/// The rejection text of each error.
pub open spec fn error_text(e: Error) -> Seq<char> {
    match e {
        Error::DeserializationErrorJson => "Encountered error during json deserialization"@,
        Error::InvalidBody => "Invalid body"@,
        Error::InvalidHeader => "X-GitHub-Event header is invalid"@,
        Error::InvalidRepository => "Repository is missing or invalid"@,
        Error::InvalidConfig => "No config found"@,
        Error::MissingSignatureHeader => "X-Hub-Signature-256 header is missing"@,
        Error::MissingSignaturePrefix => "Signature prefix is missing"@,
        Error::InvalidSignatureHex => "Signature hex is invalid"@,
        Error::InvalidSignature => "Invalid Signature"@,
        Error::FailedToGetRepoConfig => "Unable to get repository config"@,
        Error::FailedToSendMessage => "Failed to send message"@,
        Error::FailedToUnwrapValue => "Failed to unwrap value"@,
        Error::InvalidRegex => "Invalid Regex"@,
        Error::CannotFindMessage => "Cannot find message"@,
        Error::Reqwest => "Failed to send http request"@,
        Error::FailedToFindEmoji => "Failed to find application emoji"@,
    }
}

} // verus!
