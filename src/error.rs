//! The library's error type.
use vstd::prelude::*;
use vstd::string::to_string_from_display_ensures;

verus! {

/// reqwest's error, carried through unread.
#[verifier::external_type_specification]
#[verifier::external_body]
pub struct ExReqwestError(reqwest::Error);

/// serde_json's error, carried through unread.
#[verifier::external_type_specification]
#[verifier::external_body]
pub struct ExJsonError(serde_json::Error);

/// url's parse error, carried through unread.
#[verifier::external_type_specification]
#[verifier::external_body]
pub struct ExUrlParseError(url::ParseError);

/// Error code with which the service reports a missing experiment or run.
pub open spec fn not_found_code() -> Seq<char> {
    "RESOURCE_DOES_NOT_EXIST"@
}

/// Everything that can go wrong talking to the service.
#[derive(Debug)]
pub enum ClientError {
    /// The service answered with an error document.
    ApiError { error_code: String, message: String },
    /// The HTTP layer failed.
    ReqwestError(reqwest::Error),
    /// A body could not be encoded or decoded.
    JsonError(serde_json::Error),
    /// The service address is not a valid URL.
    UrlParseError(url::ParseError),
    /// A background worker ended abnormally.
    TaskJoinError,
    /// Any other failure, described in words.
    Message(String),
}

impl ClientError {
    /// Whether this error says that the requested resource does not exist.
    pub open spec fn spec_is_resource_does_not_exist(&self) -> bool {
        match self {
            ClientError::ApiError { error_code, .. } => error_code@ == not_found_code(),
            _ => false,
        }
    }

    pub fn from_message<M: std::fmt::Display>(message: M) -> (r: ClientError)
        ensures
            r matches ClientError::Message(s) && to_string_from_display_ensures::<M>(&message, s),
    {
        ClientError::Message(message.to_string())
    }

    pub fn is_resource_does_not_exist(&self) -> (r: bool)
        ensures
            r == self.spec_is_resource_does_not_exist(),
    {
        match self {
            ClientError::ApiError { error_code, .. } => {
                let code = "RESOURCE_DOES_NOT_EXIST".to_string();
                proof {
                    reveal_strlit("RESOURCE_DOES_NOT_EXIST");
                }
                *error_code == code
            },
            _ => false,
        }
    }
}

impl From<reqwest::Error> for ClientError {
    fn from(e: reqwest::Error) -> (r: ClientError)
        ensures
            r == ClientError::ReqwestError(e),
    {
        ClientError::ReqwestError(e)
    }
}

impl vstd::std_specs::convert::FromSpecImpl<reqwest::Error> for ClientError {
    open spec fn obeys_from_spec() -> bool {
        true
    }

    open spec fn from_spec(e: reqwest::Error) -> ClientError {
        ClientError::ReqwestError(e)
    }
}

impl From<serde_json::Error> for ClientError {
    fn from(e: serde_json::Error) -> (r: ClientError)
        ensures
            r == ClientError::JsonError(e),
    {
        ClientError::JsonError(e)
    }
}

impl vstd::std_specs::convert::FromSpecImpl<serde_json::Error> for ClientError {
    open spec fn obeys_from_spec() -> bool {
        true
    }

    open spec fn from_spec(e: serde_json::Error) -> ClientError {
        ClientError::JsonError(e)
    }
}

impl From<url::ParseError> for ClientError {
    fn from(e: url::ParseError) -> (r: ClientError)
        ensures
            r == ClientError::UrlParseError(e),
    {
        ClientError::UrlParseError(e)
    }
}

impl vstd::std_specs::convert::FromSpecImpl<url::ParseError> for ClientError {
    open spec fn obeys_from_spec() -> bool {
        true
    }

    open spec fn from_spec(e: url::ParseError) -> ClientError {
        ClientError::UrlParseError(e)
    }
}

} // verus!
