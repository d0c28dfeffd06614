//! The runtime's error type.
use vstd::prelude::*;

verus! {

#[verifier::external_type_specification]
#[verifier::external_body]
pub struct ExJsonError(serde_json::Error);

/// Everything the runtime can refuse or fail with.
#[derive(Debug)]
pub enum RuntimeError {
    /// The configuration, request or command line is not acceptable.
    Config(String),
    /// A provider answered with something the runtime does not accept.
    Provider(String),
    /// The provider requires a seed but the request omitted one.
    MissingSeed,
    /// No adapter for the configured provider is available.
    UnsupportedProvider(String),
    /// The environment variable that holds the provider credential is not set.
    MissingAuthEnv(String),
    /// JSON serialization failed.
    Json(serde_json::Error),
}

/// What an error says, with its messages as character sequences.
pub enum ErrorView {
    Config(Seq<char>),
    Provider(Seq<char>),
    MissingSeed,
    UnsupportedProvider(Seq<char>),
    MissingAuthEnv(Seq<char>),
    Json,
}

impl View for RuntimeError {
    type V = ErrorView;

    open spec fn view(&self) -> ErrorView {
        match self {
            RuntimeError::Config(m) => ErrorView::Config(m@),
            RuntimeError::Provider(m) => ErrorView::Provider(m@),
            RuntimeError::MissingSeed => ErrorView::MissingSeed,
            RuntimeError::UnsupportedProvider(m) => ErrorView::UnsupportedProvider(m@),
            RuntimeError::MissingAuthEnv(m) => ErrorView::MissingAuthEnv(m@),
            RuntimeError::Json(_) => ErrorView::Json,
        }
    }
}

/// The view of a fallible outcome: the success value itself, or the error's view.
pub open spec fn outcome<T>(r: Result<T, RuntimeError>) -> Result<T, ErrorView> {
    match r {
        Ok(v) => Ok(v),
        Err(e) => Err(e@),
    }
}

/// A configuration error carrying a fixed message.
pub fn config_error(message: &str) -> (e: RuntimeError)
    ensures
        e@ == ErrorView::Config(message@),
{
    RuntimeError::Config(message.to_owned())
}

} // verus!
