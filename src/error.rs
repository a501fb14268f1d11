use vstd::prelude::*;

verus! {

/// What can go wrong while talking to the service or reading its config.
#[derive(Debug, Clone, Copy, PartialEq, Eq, Structural)]
pub enum SSEError {
    /// The base data directory is not set in the environment.
    NoProgramData,
    /// The config file could not be read.
    IoError,
    /// The config file is not JSON.
    JSonError,
    /// The config holds no `address` member.
    NoAddress,
    /// A request failed: with the HTTP status the service answered, or
    /// `None` when no answer came.
    HttpError(Option<u16>),
    /// The clock gave a time before the epoch.
    TimeError,
    /// The config directory could not be watched.
    NotifyError,
    /// The config's `address` member is not a string.
    NoStringAddress,
    /// The service answered something unexpected.
    UnexpectedSSEResponse,
    /// Any other failure.
    Unknown,
}

/// A result whose error is an [`SSEError`].
pub type SSEResult<T> = Result<T, SSEError>;

} // verus!
