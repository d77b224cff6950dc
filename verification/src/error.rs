use vstd::prelude::*;

verus! {

/// The failures the client reports, one variant per failure class.
#[derive(Clone, Copy, Debug, PartialEq, Eq, Structural)]
pub enum ApiError {
    /// A URL could not be parsed, or a path could not be joined onto the base.
    UrlError,
    /// The transport failed: connection, timeout, or a non-success status.
    NetworkError,
    /// A response body was not valid JSON or did not have the expected shape.
    DecodeError,
    /// A free-form release-channel string was none of the known keywords.
    InvalidChannelString,
}

} // verus!
