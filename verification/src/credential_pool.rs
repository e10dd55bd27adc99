//! Errors that the credential pool reports to the admin service.

use vstd::prelude::*;

use crate::domain_error::{ConfigError, RefreshError};

verus! {

/// An error of an administrative operation on the credential pool.
#[derive(Debug)]
pub enum AdminPoolError {
    /// No credential has this id.
    NotFound(u64),
    /// A credential with the same refresh token exists.
    DuplicateRefreshToken,
    /// A credential with the same API key exists.
    DuplicateApiKey,
    /// The refresh token has been truncated; the payload is its length.
    TruncatedRefreshToken(usize),
    /// The refresh token is empty.
    EmptyRefreshToken,
    /// The API key is empty.
    EmptyApiKey,
    /// The refresh token is missing.
    MissingRefreshToken,
    /// The API key is missing.
    MissingApiKey,
    /// Only a disabled credential can be deleted; the payload is its id.
    NotDisabled(u64),
    /// API key credentials have no token to refresh.
    ApiKeyNotRefreshable,
    /// The token refresh failed.
    Refresh(RefreshError),
    /// The upstream answered with a status other than 2xx.
    UpstreamHttp { status: u16, body: String },
    /// The upstream could not be reached.
    Network(String),
    /// The configuration could not be persisted.
    Config(ConfigError),
    /// The credential was disabled because its configuration is invalid.
    DisabledByInvalidConfig(u64),
}

} // verus!
