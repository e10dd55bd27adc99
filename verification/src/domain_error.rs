//! Domain errors that the admin service carries inside its own errors.

use vstd::prelude::*;

verus! {

/// Failure of a token refresh against the upstream identity service.
#[derive(Debug)]
pub enum RefreshError {
    /// The upstream rejected the refresh token (`invalid_grant`).
    TokenInvalid,
}

impl RefreshError {
    /// The human-readable message of this error.
    pub open spec fn message(&self) -> Seq<char> {
        match self {
            RefreshError::TokenInvalid => "refreshToken 无效或已过期 (invalid_grant)"@,
        }
    }

    /// Renders the message of this error.
    pub fn to_string(&self) -> (s: String)
        ensures
            s@ == self.message(),
    {
        match self {
            RefreshError::TokenInvalid => String::from_str("refreshToken 无效或已过期 (invalid_grant)"),
        }
    }
}

/// Failure to validate or persist the configuration.
#[derive(Debug)]
pub enum ConfigError {
    /// A field of the configuration is invalid; the payload says which and why.
    Validation(String),
}

impl ConfigError {
    /// The human-readable message of this error.
    pub open spec fn message(&self) -> Seq<char> {
        match self {
            ConfigError::Validation(msg) => "配置校验失败: "@ + msg@,
        }
    }

    /// Renders the message of this error.
    pub fn to_string(&self) -> (s: String)
        ensures
            s@ == self.message(),
    {
        match self {
            ConfigError::Validation(msg) => {
                let mut s = String::from_str("配置校验失败: ");
                s.append(msg.as_str());
                s
            },
        }
    }
}

} // verus!
