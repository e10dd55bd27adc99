//! Errors of the admin service: their messages, HTTP status codes, stable
//! error types and the structured mapping from credential pool errors.

use vstd::prelude::*;

use crate::credential_pool::AdminPoolError;
use crate::decimal::{decimal, push_decimal};
use crate::domain_error::{ConfigError, RefreshError};
use crate::dto::AdminErrorResponse;
use crate::http_status::{status_of_code, to_status_code, BAD_GATEWAY, BAD_REQUEST, INTERNAL_SERVER_ERROR, NOT_FOUND};

verus! {

/// Error of the admin service.
///
/// Each variant has one meaning. Credential pool errors map onto these
/// variants one to one, keeping their payloads, and the HTTP response tells
/// the variants apart by a stable `error_type`.
#[derive(Debug)]
pub enum AdminServiceError {
    /// No credential has this id.
    NotFound { id: u64 },
    /// The upstream service failed (network or other failure given as text).
    UpstreamError(String),
    /// The token refresh failed; the structured cause is kept.
    RefreshError(RefreshError),
    /// The upstream answered with a status other than 2xx.
    UpstreamHttp { status: u16, body: String },
    /// The configuration could not be persisted; the structured cause is kept.
    ConfigError(ConfigError),
    /// The credential was disabled because its configuration is invalid.
    DisabledByInvalidConfig(u64),
    /// A credential with the same refresh token exists.
    DuplicateRefreshToken,
    /// A credential with the same API key exists.
    DuplicateApiKey,
    /// The refresh token has been truncated (probably on purpose by the IDE).
    TruncatedRefreshToken(usize),
    /// The refresh token is empty.
    EmptyRefreshToken,
    /// The refresh token is missing.
    MissingRefreshToken,
    /// The API key is empty.
    EmptyApiKey,
    /// The API key is missing.
    MissingApiKey,
    /// Only a disabled credential can be deleted.
    NotDisabled(u64),
    /// API key credentials have no token to refresh.
    ApiKeyNotRefreshable,
    /// A request parameter is invalid (not a problem of the credential itself).
    InvalidRequest(String),
}

/// The variant of an [`AdminServiceError`], without its payload.
#[derive(Debug, Clone, Copy, PartialEq, Eq, Structural)]
pub enum AdminErrorKind {
    NotFound,
    UpstreamError,
    RefreshError,
    UpstreamHttp,
    ConfigError,
    DisabledByInvalidConfig,
    DuplicateRefreshToken,
    DuplicateApiKey,
    TruncatedRefreshToken,
    EmptyRefreshToken,
    MissingRefreshToken,
    EmptyApiKey,
    MissingApiKey,
    NotDisabled,
    ApiKeyNotRefreshable,
    InvalidRequest,
}

impl AdminErrorKind {
    /// The stable, machine-readable error type that the HTTP response carries.
    pub open spec fn error_type(self) -> Seq<char> {
        match self {
            AdminErrorKind::NotFound => "not_found"@,
            AdminErrorKind::UpstreamError => "upstream_error"@,
            AdminErrorKind::RefreshError => "refresh_error"@,
            AdminErrorKind::UpstreamHttp => "upstream_http_error"@,
            AdminErrorKind::ConfigError => "config_error"@,
            AdminErrorKind::DisabledByInvalidConfig => "disabled_by_invalid_config"@,
            AdminErrorKind::DuplicateRefreshToken => "duplicate_refresh_token"@,
            AdminErrorKind::DuplicateApiKey => "duplicate_api_key"@,
            AdminErrorKind::TruncatedRefreshToken => "truncated_refresh_token"@,
            AdminErrorKind::EmptyRefreshToken => "empty_refresh_token"@,
            AdminErrorKind::MissingRefreshToken => "missing_refresh_token"@,
            AdminErrorKind::EmptyApiKey => "empty_api_key"@,
            AdminErrorKind::MissingApiKey => "missing_api_key"@,
            AdminErrorKind::NotDisabled => "not_disabled"@,
            AdminErrorKind::ApiKeyNotRefreshable => "api_key_not_refreshable"@,
            AdminErrorKind::InvalidRequest => "invalid_request"@,
        }
    }
}

impl AdminServiceError {
    /// The variant of this error.
    pub open spec fn kind(&self) -> AdminErrorKind {
        match self {
            AdminServiceError::NotFound { .. } => AdminErrorKind::NotFound,
            AdminServiceError::UpstreamError(_) => AdminErrorKind::UpstreamError,
            AdminServiceError::RefreshError(_) => AdminErrorKind::RefreshError,
            AdminServiceError::UpstreamHttp { .. } => AdminErrorKind::UpstreamHttp,
            AdminServiceError::ConfigError(_) => AdminErrorKind::ConfigError,
            AdminServiceError::DisabledByInvalidConfig(_) => AdminErrorKind::DisabledByInvalidConfig,
            AdminServiceError::DuplicateRefreshToken => AdminErrorKind::DuplicateRefreshToken,
            AdminServiceError::DuplicateApiKey => AdminErrorKind::DuplicateApiKey,
            AdminServiceError::TruncatedRefreshToken(_) => AdminErrorKind::TruncatedRefreshToken,
            AdminServiceError::EmptyRefreshToken => AdminErrorKind::EmptyRefreshToken,
            AdminServiceError::MissingRefreshToken => AdminErrorKind::MissingRefreshToken,
            AdminServiceError::EmptyApiKey => AdminErrorKind::EmptyApiKey,
            AdminServiceError::MissingApiKey => AdminErrorKind::MissingApiKey,
            AdminServiceError::NotDisabled(_) => AdminErrorKind::NotDisabled,
            AdminServiceError::ApiKeyNotRefreshable => AdminErrorKind::ApiKeyNotRefreshable,
            AdminServiceError::InvalidRequest(_) => AdminErrorKind::InvalidRequest,
        }
    }

    /// The HTTP status code of this error: 404 for a missing credential, 502
    /// when the upstream failed, 500 when the configuration is at fault, and
    /// 400 for every error in the request or the credential it carries.
    pub open spec fn http_status(&self) -> u16 {
        match self {
            AdminServiceError::NotFound { .. } => NOT_FOUND,
            AdminServiceError::UpstreamError(_)
            | AdminServiceError::RefreshError(_)
            | AdminServiceError::UpstreamHttp { .. } => BAD_GATEWAY,
            AdminServiceError::ConfigError(_)
            | AdminServiceError::DisabledByInvalidConfig(_) => INTERNAL_SERVER_ERROR,
            AdminServiceError::DuplicateRefreshToken
            | AdminServiceError::DuplicateApiKey
            | AdminServiceError::TruncatedRefreshToken(_)
            | AdminServiceError::EmptyRefreshToken
            | AdminServiceError::MissingRefreshToken
            | AdminServiceError::EmptyApiKey
            | AdminServiceError::MissingApiKey
            | AdminServiceError::NotDisabled(_)
            | AdminServiceError::ApiKeyNotRefreshable
            | AdminServiceError::InvalidRequest(_) => BAD_REQUEST,
        }
    }

    /// The human-readable message of this error.
    pub open spec fn message(&self) -> Seq<char> {
        match self {
            AdminServiceError::NotFound { id } => "凭据不存在: "@ + decimal(*id as nat),
            AdminServiceError::UpstreamError(msg) => "上游服务错误: "@ + msg@,
            AdminServiceError::RefreshError(e) => "Token 刷新失败: "@ + e.message(),
            AdminServiceError::UpstreamHttp { status, body } =>
                "上游 HTTP "@ + decimal(*status as nat) + ": "@ + body@,
            AdminServiceError::ConfigError(e) => "配置持久化失败: "@ + e.message(),
            AdminServiceError::DisabledByInvalidConfig(id) =>
                "凭据 #"@ + decimal(*id as nat) + " 因配置无效被禁用，请修正配置后重启服务"@,
            AdminServiceError::DuplicateRefreshToken => "凭据已存在（refreshToken 重复）"@,
            AdminServiceError::DuplicateApiKey => "凭据已存在（kiroApiKey 重复）"@,
            AdminServiceError::TruncatedRefreshToken(len) =>
                "refreshToken 已被截断（长度: "@ + decimal(*len as nat)
                    + " 字符）。这通常是 Kiro IDE 为了防止凭证被第三方工具使用而故意截断的。"@,
            AdminServiceError::EmptyRefreshToken => "refreshToken 为空"@,
            AdminServiceError::MissingRefreshToken => "缺少 refreshToken"@,
            AdminServiceError::EmptyApiKey => "kiroApiKey 为空"@,
            AdminServiceError::MissingApiKey => "缺少 kiroApiKey"@,
            AdminServiceError::NotDisabled(id) =>
                "只能删除已禁用的凭据（请先禁用凭据 #"@ + decimal(*id as nat) + "）"@,
            AdminServiceError::ApiKeyNotRefreshable => "API Key 凭据不支持刷新 Token"@,
            AdminServiceError::InvalidRequest(msg) => "请求无效: "@ + msg@,
        }
    }

    /// The admin service error that a credential pool error becomes: the
    /// variant of the same meaning, with the payload unchanged.
    pub open spec fn from_pool_error(e: AdminPoolError) -> AdminServiceError {
        match e {
            AdminPoolError::NotFound(id) => AdminServiceError::NotFound { id },
            AdminPoolError::DuplicateRefreshToken => AdminServiceError::DuplicateRefreshToken,
            AdminPoolError::DuplicateApiKey => AdminServiceError::DuplicateApiKey,
            AdminPoolError::TruncatedRefreshToken(len) => AdminServiceError::TruncatedRefreshToken(len),
            AdminPoolError::EmptyRefreshToken => AdminServiceError::EmptyRefreshToken,
            AdminPoolError::EmptyApiKey => AdminServiceError::EmptyApiKey,
            AdminPoolError::MissingRefreshToken => AdminServiceError::MissingRefreshToken,
            AdminPoolError::MissingApiKey => AdminServiceError::MissingApiKey,
            AdminPoolError::NotDisabled(id) => AdminServiceError::NotDisabled(id),
            AdminPoolError::ApiKeyNotRefreshable => AdminServiceError::ApiKeyNotRefreshable,
            AdminPoolError::Refresh(e) => AdminServiceError::RefreshError(e),
            AdminPoolError::UpstreamHttp { status, body } => AdminServiceError::UpstreamHttp { status, body },
            AdminPoolError::Network(e) => AdminServiceError::UpstreamError(e),
            AdminPoolError::Config(e) => AdminServiceError::ConfigError(e),
            AdminPoolError::DisabledByInvalidConfig(id) => AdminServiceError::DisabledByInvalidConfig(id),
        }
    }

    /// The HTTP status code of this error, as a number.
    pub fn status_u16(&self) -> (code: u16)
        ensures
            code == self.http_status(),
    {
        match self {
            AdminServiceError::NotFound { .. } => NOT_FOUND,
            AdminServiceError::UpstreamError(_)
            | AdminServiceError::RefreshError(_)
            | AdminServiceError::UpstreamHttp { .. } => BAD_GATEWAY,
            AdminServiceError::ConfigError(_)
            | AdminServiceError::DisabledByInvalidConfig(_) => INTERNAL_SERVER_ERROR,
            AdminServiceError::DuplicateRefreshToken
            | AdminServiceError::DuplicateApiKey
            | AdminServiceError::TruncatedRefreshToken(_)
            | AdminServiceError::EmptyRefreshToken
            | AdminServiceError::MissingRefreshToken
            | AdminServiceError::EmptyApiKey
            | AdminServiceError::MissingApiKey
            | AdminServiceError::NotDisabled(_)
            | AdminServiceError::ApiKeyNotRefreshable
            | AdminServiceError::InvalidRequest(_) => BAD_REQUEST,
        }
    }

    /// The HTTP status code of this error, as the HTTP stack's status type:
    /// the status built from [`Self::http_status`].
    pub fn status_code(&self) -> (r: axum::http::StatusCode)
        ensures
            r == status_of_code(self.http_status()),
            forall|c: u16| 100 <= c <= 999 && #[trigger] status_of_code(c) == r ==> c == self.http_status(),
    {
        to_status_code(self.status_u16())
    }

    /// Renders the message of this error.
    pub fn to_string(&self) -> (s: String)
        ensures
            s@ == self.message(),
    {
        match self {
            AdminServiceError::NotFound { id } => {
                let mut s = String::from_str("凭据不存在: ");
                push_decimal(&mut s, *id);
                s
            },
            AdminServiceError::UpstreamError(msg) => {
                let mut s = String::from_str("上游服务错误: ");
                s.append(msg.as_str());
                s
            },
            AdminServiceError::RefreshError(e) => {
                let mut s = String::from_str("Token 刷新失败: ");
                let inner = e.to_string();
                s.append(inner.as_str());
                s
            },
            AdminServiceError::UpstreamHttp { status, body } => {
                let mut s = String::from_str("上游 HTTP ");
                push_decimal(&mut s, *status as u64);
                s.append(": ");
                s.append(body.as_str());
                s
            },
            AdminServiceError::ConfigError(e) => {
                let mut s = String::from_str("配置持久化失败: ");
                let inner = e.to_string();
                s.append(inner.as_str());
                s
            },
            AdminServiceError::DisabledByInvalidConfig(id) => {
                let mut s = String::from_str("凭据 #");
                push_decimal(&mut s, *id);
                s.append(" 因配置无效被禁用，请修正配置后重启服务");
                s
            },
            AdminServiceError::DuplicateRefreshToken => String::from_str("凭据已存在（refreshToken 重复）"),
            AdminServiceError::DuplicateApiKey => String::from_str("凭据已存在（kiroApiKey 重复）"),
            AdminServiceError::TruncatedRefreshToken(len) => {
                let mut s = String::from_str("refreshToken 已被截断（长度: ");
                push_decimal(&mut s, *len as u64);
                s.append(" 字符）。这通常是 Kiro IDE 为了防止凭证被第三方工具使用而故意截断的。");
                s
            },
            AdminServiceError::EmptyRefreshToken => String::from_str("refreshToken 为空"),
            AdminServiceError::MissingRefreshToken => String::from_str("缺少 refreshToken"),
            AdminServiceError::EmptyApiKey => String::from_str("kiroApiKey 为空"),
            AdminServiceError::MissingApiKey => String::from_str("缺少 kiroApiKey"),
            AdminServiceError::NotDisabled(id) => {
                let mut s = String::from_str("只能删除已禁用的凭据（请先禁用凭据 #");
                push_decimal(&mut s, *id);
                s.append("）");
                s
            },
            AdminServiceError::ApiKeyNotRefreshable => String::from_str("API Key 凭据不支持刷新 Token"),
            AdminServiceError::InvalidRequest(msg) => {
                let mut s = String::from_str("请求无效: ");
                s.append(msg.as_str());
                s
            },
        }
    }

    /// The stable error type of this error.
    fn error_type(&self) -> (t: &'static str)
        ensures
            t@ == self.kind().error_type(),
    {
        match self {
            AdminServiceError::NotFound { .. } => "not_found",
            AdminServiceError::UpstreamError(_) => "upstream_error",
            AdminServiceError::RefreshError(_) => "refresh_error",
            AdminServiceError::UpstreamHttp { .. } => "upstream_http_error",
            AdminServiceError::ConfigError(_) => "config_error",
            AdminServiceError::DisabledByInvalidConfig(_) => "disabled_by_invalid_config",
            AdminServiceError::DuplicateRefreshToken => "duplicate_refresh_token",
            AdminServiceError::DuplicateApiKey => "duplicate_api_key",
            AdminServiceError::TruncatedRefreshToken(_) => "truncated_refresh_token",
            AdminServiceError::EmptyRefreshToken => "empty_refresh_token",
            AdminServiceError::MissingRefreshToken => "missing_refresh_token",
            AdminServiceError::EmptyApiKey => "empty_api_key",
            AdminServiceError::MissingApiKey => "missing_api_key",
            AdminServiceError::NotDisabled(_) => "not_disabled",
            AdminServiceError::ApiKeyNotRefreshable => "api_key_not_refreshable",
            AdminServiceError::InvalidRequest(_) => "invalid_request",
        }
    }

    /// Converts this error into the admin API's error response: its stable
    /// error type and its message.
    pub fn into_response(self) -> (r: AdminErrorResponse)
        ensures
            r.error.error_type@ == self.kind().error_type(),
            r.error.message@ == self.message(),
    {
        let msg = self.to_string();
        let error_type = self.error_type();
        AdminErrorResponse::new(error_type, msg)
    }
}

impl From<AdminPoolError> for AdminServiceError {
    fn from(e: AdminPoolError) -> (r: Self) {
        match e {
            AdminPoolError::NotFound(id) => AdminServiceError::NotFound { id },
            AdminPoolError::DuplicateRefreshToken => AdminServiceError::DuplicateRefreshToken,
            AdminPoolError::DuplicateApiKey => AdminServiceError::DuplicateApiKey,
            AdminPoolError::TruncatedRefreshToken(len) => AdminServiceError::TruncatedRefreshToken(len),
            AdminPoolError::EmptyRefreshToken => AdminServiceError::EmptyRefreshToken,
            AdminPoolError::EmptyApiKey => AdminServiceError::EmptyApiKey,
            AdminPoolError::MissingRefreshToken => AdminServiceError::MissingRefreshToken,
            AdminPoolError::MissingApiKey => AdminServiceError::MissingApiKey,
            AdminPoolError::NotDisabled(id) => AdminServiceError::NotDisabled(id),
            AdminPoolError::ApiKeyNotRefreshable => AdminServiceError::ApiKeyNotRefreshable,
            AdminPoolError::Refresh(e) => AdminServiceError::RefreshError(e),
            AdminPoolError::UpstreamHttp { status, body } => AdminServiceError::UpstreamHttp { status, body },
            AdminPoolError::Network(e) => AdminServiceError::UpstreamError(e),
            AdminPoolError::Config(e) => AdminServiceError::ConfigError(e),
            AdminPoolError::DisabledByInvalidConfig(id) => AdminServiceError::DisabledByInvalidConfig(id),
        }
    }
}

impl vstd::std_specs::convert::FromSpecImpl<AdminPoolError> for AdminServiceError {
    open spec fn obeys_from_spec() -> bool {
        true
    }

    open spec fn from_spec(e: AdminPoolError) -> AdminServiceError {
        AdminServiceError::from_pool_error(e)
    }
}

/// Reads the kind back from an error type, by its length and first character.
spec fn kind_of_error_type(s: Seq<char>) -> AdminErrorKind {
    if s.len() == 9 && s[0] == 'n' {
        AdminErrorKind::NotFound
    } else if s.len() == 14 && s[0] == 'u' {
        AdminErrorKind::UpstreamError
    } else if s.len() == 13 && s[0] == 'r' {
        AdminErrorKind::RefreshError
    } else if s.len() == 19 && s[0] == 'u' {
        AdminErrorKind::UpstreamHttp
    } else if s.len() == 12 && s[0] == 'c' {
        AdminErrorKind::ConfigError
    } else if s.len() == 26 && s[0] == 'd' {
        AdminErrorKind::DisabledByInvalidConfig
    } else if s.len() == 23 && s[0] == 'd' {
        AdminErrorKind::DuplicateRefreshToken
    } else if s.len() == 17 && s[0] == 'd' {
        AdminErrorKind::DuplicateApiKey
    } else if s.len() == 23 && s[0] == 't' {
        AdminErrorKind::TruncatedRefreshToken
    } else if s.len() == 19 && s[0] == 'e' {
        AdminErrorKind::EmptyRefreshToken
    } else if s.len() == 21 && s[0] == 'm' {
        AdminErrorKind::MissingRefreshToken
    } else if s.len() == 13 && s[0] == 'e' {
        AdminErrorKind::EmptyApiKey
    } else if s.len() == 15 && s[0] == 'm' {
        AdminErrorKind::MissingApiKey
    } else if s.len() == 12 && s[0] == 'n' {
        AdminErrorKind::NotDisabled
    } else if s.len() == 23 && s[0] == 'a' {
        AdminErrorKind::ApiKeyNotRefreshable
    } else if s.len() == 15 && s[0] == 'i' {
        AdminErrorKind::InvalidRequest
    } else {
        AdminErrorKind::InvalidRequest
    }
}

/// The error type tells the variants apart: two kinds of error carry the same
/// error type exactly when they are the same kind.
pub proof fn lemma_error_type_identifies_kind(a: AdminErrorKind, b: AdminErrorKind)
    ensures
        (a.error_type() == b.error_type()) <==> (a == b),
{
    reveal_strlit("not_found");
    reveal_strlit("upstream_error");
    reveal_strlit("refresh_error");
    reveal_strlit("upstream_http_error");
    reveal_strlit("config_error");
    reveal_strlit("disabled_by_invalid_config");
    reveal_strlit("duplicate_refresh_token");
    reveal_strlit("duplicate_api_key");
    reveal_strlit("truncated_refresh_token");
    reveal_strlit("empty_refresh_token");
    reveal_strlit("missing_refresh_token");
    reveal_strlit("empty_api_key");
    reveal_strlit("missing_api_key");
    reveal_strlit("not_disabled");
    reveal_strlit("api_key_not_refreshable");
    reveal_strlit("invalid_request");
    assert(kind_of_error_type(a.error_type()) == a);
    assert(kind_of_error_type(b.error_type()) == b);
}

/// The mapping from credential pool errors is one to one: two pool errors
/// that become the same admin service error are the same pool error.
pub proof fn lemma_from_pool_error_injective(a: AdminPoolError, b: AdminPoolError)
    requires
        AdminServiceError::from_pool_error(a) == AdminServiceError::from_pool_error(b),
    ensures
        a == b,
{
}

/// Each error answers with the error type named after its own variant,
/// whatever its payload: `NotFound` with "not_found", `EmptyApiKey` with
/// "empty_api_key", `MissingApiKey` with "missing_api_key", and so on.
pub proof fn lemma_error_type_of_each_variant(e: AdminServiceError)
    ensures
        e is NotFound ==> e.kind().error_type() == "not_found"@,
        e is UpstreamError ==> e.kind().error_type() == "upstream_error"@,
        e is RefreshError ==> e.kind().error_type() == "refresh_error"@,
        e is UpstreamHttp ==> e.kind().error_type() == "upstream_http_error"@,
        e is ConfigError ==> e.kind().error_type() == "config_error"@,
        e is DisabledByInvalidConfig ==> e.kind().error_type() == "disabled_by_invalid_config"@,
        e is DuplicateRefreshToken ==> e.kind().error_type() == "duplicate_refresh_token"@,
        e is DuplicateApiKey ==> e.kind().error_type() == "duplicate_api_key"@,
        e is TruncatedRefreshToken ==> e.kind().error_type() == "truncated_refresh_token"@,
        e is EmptyRefreshToken ==> e.kind().error_type() == "empty_refresh_token"@,
        e is MissingRefreshToken ==> e.kind().error_type() == "missing_refresh_token"@,
        e is EmptyApiKey ==> e.kind().error_type() == "empty_api_key"@,
        e is MissingApiKey ==> e.kind().error_type() == "missing_api_key"@,
        e is NotDisabled ==> e.kind().error_type() == "not_disabled"@,
        e is ApiKeyNotRefreshable ==> e.kind().error_type() == "api_key_not_refreshable"@,
        e is InvalidRequest ==> e.kind().error_type() == "invalid_request"@,
{
}

/// The HTTP status depends on the variant only, never on its payload: a
/// missing credential answers 404; an upstream failure answers 502, whatever
/// status the upstream itself sent; a configuration fault answers 500; every
/// error of the request or of the credential it carries answers 400.
pub proof fn lemma_http_status_of_each_variant(e: AdminServiceError)
    ensures
        e is NotFound ==> e.http_status() == 404,
        e is UpstreamError ==> e.http_status() == 502,
        e is RefreshError ==> e.http_status() == 502,
        e is UpstreamHttp ==> e.http_status() == 502,
        e is ConfigError ==> e.http_status() == 500,
        e is DisabledByInvalidConfig ==> e.http_status() == 500,
        e is DuplicateRefreshToken ==> e.http_status() == 400,
        e is DuplicateApiKey ==> e.http_status() == 400,
        e is TruncatedRefreshToken ==> e.http_status() == 400,
        e is EmptyRefreshToken ==> e.http_status() == 400,
        e is MissingRefreshToken ==> e.http_status() == 400,
        e is EmptyApiKey ==> e.http_status() == 400,
        e is MissingApiKey ==> e.http_status() == 400,
        e is NotDisabled ==> e.http_status() == 400,
        e is ApiKeyNotRefreshable ==> e.http_status() == 400,
        e is InvalidRequest ==> e.http_status() == 400,
{
}

/// Every credential pool error becomes the admin service error of the same
/// meaning and keeps its payload unchanged.
pub proof fn lemma_from_pool_error_keeps_meaning(p: AdminPoolError)
    ensures
        p matches AdminPoolError::NotFound(id) ==> AdminServiceError::from_pool_error(p) == (AdminServiceError::NotFound { id }),
        p is DuplicateRefreshToken ==> AdminServiceError::from_pool_error(p) is DuplicateRefreshToken,
        p is DuplicateApiKey ==> AdminServiceError::from_pool_error(p) is DuplicateApiKey,
        p matches AdminPoolError::TruncatedRefreshToken(len) ==> AdminServiceError::from_pool_error(p) == AdminServiceError::TruncatedRefreshToken(len),
        p is EmptyRefreshToken ==> AdminServiceError::from_pool_error(p) is EmptyRefreshToken,
        p is EmptyApiKey ==> AdminServiceError::from_pool_error(p) is EmptyApiKey,
        p is MissingRefreshToken ==> AdminServiceError::from_pool_error(p) is MissingRefreshToken,
        p is MissingApiKey ==> AdminServiceError::from_pool_error(p) is MissingApiKey,
        p matches AdminPoolError::NotDisabled(id) ==> AdminServiceError::from_pool_error(p) == AdminServiceError::NotDisabled(id),
        p is ApiKeyNotRefreshable ==> AdminServiceError::from_pool_error(p) is ApiKeyNotRefreshable,
        p matches AdminPoolError::Refresh(e) ==> AdminServiceError::from_pool_error(p) == AdminServiceError::RefreshError(e),
        p matches AdminPoolError::UpstreamHttp { status, body } ==> AdminServiceError::from_pool_error(p) == (AdminServiceError::UpstreamHttp { status, body }),
        p matches AdminPoolError::Network(msg) ==> AdminServiceError::from_pool_error(p) == AdminServiceError::UpstreamError(msg),
        p matches AdminPoolError::Config(e) ==> AdminServiceError::from_pool_error(p) == AdminServiceError::ConfigError(e),
        p matches AdminPoolError::DisabledByInvalidConfig(id) ==> AdminServiceError::from_pool_error(p) == AdminServiceError::DisabledByInvalidConfig(id),
{
}

/// No credential pool error becomes an invalid request: that variant is kept
/// for parameters that the admin API itself rejects.
pub proof fn lemma_from_pool_error_never_invalid_request(p: AdminPoolError)
    ensures
        !(AdminServiceError::from_pool_error(p) is InvalidRequest),
{
}

} // verus!
