//! Error types of the admin service, their HTTP status codes and wire
//! responses, and the delivery modes of the conversation stream.

pub mod admin_error;
pub mod credential_pool;
pub mod decimal;
pub mod delivery;
pub mod domain_error;
pub mod dto;
pub mod http_status;

pub use admin_error::{AdminErrorKind, AdminServiceError};
pub use credential_pool::AdminPoolError;
pub use delivery::DeliveryMode;
pub use domain_error::{ConfigError, RefreshError};
pub use dto::{AdminErrorDetail, AdminErrorResponse};
