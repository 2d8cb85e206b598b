//! The error type shared by every part of the library.
//!
//! Each error has a kind; each kind belongs to a category, which fixes the
//! HTTP status code, and has a fixed internationalisation key.
use vstd::prelude::*;

verus! {

broadcast use vstd::string::group_string_axioms;

/// The category of an error, used to choose an HTTP status code.
#[derive(Debug, Clone, Copy, PartialEq, Eq, Structural)]
pub enum ErrorCategory {
    /// Validation error (400).
    Validation,
    /// Authentication error (401).
    Auth,
    /// Permission error (403).
    Permission,
    /// Resource not found (404).
    NotFound,
    /// Request conflict (409).
    Conflict,
    /// Too many requests (429).
    RateLimited,
    /// Network or upstream service error (502).
    Network,
    /// Storage error (500).
    Storage,
    /// Database error (500).
    Database,
    /// Cache error (500).
    Cache,
    /// Configuration error (500).
    Config,
    /// Timeout (408).
    Timeout,
    /// Internal error (500).
    Internal,
}

/// The HTTP status code of a category.
pub open spec fn http_status_spec(c: ErrorCategory) -> u16 {
    match c {
        ErrorCategory::Validation => 400,
        ErrorCategory::Auth => 401,
        ErrorCategory::Permission => 403,
        ErrorCategory::NotFound => 404,
        ErrorCategory::Conflict => 409,
        ErrorCategory::RateLimited => 429,
        ErrorCategory::Network => 502,
        ErrorCategory::Storage => 500,
        ErrorCategory::Database => 500,
        ErrorCategory::Cache => 500,
        ErrorCategory::Config => 500,
        ErrorCategory::Timeout => 408,
        ErrorCategory::Internal => 500,
    }
}

impl ErrorCategory {
    /// The HTTP status code of this category.
    pub fn http_status(&self) -> (r: u16)
        ensures
            r == http_status_spec(*self),
    {
        match self {
            ErrorCategory::Validation => 400,
            ErrorCategory::Auth => 401,
            ErrorCategory::Permission => 403,
            ErrorCategory::NotFound => 404,
            ErrorCategory::Conflict => 409,
            ErrorCategory::RateLimited => 429,
            ErrorCategory::Network => 502,
            ErrorCategory::Storage => 500,
            ErrorCategory::Database => 500,
            ErrorCategory::Cache => 500,
            ErrorCategory::Config => 500,
            ErrorCategory::Timeout => 408,
            ErrorCategory::Internal => 500,
        }
    }
}

/// Every kind of error the library reports.
#[derive(Debug, Clone)]
pub enum DockerErrorKind {
    /// A value does not have the expected format.
    InvalidFormat {
        /// The `field` detail.
        field: String,
        /// The `expected` detail.
        expected: String,
    },
    /// A value lies outside its allowed range.
    OutOfRange {
        /// The `field` detail.
        field: String,
        /// The `min` detail.
        min: Option<String>,
        /// The `max` detail.
        max: Option<String>,
    },
    /// A required field is missing.
    Required {
        /// The `field` detail.
        field: String,
    },
    /// A value already exists.
    AlreadyExists {
        /// The `field` detail.
        field: String,
        /// The `value` detail.
        value: String,
    },
    /// A value is not one of the allowed values.
    NotAllowed {
        /// The `field` detail.
        field: String,
        /// The `allowed` detail.
        allowed: Vec<String>,
    },
    /// A parameter is invalid.
    InvalidParams {
        /// The `param` detail.
        param: String,
        /// The `reason` detail.
        reason: String,
    },
    /// The credentials are invalid.
    InvalidCredentials,
    /// The account is locked.
    AccountLocked,
    /// No such user.
    UserNotFound {
        /// The `identifier` detail.
        identifier: String,
    },
    /// The user already exists.
    UserAlreadyExists {
        /// The `username` detail.
        username: String,
    },
    /// The token is invalid.
    InvalidToken {
        /// The `reason` detail.
        reason: String,
    },
    /// The token has expired.
    TokenExpired,
    /// The action is not permitted.
    PermissionDenied {
        /// The `action` detail.
        action: String,
    },
    /// Access to the resource is forbidden.
    Forbidden {
        /// The `resource` detail.
        resource: String,
    },
    /// No such resource.
    ResourceNotFound {
        /// The `resource_type` detail.
        resource_type: String,
        /// The `identifier` detail.
        identifier: String,
    },
    /// The resource is in conflict.
    ResourceConflict {
        /// The `resource` detail.
        resource: String,
        /// The `reason` detail.
        reason: String,
    },
    /// The rate limit was exceeded.
    RateLimited {
        /// The `limit` detail.
        limit: u64,
    },
    /// A connection could not be made.
    ConnectionFailed {
        /// The `target` detail.
        target: String,
    },
    /// A host name could not be resolved.
    DnsResolutionFailed {
        /// The `host` detail.
        host: String,
    },
    /// A service is unavailable.
    ServiceUnavailable {
        /// The `service` detail.
        service: String,
    },
    /// Reading from storage failed.
    StorageReadFailed {
        /// The `path` detail.
        path: String,
    },
    /// Writing to storage failed.
    StorageWriteFailed {
        /// The `path` detail.
        path: String,
    },
    /// Deleting from storage failed.
    StorageDeleteFailed {
        /// The `path` detail.
        path: String,
    },
    /// There is not enough storage capacity.
    InsufficientCapacity {
        /// The `required` detail.
        required: u64,
        /// The `available` detail.
        available: u64,
    },
    /// A stored file is missing.
    StorageFileNotFound {
        /// The `path` detail.
        path: String,
    },
    /// A configuration key is missing.
    ConfigMissing {
        /// The `key` detail.
        key: String,
    },
    /// A configuration value is invalid.
    ConfigInvalid {
        /// The `key` detail.
        key: String,
        /// The `reason` detail.
        reason: String,
    },
    /// An internal error.
    InternalError {
        /// The `reason` detail.
        reason: String,
    },
    /// A feature is not implemented.
    NotImplemented {
        /// The `feature` detail.
        feature: String,
    },
    /// An I/O operation failed.
    IoError {
        /// The `operation` detail.
        operation: String,
        /// The `reason` detail.
        reason: String,
    },
    /// JSON could not be read or written.
    JsonError {
        /// The `reason` detail.
        reason: String,
    },
    /// A value could not be parsed.
    ParseError {
        /// The `value_type` detail.
        value_type: String,
        /// The `reason` detail.
        reason: String,
    },
    /// A request failed.
    RequestError {
        /// The `url` detail.
        url: String,
        /// The `reason` detail.
        reason: String,
    },
    /// A container operation failed.
    ContainerError {
        /// The `reason` detail.
        reason: String,
    },
    /// An image operation failed.
    ImageError {
        /// The `reason` detail.
        reason: String,
    },
    /// A network operation failed.
    NetworkError {
        /// The `reason` detail.
        reason: String,
    },
    /// A runtime operation failed.
    RuntimeError {
        /// The `reason` detail.
        reason: String,
    },
    /// A registry operation failed.
    RegistryError {
        /// The `reason` detail.
        reason: String,
    },
    /// A key-value store operation failed.
    EtcdError {
        /// The `reason` detail.
        reason: String,
    },
    /// A monitoring operation failed.
    MonitorError {
        /// The `reason` detail.
        reason: String,
    },
    /// A Kubernetes operation failed.
    KubernetesError {
        /// The `reason` detail.
        reason: String,
    },
}

/// The category of a kind of error.
pub open spec fn category_spec(k: DockerErrorKind) -> ErrorCategory {
    match k {
        DockerErrorKind::InvalidFormat { .. } => ErrorCategory::Validation,
        DockerErrorKind::OutOfRange { .. } => ErrorCategory::Validation,
        DockerErrorKind::Required { .. } => ErrorCategory::Validation,
        DockerErrorKind::AlreadyExists { .. } => ErrorCategory::Validation,
        DockerErrorKind::NotAllowed { .. } => ErrorCategory::Validation,
        DockerErrorKind::InvalidParams { .. } => ErrorCategory::Validation,
        DockerErrorKind::InvalidCredentials => ErrorCategory::Auth,
        DockerErrorKind::AccountLocked => ErrorCategory::Auth,
        DockerErrorKind::UserNotFound { .. } => ErrorCategory::Auth,
        DockerErrorKind::UserAlreadyExists { .. } => ErrorCategory::Auth,
        DockerErrorKind::InvalidToken { .. } => ErrorCategory::Auth,
        DockerErrorKind::TokenExpired => ErrorCategory::Auth,
        DockerErrorKind::PermissionDenied { .. } => ErrorCategory::Permission,
        DockerErrorKind::Forbidden { .. } => ErrorCategory::Permission,
        DockerErrorKind::ResourceNotFound { .. } => ErrorCategory::NotFound,
        DockerErrorKind::ResourceConflict { .. } => ErrorCategory::Conflict,
        DockerErrorKind::RateLimited { .. } => ErrorCategory::RateLimited,
        DockerErrorKind::ConnectionFailed { .. } => ErrorCategory::Network,
        DockerErrorKind::DnsResolutionFailed { .. } => ErrorCategory::Network,
        DockerErrorKind::ServiceUnavailable { .. } => ErrorCategory::Network,
        DockerErrorKind::StorageReadFailed { .. } => ErrorCategory::Storage,
        DockerErrorKind::StorageWriteFailed { .. } => ErrorCategory::Storage,
        DockerErrorKind::StorageDeleteFailed { .. } => ErrorCategory::Storage,
        DockerErrorKind::InsufficientCapacity { .. } => ErrorCategory::Storage,
        DockerErrorKind::StorageFileNotFound { .. } => ErrorCategory::Storage,
        DockerErrorKind::ConfigMissing { .. } => ErrorCategory::Config,
        DockerErrorKind::ConfigInvalid { .. } => ErrorCategory::Config,
        DockerErrorKind::InternalError { .. } => ErrorCategory::Internal,
        DockerErrorKind::NotImplemented { .. } => ErrorCategory::Internal,
        DockerErrorKind::IoError { .. } => ErrorCategory::Internal,
        DockerErrorKind::JsonError { .. } => ErrorCategory::Internal,
        DockerErrorKind::ParseError { .. } => ErrorCategory::Internal,
        DockerErrorKind::RequestError { .. } => ErrorCategory::Internal,
        DockerErrorKind::ContainerError { .. } => ErrorCategory::Internal,
        DockerErrorKind::ImageError { .. } => ErrorCategory::Internal,
        DockerErrorKind::NetworkError { .. } => ErrorCategory::Internal,
        DockerErrorKind::RuntimeError { .. } => ErrorCategory::Internal,
        DockerErrorKind::RegistryError { .. } => ErrorCategory::Internal,
        DockerErrorKind::EtcdError { .. } => ErrorCategory::Internal,
        DockerErrorKind::MonitorError { .. } => ErrorCategory::Internal,
        DockerErrorKind::KubernetesError { .. } => ErrorCategory::Internal,
    }
}

/// The internationalisation key of a kind of error.
pub open spec fn i18n_key_spec(k: DockerErrorKind) -> Seq<char> {
    match k {
        DockerErrorKind::InvalidFormat { .. } => "docker.error.validation.invalid_format"@,
        DockerErrorKind::OutOfRange { .. } => "docker.error.validation.out_of_range"@,
        DockerErrorKind::Required { .. } => "docker.error.validation.required"@,
        DockerErrorKind::AlreadyExists { .. } => "docker.error.validation.already_exists"@,
        DockerErrorKind::NotAllowed { .. } => "docker.error.validation.not_allowed"@,
        DockerErrorKind::InvalidParams { .. } => "docker.error.validation.invalid_params"@,
        DockerErrorKind::InvalidCredentials => "docker.error.auth.invalid_credentials"@,
        DockerErrorKind::AccountLocked => "docker.error.auth.account_locked"@,
        DockerErrorKind::UserNotFound { .. } => "docker.error.auth.user_not_found"@,
        DockerErrorKind::UserAlreadyExists { .. } => "docker.error.auth.user_already_exists"@,
        DockerErrorKind::InvalidToken { .. } => "docker.error.auth.invalid_token"@,
        DockerErrorKind::TokenExpired => "docker.error.auth.token_expired"@,
        DockerErrorKind::PermissionDenied { .. } => "docker.error.permission.denied"@,
        DockerErrorKind::Forbidden { .. } => "docker.error.permission.forbidden"@,
        DockerErrorKind::ResourceNotFound { .. } => "docker.error.not_found.resource"@,
        DockerErrorKind::ResourceConflict { .. } => "docker.error.conflict.resource"@,
        DockerErrorKind::RateLimited { .. } => "docker.error.rate_limited"@,
        DockerErrorKind::ConnectionFailed { .. } => "docker.error.network.connection_failed"@,
        DockerErrorKind::DnsResolutionFailed { .. } => "docker.error.network.dns_resolution_failed"@,
        DockerErrorKind::ServiceUnavailable { .. } => "docker.error.network.service_unavailable"@,
        DockerErrorKind::StorageReadFailed { .. } => "docker.error.storage.read_failed"@,
        DockerErrorKind::StorageWriteFailed { .. } => "docker.error.storage.write_failed"@,
        DockerErrorKind::StorageDeleteFailed { .. } => "docker.error.storage.delete_failed"@,
        DockerErrorKind::InsufficientCapacity { .. } => "docker.error.storage.insufficient_capacity"@,
        DockerErrorKind::StorageFileNotFound { .. } => "docker.error.storage.file_not_found"@,
        DockerErrorKind::ConfigMissing { .. } => "docker.error.config.missing"@,
        DockerErrorKind::ConfigInvalid { .. } => "docker.error.config.invalid"@,
        DockerErrorKind::InternalError { .. } => "docker.error.internal.error"@,
        DockerErrorKind::NotImplemented { .. } => "docker.error.internal.not_implemented"@,
        DockerErrorKind::IoError { .. } => "docker.error.internal.io_error"@,
        DockerErrorKind::JsonError { .. } => "docker.error.internal.json_error"@,
        DockerErrorKind::ParseError { .. } => "docker.error.internal.parse_error"@,
        DockerErrorKind::RequestError { .. } => "docker.error.internal.request_error"@,
        DockerErrorKind::ContainerError { .. } => "docker.error.container.error"@,
        DockerErrorKind::ImageError { .. } => "docker.error.image.error"@,
        DockerErrorKind::NetworkError { .. } => "docker.error.network.error"@,
        DockerErrorKind::RuntimeError { .. } => "docker.error.runtime.error"@,
        DockerErrorKind::RegistryError { .. } => "docker.error.registry.error"@,
        DockerErrorKind::EtcdError { .. } => "docker.error.etcd.error"@,
        DockerErrorKind::MonitorError { .. } => "docker.error.monitor.error"@,
        DockerErrorKind::KubernetesError { .. } => "docker.error.kubernetes.error"@,
    }
}

/// Every internationalisation key of an error kind begins with
/// `docker.error.`.
pub proof fn law_i18n_keys_share_prefix(k: DockerErrorKind)
    ensures
        "docker.error."@.is_prefix_of(i18n_key_spec(k)),
{
    reveal_strlit("docker.error.");
    match k {
        DockerErrorKind::InvalidFormat { .. } => reveal_strlit("docker.error.validation.invalid_format"),
        DockerErrorKind::OutOfRange { .. } => reveal_strlit("docker.error.validation.out_of_range"),
        DockerErrorKind::Required { .. } => reveal_strlit("docker.error.validation.required"),
        DockerErrorKind::AlreadyExists { .. } => reveal_strlit("docker.error.validation.already_exists"),
        DockerErrorKind::NotAllowed { .. } => reveal_strlit("docker.error.validation.not_allowed"),
        DockerErrorKind::InvalidParams { .. } => reveal_strlit("docker.error.validation.invalid_params"),
        DockerErrorKind::InvalidCredentials => reveal_strlit("docker.error.auth.invalid_credentials"),
        DockerErrorKind::AccountLocked => reveal_strlit("docker.error.auth.account_locked"),
        DockerErrorKind::UserNotFound { .. } => reveal_strlit("docker.error.auth.user_not_found"),
        DockerErrorKind::UserAlreadyExists { .. } => reveal_strlit("docker.error.auth.user_already_exists"),
        DockerErrorKind::InvalidToken { .. } => reveal_strlit("docker.error.auth.invalid_token"),
        DockerErrorKind::TokenExpired => reveal_strlit("docker.error.auth.token_expired"),
        DockerErrorKind::PermissionDenied { .. } => reveal_strlit("docker.error.permission.denied"),
        DockerErrorKind::Forbidden { .. } => reveal_strlit("docker.error.permission.forbidden"),
        DockerErrorKind::ResourceNotFound { .. } => reveal_strlit("docker.error.not_found.resource"),
        DockerErrorKind::ResourceConflict { .. } => reveal_strlit("docker.error.conflict.resource"),
        DockerErrorKind::RateLimited { .. } => reveal_strlit("docker.error.rate_limited"),
        DockerErrorKind::ConnectionFailed { .. } => reveal_strlit("docker.error.network.connection_failed"),
        DockerErrorKind::DnsResolutionFailed { .. } => reveal_strlit("docker.error.network.dns_resolution_failed"),
        DockerErrorKind::ServiceUnavailable { .. } => reveal_strlit("docker.error.network.service_unavailable"),
        DockerErrorKind::StorageReadFailed { .. } => reveal_strlit("docker.error.storage.read_failed"),
        DockerErrorKind::StorageWriteFailed { .. } => reveal_strlit("docker.error.storage.write_failed"),
        DockerErrorKind::StorageDeleteFailed { .. } => reveal_strlit("docker.error.storage.delete_failed"),
        DockerErrorKind::InsufficientCapacity { .. } => reveal_strlit("docker.error.storage.insufficient_capacity"),
        DockerErrorKind::StorageFileNotFound { .. } => reveal_strlit("docker.error.storage.file_not_found"),
        DockerErrorKind::ConfigMissing { .. } => reveal_strlit("docker.error.config.missing"),
        DockerErrorKind::ConfigInvalid { .. } => reveal_strlit("docker.error.config.invalid"),
        DockerErrorKind::InternalError { .. } => reveal_strlit("docker.error.internal.error"),
        DockerErrorKind::NotImplemented { .. } => reveal_strlit("docker.error.internal.not_implemented"),
        DockerErrorKind::IoError { .. } => reveal_strlit("docker.error.internal.io_error"),
        DockerErrorKind::JsonError { .. } => reveal_strlit("docker.error.internal.json_error"),
        DockerErrorKind::ParseError { .. } => reveal_strlit("docker.error.internal.parse_error"),
        DockerErrorKind::RequestError { .. } => reveal_strlit("docker.error.internal.request_error"),
        DockerErrorKind::ContainerError { .. } => reveal_strlit("docker.error.container.error"),
        DockerErrorKind::ImageError { .. } => reveal_strlit("docker.error.image.error"),
        DockerErrorKind::NetworkError { .. } => reveal_strlit("docker.error.network.error"),
        DockerErrorKind::RuntimeError { .. } => reveal_strlit("docker.error.runtime.error"),
        DockerErrorKind::RegistryError { .. } => reveal_strlit("docker.error.registry.error"),
        DockerErrorKind::EtcdError { .. } => reveal_strlit("docker.error.etcd.error"),
        DockerErrorKind::MonitorError { .. } => reveal_strlit("docker.error.monitor.error"),
        DockerErrorKind::KubernetesError { .. } => reveal_strlit("docker.error.kubernetes.error"),
    }
    assert("docker.error."@.is_prefix_of(i18n_key_spec(k)));
}

impl DockerErrorKind {
    /// The category of this kind.
    pub fn category(&self) -> (c: ErrorCategory)
        ensures
            c == category_spec(*self),
    {
        match self {
            DockerErrorKind::InvalidFormat { .. } => ErrorCategory::Validation,
            DockerErrorKind::OutOfRange { .. } => ErrorCategory::Validation,
            DockerErrorKind::Required { .. } => ErrorCategory::Validation,
            DockerErrorKind::AlreadyExists { .. } => ErrorCategory::Validation,
            DockerErrorKind::NotAllowed { .. } => ErrorCategory::Validation,
            DockerErrorKind::InvalidParams { .. } => ErrorCategory::Validation,
            DockerErrorKind::InvalidCredentials => ErrorCategory::Auth,
            DockerErrorKind::AccountLocked => ErrorCategory::Auth,
            DockerErrorKind::UserNotFound { .. } => ErrorCategory::Auth,
            DockerErrorKind::UserAlreadyExists { .. } => ErrorCategory::Auth,
            DockerErrorKind::InvalidToken { .. } => ErrorCategory::Auth,
            DockerErrorKind::TokenExpired => ErrorCategory::Auth,
            DockerErrorKind::PermissionDenied { .. } => ErrorCategory::Permission,
            DockerErrorKind::Forbidden { .. } => ErrorCategory::Permission,
            DockerErrorKind::ResourceNotFound { .. } => ErrorCategory::NotFound,
            DockerErrorKind::ResourceConflict { .. } => ErrorCategory::Conflict,
            DockerErrorKind::RateLimited { .. } => ErrorCategory::RateLimited,
            DockerErrorKind::ConnectionFailed { .. } => ErrorCategory::Network,
            DockerErrorKind::DnsResolutionFailed { .. } => ErrorCategory::Network,
            DockerErrorKind::ServiceUnavailable { .. } => ErrorCategory::Network,
            DockerErrorKind::StorageReadFailed { .. } => ErrorCategory::Storage,
            DockerErrorKind::StorageWriteFailed { .. } => ErrorCategory::Storage,
            DockerErrorKind::StorageDeleteFailed { .. } => ErrorCategory::Storage,
            DockerErrorKind::InsufficientCapacity { .. } => ErrorCategory::Storage,
            DockerErrorKind::StorageFileNotFound { .. } => ErrorCategory::Storage,
            DockerErrorKind::ConfigMissing { .. } => ErrorCategory::Config,
            DockerErrorKind::ConfigInvalid { .. } => ErrorCategory::Config,
            DockerErrorKind::InternalError { .. } => ErrorCategory::Internal,
            DockerErrorKind::NotImplemented { .. } => ErrorCategory::Internal,
            DockerErrorKind::IoError { .. } => ErrorCategory::Internal,
            DockerErrorKind::JsonError { .. } => ErrorCategory::Internal,
            DockerErrorKind::ParseError { .. } => ErrorCategory::Internal,
            DockerErrorKind::RequestError { .. } => ErrorCategory::Internal,
            DockerErrorKind::ContainerError { .. } => ErrorCategory::Internal,
            DockerErrorKind::ImageError { .. } => ErrorCategory::Internal,
            DockerErrorKind::NetworkError { .. } => ErrorCategory::Internal,
            DockerErrorKind::RuntimeError { .. } => ErrorCategory::Internal,
            DockerErrorKind::RegistryError { .. } => ErrorCategory::Internal,
            DockerErrorKind::EtcdError { .. } => ErrorCategory::Internal,
            DockerErrorKind::MonitorError { .. } => ErrorCategory::Internal,
            DockerErrorKind::KubernetesError { .. } => ErrorCategory::Internal,
        }
    }

    /// The internationalisation key of this kind.
    pub fn i18n_key(&self) -> (r: &'static str)
        ensures
            r@ == i18n_key_spec(*self),
    {
        match self {
            DockerErrorKind::InvalidFormat { .. } => "docker.error.validation.invalid_format",
            DockerErrorKind::OutOfRange { .. } => "docker.error.validation.out_of_range",
            DockerErrorKind::Required { .. } => "docker.error.validation.required",
            DockerErrorKind::AlreadyExists { .. } => "docker.error.validation.already_exists",
            DockerErrorKind::NotAllowed { .. } => "docker.error.validation.not_allowed",
            DockerErrorKind::InvalidParams { .. } => "docker.error.validation.invalid_params",
            DockerErrorKind::InvalidCredentials => "docker.error.auth.invalid_credentials",
            DockerErrorKind::AccountLocked => "docker.error.auth.account_locked",
            DockerErrorKind::UserNotFound { .. } => "docker.error.auth.user_not_found",
            DockerErrorKind::UserAlreadyExists { .. } => "docker.error.auth.user_already_exists",
            DockerErrorKind::InvalidToken { .. } => "docker.error.auth.invalid_token",
            DockerErrorKind::TokenExpired => "docker.error.auth.token_expired",
            DockerErrorKind::PermissionDenied { .. } => "docker.error.permission.denied",
            DockerErrorKind::Forbidden { .. } => "docker.error.permission.forbidden",
            DockerErrorKind::ResourceNotFound { .. } => "docker.error.not_found.resource",
            DockerErrorKind::ResourceConflict { .. } => "docker.error.conflict.resource",
            DockerErrorKind::RateLimited { .. } => "docker.error.rate_limited",
            DockerErrorKind::ConnectionFailed { .. } => "docker.error.network.connection_failed",
            DockerErrorKind::DnsResolutionFailed { .. } => "docker.error.network.dns_resolution_failed",
            DockerErrorKind::ServiceUnavailable { .. } => "docker.error.network.service_unavailable",
            DockerErrorKind::StorageReadFailed { .. } => "docker.error.storage.read_failed",
            DockerErrorKind::StorageWriteFailed { .. } => "docker.error.storage.write_failed",
            DockerErrorKind::StorageDeleteFailed { .. } => "docker.error.storage.delete_failed",
            DockerErrorKind::InsufficientCapacity { .. } => "docker.error.storage.insufficient_capacity",
            DockerErrorKind::StorageFileNotFound { .. } => "docker.error.storage.file_not_found",
            DockerErrorKind::ConfigMissing { .. } => "docker.error.config.missing",
            DockerErrorKind::ConfigInvalid { .. } => "docker.error.config.invalid",
            DockerErrorKind::InternalError { .. } => "docker.error.internal.error",
            DockerErrorKind::NotImplemented { .. } => "docker.error.internal.not_implemented",
            DockerErrorKind::IoError { .. } => "docker.error.internal.io_error",
            DockerErrorKind::JsonError { .. } => "docker.error.internal.json_error",
            DockerErrorKind::ParseError { .. } => "docker.error.internal.parse_error",
            DockerErrorKind::RequestError { .. } => "docker.error.internal.request_error",
            DockerErrorKind::ContainerError { .. } => "docker.error.container.error",
            DockerErrorKind::ImageError { .. } => "docker.error.image.error",
            DockerErrorKind::NetworkError { .. } => "docker.error.network.error",
            DockerErrorKind::RuntimeError { .. } => "docker.error.runtime.error",
            DockerErrorKind::RegistryError { .. } => "docker.error.registry.error",
            DockerErrorKind::EtcdError { .. } => "docker.error.etcd.error",
            DockerErrorKind::MonitorError { .. } => "docker.error.monitor.error",
            DockerErrorKind::KubernetesError { .. } => "docker.error.kubernetes.error",
        }
    }
}

/// An error of the library: a boxed kind.
#[derive(Debug, Clone)]
pub struct DockerError {
    /// What went wrong.
    pub kind: Box<DockerErrorKind>,
}

impl DockerError {
    /// An error of the given kind.
    pub fn new(kind: DockerErrorKind) -> (e: Self)
        ensures
            *e.kind == kind,
    {
        DockerError { kind: Box::new(kind) }
    }

    /// The internationalisation key of this error.
    pub fn i18n_key(&self) -> (r: &'static str)
        ensures
            r@ == i18n_key_spec(*self.kind),
    {
        self.kind.i18n_key()
    }

    /// The category of this error.
    pub fn category(&self) -> (c: ErrorCategory)
        ensures
            c == category_spec(*self.kind),
    {
        self.kind.category()
    }

    /// The HTTP status code of this error.
    pub fn http_status(&self) -> (r: u16)
        ensures
            r == http_status_spec(category_spec(*self.kind)),
    {
        self.category().http_status()
    }

    /// An error of kind [`DockerErrorKind::InvalidFormat`] with the given details.
    pub fn invalid_format(field: &str, expected: &str) -> (e: Self)
        ensures
            *e.kind matches DockerErrorKind::InvalidFormat { field: x_field, expected: x_expected } && x_field@ == field@ && x_expected@ == expected@,
    {
        Self::new(DockerErrorKind::InvalidFormat { field: field.to_string(), expected: expected.to_string() })
    }

    /// An error of kind [`DockerErrorKind::OutOfRange`] with the given details.
    pub fn out_of_range(field: &str, min: Option<String>, max: Option<String>) -> (e: Self)
        ensures
            *e.kind matches DockerErrorKind::OutOfRange { field: x_field, min: x_min, max: x_max } && x_field@ == field@ && x_min == min && x_max == max,
    {
        Self::new(DockerErrorKind::OutOfRange { field: field.to_string(), min, max })
    }

    /// An error of kind [`DockerErrorKind::Required`] with the given details.
    pub fn required(field: &str) -> (e: Self)
        ensures
            *e.kind matches DockerErrorKind::Required { field: x_field } && x_field@ == field@,
    {
        Self::new(DockerErrorKind::Required { field: field.to_string() })
    }

    /// An error of kind [`DockerErrorKind::AlreadyExists`] with the given details.
    pub fn already_exists(field: &str, value: &str) -> (e: Self)
        ensures
            *e.kind matches DockerErrorKind::AlreadyExists { field: x_field, value: x_value } && x_field@ == field@ && x_value@ == value@,
    {
        Self::new(DockerErrorKind::AlreadyExists { field: field.to_string(), value: value.to_string() })
    }

    /// An error of kind [`DockerErrorKind::NotAllowed`] with the given details.
    pub fn not_allowed(field: &str, allowed: Vec<String>) -> (e: Self)
        ensures
            *e.kind matches DockerErrorKind::NotAllowed { field: x_field, allowed: x_allowed } && x_field@ == field@ && x_allowed == allowed,
    {
        Self::new(DockerErrorKind::NotAllowed { field: field.to_string(), allowed })
    }

    /// An error of kind [`DockerErrorKind::InvalidParams`] with the given details.
    pub fn invalid_params(param: &str, reason: &str) -> (e: Self)
        ensures
            *e.kind matches DockerErrorKind::InvalidParams { param: x_param, reason: x_reason } && x_param@ == param@ && x_reason@ == reason@,
    {
        Self::new(DockerErrorKind::InvalidParams { param: param.to_string(), reason: reason.to_string() })
    }

    /// An error of kind [`DockerErrorKind::InvalidCredentials`].
    pub fn invalid_credentials() -> (e: Self)
        ensures
            *e.kind == DockerErrorKind::InvalidCredentials,
    {
        Self::new(DockerErrorKind::InvalidCredentials)
    }

    /// An error of kind [`DockerErrorKind::AccountLocked`].
    pub fn account_locked() -> (e: Self)
        ensures
            *e.kind == DockerErrorKind::AccountLocked,
    {
        Self::new(DockerErrorKind::AccountLocked)
    }

    /// An error of kind [`DockerErrorKind::UserNotFound`] with the given details.
    pub fn user_not_found(identifier: &str) -> (e: Self)
        ensures
            *e.kind matches DockerErrorKind::UserNotFound { identifier: x_identifier } && x_identifier@ == identifier@,
    {
        Self::new(DockerErrorKind::UserNotFound { identifier: identifier.to_string() })
    }

    /// An error of kind [`DockerErrorKind::UserAlreadyExists`] with the given details.
    pub fn user_already_exists(username: &str) -> (e: Self)
        ensures
            *e.kind matches DockerErrorKind::UserAlreadyExists { username: x_username } && x_username@ == username@,
    {
        Self::new(DockerErrorKind::UserAlreadyExists { username: username.to_string() })
    }

    /// An error of kind [`DockerErrorKind::InvalidToken`] with the given details.
    pub fn invalid_token(reason: &str) -> (e: Self)
        ensures
            *e.kind matches DockerErrorKind::InvalidToken { reason: x_reason } && x_reason@ == reason@,
    {
        Self::new(DockerErrorKind::InvalidToken { reason: reason.to_string() })
    }

    /// An error of kind [`DockerErrorKind::TokenExpired`].
    pub fn token_expired() -> (e: Self)
        ensures
            *e.kind == DockerErrorKind::TokenExpired,
    {
        Self::new(DockerErrorKind::TokenExpired)
    }

    /// An error of kind [`DockerErrorKind::PermissionDenied`] with the given details.
    pub fn permission_denied(action: &str) -> (e: Self)
        ensures
            *e.kind matches DockerErrorKind::PermissionDenied { action: x_action } && x_action@ == action@,
    {
        Self::new(DockerErrorKind::PermissionDenied { action: action.to_string() })
    }

    /// An error of kind [`DockerErrorKind::Forbidden`] with the given details.
    pub fn forbidden(resource: &str) -> (e: Self)
        ensures
            *e.kind matches DockerErrorKind::Forbidden { resource: x_resource } && x_resource@ == resource@,
    {
        Self::new(DockerErrorKind::Forbidden { resource: resource.to_string() })
    }

    /// An error of kind [`DockerErrorKind::ResourceNotFound`] with the given details.
    pub fn not_found(resource_type: &str, identifier: &str) -> (e: Self)
        ensures
            *e.kind matches DockerErrorKind::ResourceNotFound { resource_type: x_resource_type, identifier: x_identifier } && x_resource_type@ == resource_type@ && x_identifier@ == identifier@,
    {
        Self::new(DockerErrorKind::ResourceNotFound { resource_type: resource_type.to_string(), identifier: identifier.to_string() })
    }

    /// An error of kind [`DockerErrorKind::ConnectionFailed`] with the given details.
    pub fn connection_failed(target: &str) -> (e: Self)
        ensures
            *e.kind matches DockerErrorKind::ConnectionFailed { target: x_target } && x_target@ == target@,
    {
        Self::new(DockerErrorKind::ConnectionFailed { target: target.to_string() })
    }

    /// An error of kind [`DockerErrorKind::ServiceUnavailable`] with the given details.
    pub fn service_unavailable(service: &str) -> (e: Self)
        ensures
            *e.kind matches DockerErrorKind::ServiceUnavailable { service: x_service } && x_service@ == service@,
    {
        Self::new(DockerErrorKind::ServiceUnavailable { service: service.to_string() })
    }

    /// An error of kind [`DockerErrorKind::StorageReadFailed`] with the given details.
    pub fn storage_read_failed(path: &str) -> (e: Self)
        ensures
            *e.kind matches DockerErrorKind::StorageReadFailed { path: x_path } && x_path@ == path@,
    {
        Self::new(DockerErrorKind::StorageReadFailed { path: path.to_string() })
    }

    /// An error of kind [`DockerErrorKind::StorageWriteFailed`] with the given details.
    pub fn storage_write_failed(path: &str) -> (e: Self)
        ensures
            *e.kind matches DockerErrorKind::StorageWriteFailed { path: x_path } && x_path@ == path@,
    {
        Self::new(DockerErrorKind::StorageWriteFailed { path: path.to_string() })
    }

    /// An error of kind [`DockerErrorKind::StorageFileNotFound`] with the given details.
    pub fn storage_file_not_found(path: &str) -> (e: Self)
        ensures
            *e.kind matches DockerErrorKind::StorageFileNotFound { path: x_path } && x_path@ == path@,
    {
        Self::new(DockerErrorKind::StorageFileNotFound { path: path.to_string() })
    }

    /// An error of kind [`DockerErrorKind::ConfigMissing`] with the given details.
    pub fn config_missing(key: &str) -> (e: Self)
        ensures
            *e.kind matches DockerErrorKind::ConfigMissing { key: x_key } && x_key@ == key@,
    {
        Self::new(DockerErrorKind::ConfigMissing { key: key.to_string() })
    }

    /// An error of kind [`DockerErrorKind::ConfigInvalid`] with the given details.
    pub fn config_invalid(key: &str, reason: &str) -> (e: Self)
        ensures
            *e.kind matches DockerErrorKind::ConfigInvalid { key: x_key, reason: x_reason } && x_key@ == key@ && x_reason@ == reason@,
    {
        Self::new(DockerErrorKind::ConfigInvalid { key: key.to_string(), reason: reason.to_string() })
    }

    /// An error of kind [`DockerErrorKind::InternalError`] with the given details.
    pub fn internal(reason: &str) -> (e: Self)
        ensures
            *e.kind matches DockerErrorKind::InternalError { reason: x_reason } && x_reason@ == reason@,
    {
        Self::new(DockerErrorKind::InternalError { reason: reason.to_string() })
    }

    /// An error of kind [`DockerErrorKind::NotImplemented`] with the given details.
    pub fn not_implemented(feature: &str) -> (e: Self)
        ensures
            *e.kind matches DockerErrorKind::NotImplemented { feature: x_feature } && x_feature@ == feature@,
    {
        Self::new(DockerErrorKind::NotImplemented { feature: feature.to_string() })
    }

    /// An error of kind [`DockerErrorKind::IoError`] with the given details.
    pub fn io_error(operation: &str, reason: &str) -> (e: Self)
        ensures
            *e.kind matches DockerErrorKind::IoError { operation: x_operation, reason: x_reason } && x_operation@ == operation@ && x_reason@ == reason@,
    {
        Self::new(DockerErrorKind::IoError { operation: operation.to_string(), reason: reason.to_string() })
    }

    /// An error of kind [`DockerErrorKind::JsonError`] with the given details.
    pub fn json_error(reason: &str) -> (e: Self)
        ensures
            *e.kind matches DockerErrorKind::JsonError { reason: x_reason } && x_reason@ == reason@,
    {
        Self::new(DockerErrorKind::JsonError { reason: reason.to_string() })
    }

    /// An error of kind [`DockerErrorKind::ParseError`] with the given details.
    pub fn parse_error(value_type: &str, reason: &str) -> (e: Self)
        ensures
            *e.kind matches DockerErrorKind::ParseError { value_type: x_value_type, reason: x_reason } && x_value_type@ == value_type@ && x_reason@ == reason@,
    {
        Self::new(DockerErrorKind::ParseError { value_type: value_type.to_string(), reason: reason.to_string() })
    }

    /// An error of kind [`DockerErrorKind::RequestError`] with the given details.
    pub fn request_error(url: &str, reason: &str) -> (e: Self)
        ensures
            *e.kind matches DockerErrorKind::RequestError { url: x_url, reason: x_reason } && x_url@ == url@ && x_reason@ == reason@,
    {
        Self::new(DockerErrorKind::RequestError { url: url.to_string(), reason: reason.to_string() })
    }

    /// An error of kind [`DockerErrorKind::ContainerError`] with the given details.
    pub fn container_error(reason: &str) -> (e: Self)
        ensures
            *e.kind matches DockerErrorKind::ContainerError { reason: x_reason } && x_reason@ == reason@,
    {
        Self::new(DockerErrorKind::ContainerError { reason: reason.to_string() })
    }

    /// An error of kind [`DockerErrorKind::ImageError`] with the given details.
    pub fn image_error(reason: &str) -> (e: Self)
        ensures
            *e.kind matches DockerErrorKind::ImageError { reason: x_reason } && x_reason@ == reason@,
    {
        Self::new(DockerErrorKind::ImageError { reason: reason.to_string() })
    }

    /// An error of kind [`DockerErrorKind::NetworkError`] with the given details.
    pub fn network_error(reason: &str) -> (e: Self)
        ensures
            *e.kind matches DockerErrorKind::NetworkError { reason: x_reason } && x_reason@ == reason@,
    {
        Self::new(DockerErrorKind::NetworkError { reason: reason.to_string() })
    }

    /// An error of kind [`DockerErrorKind::RuntimeError`] with the given details.
    pub fn runtime_error(reason: &str) -> (e: Self)
        ensures
            *e.kind matches DockerErrorKind::RuntimeError { reason: x_reason } && x_reason@ == reason@,
    {
        Self::new(DockerErrorKind::RuntimeError { reason: reason.to_string() })
    }

    /// An error of kind [`DockerErrorKind::RegistryError`] with the given details.
    pub fn registry_error(reason: &str) -> (e: Self)
        ensures
            *e.kind matches DockerErrorKind::RegistryError { reason: x_reason } && x_reason@ == reason@,
    {
        Self::new(DockerErrorKind::RegistryError { reason: reason.to_string() })
    }

    /// An error of kind [`DockerErrorKind::EtcdError`] with the given details.
    pub fn etcd_error(reason: &str) -> (e: Self)
        ensures
            *e.kind matches DockerErrorKind::EtcdError { reason: x_reason } && x_reason@ == reason@,
    {
        Self::new(DockerErrorKind::EtcdError { reason: reason.to_string() })
    }

    /// An error of kind [`DockerErrorKind::MonitorError`] with the given details.
    pub fn monitor_error(reason: &str) -> (e: Self)
        ensures
            *e.kind matches DockerErrorKind::MonitorError { reason: x_reason } && x_reason@ == reason@,
    {
        Self::new(DockerErrorKind::MonitorError { reason: reason.to_string() })
    }

    /// An error of kind [`DockerErrorKind::KubernetesError`] with the given details.
    pub fn kubernetes_error(reason: &str) -> (e: Self)
        ensures
            *e.kind matches DockerErrorKind::KubernetesError { reason: x_reason } && x_reason@ == reason@,
    {
        Self::new(DockerErrorKind::KubernetesError { reason: reason.to_string() })
    }

}


// ---------------------------------------------------------------------------
// Details of an error, for the translation of its message.

/// A value among the details of an error.
#[derive(Debug, Clone)]
pub enum DetailValue {
    /// A text.
    Text(String),
    /// A number.
    Number(u64),
    /// No value (`null`).
    Absent,
    /// A list of texts.
    List(Vec<String>),
}

/// The view of a detail value.
pub enum DetailView {
    /// A text.
    Text(Seq<char>),
    /// A number.
    Number(u64),
    /// No value.
    Absent,
    /// A list of texts.
    List(Seq<Seq<char>>),
}

impl DeepView for DetailValue {
    type V = DetailView;

    open spec fn deep_view(&self) -> DetailView {
        match self {
            DetailValue::Text(s) => DetailView::Text(s@),
            DetailValue::Number(n) => DetailView::Number(*n),
            DetailValue::Absent => DetailView::Absent,
            DetailValue::List(l) => DetailView::List(l.deep_view()),
        }
    }
}

/// A text when present, no value otherwise.
pub open spec fn opt_text(o: Option<Seq<char>>) -> DetailView {
    match o {
        Some(s) => DetailView::Text(s),
        None => DetailView::Absent,
    }
}

/// The named details of an error kind, in the order the kind declares them.
pub open spec fn i18n_data_spec(k: DockerErrorKind) -> Seq<(Seq<char>, DetailView)> {
    match k {
        DockerErrorKind::InvalidFormat { field, expected } => seq![("field"@, DetailView::Text(field@)), ("expected"@, DetailView::Text(expected@))],
        DockerErrorKind::OutOfRange { field, min, max } => seq![("field"@, DetailView::Text(field@)), ("min"@, opt_text(min.deep_view())), ("max"@, opt_text(max.deep_view()))],
        DockerErrorKind::Required { field } => seq![("field"@, DetailView::Text(field@))],
        DockerErrorKind::AlreadyExists { field, value } => seq![("field"@, DetailView::Text(field@)), ("value"@, DetailView::Text(value@))],
        DockerErrorKind::NotAllowed { field, allowed } => seq![("field"@, DetailView::Text(field@)), ("allowed"@, DetailView::List(allowed.deep_view()))],
        DockerErrorKind::InvalidParams { param, reason } => seq![("param"@, DetailView::Text(param@)), ("reason"@, DetailView::Text(reason@))],
        DockerErrorKind::InvalidCredentials => seq![],
        DockerErrorKind::AccountLocked => seq![],
        DockerErrorKind::UserNotFound { identifier } => seq![("identifier"@, DetailView::Text(identifier@))],
        DockerErrorKind::UserAlreadyExists { username } => seq![("username"@, DetailView::Text(username@))],
        DockerErrorKind::InvalidToken { reason } => seq![("reason"@, DetailView::Text(reason@))],
        DockerErrorKind::TokenExpired => seq![],
        DockerErrorKind::PermissionDenied { action } => seq![("action"@, DetailView::Text(action@))],
        DockerErrorKind::Forbidden { resource } => seq![("resource"@, DetailView::Text(resource@))],
        DockerErrorKind::ResourceNotFound { resource_type, identifier } => seq![("resource_type"@, DetailView::Text(resource_type@)), ("identifier"@, DetailView::Text(identifier@))],
        DockerErrorKind::ResourceConflict { resource, reason } => seq![("resource"@, DetailView::Text(resource@)), ("reason"@, DetailView::Text(reason@))],
        DockerErrorKind::RateLimited { limit } => seq![("limit"@, DetailView::Number(limit))],
        DockerErrorKind::ConnectionFailed { target } => seq![("target"@, DetailView::Text(target@))],
        DockerErrorKind::DnsResolutionFailed { host } => seq![("host"@, DetailView::Text(host@))],
        DockerErrorKind::ServiceUnavailable { service } => seq![("service"@, DetailView::Text(service@))],
        DockerErrorKind::StorageReadFailed { path } => seq![("path"@, DetailView::Text(path@))],
        DockerErrorKind::StorageWriteFailed { path } => seq![("path"@, DetailView::Text(path@))],
        DockerErrorKind::StorageDeleteFailed { path } => seq![("path"@, DetailView::Text(path@))],
        DockerErrorKind::InsufficientCapacity { required, available } => seq![("required"@, DetailView::Number(required)), ("available"@, DetailView::Number(available))],
        DockerErrorKind::StorageFileNotFound { path } => seq![("path"@, DetailView::Text(path@))],
        DockerErrorKind::ConfigMissing { key } => seq![("key"@, DetailView::Text(key@))],
        DockerErrorKind::ConfigInvalid { key, reason } => seq![("key"@, DetailView::Text(key@)), ("reason"@, DetailView::Text(reason@))],
        DockerErrorKind::InternalError { reason } => seq![("reason"@, DetailView::Text(reason@))],
        DockerErrorKind::NotImplemented { feature } => seq![("feature"@, DetailView::Text(feature@))],
        DockerErrorKind::IoError { operation, reason } => seq![("operation"@, DetailView::Text(operation@)), ("reason"@, DetailView::Text(reason@))],
        DockerErrorKind::JsonError { reason } => seq![("reason"@, DetailView::Text(reason@))],
        DockerErrorKind::ParseError { value_type, reason } => seq![("type"@, DetailView::Text(value_type@)), ("reason"@, DetailView::Text(reason@))],
        DockerErrorKind::RequestError { url, reason } => seq![("url"@, DetailView::Text(url@)), ("reason"@, DetailView::Text(reason@))],
        DockerErrorKind::ContainerError { reason } => seq![("reason"@, DetailView::Text(reason@))],
        DockerErrorKind::ImageError { reason } => seq![("reason"@, DetailView::Text(reason@))],
        DockerErrorKind::NetworkError { reason } => seq![("reason"@, DetailView::Text(reason@))],
        DockerErrorKind::RuntimeError { reason } => seq![("reason"@, DetailView::Text(reason@))],
        DockerErrorKind::RegistryError { reason } => seq![("reason"@, DetailView::Text(reason@))],
        DockerErrorKind::EtcdError { reason } => seq![("reason"@, DetailView::Text(reason@))],
        DockerErrorKind::MonitorError { reason } => seq![("reason"@, DetailView::Text(reason@))],
        DockerErrorKind::KubernetesError { reason } => seq![("reason"@, DetailView::Text(reason@))],
    }
}

/// A named detail.
fn detail(name: &str, value: DetailValue) -> (r: (String, DetailValue))
    ensures
        r.0@ == name@,
        r.1 == value,
{
    (name.to_string(), value)
}

/// A text when present, no value otherwise.
fn opt_value(o: &Option<String>) -> (r: DetailValue)
    ensures
        r.deep_view() == opt_text(o.deep_view()),
{
    match o {
        Some(s) => DetailValue::Text(s.clone()),
        None => DetailValue::Absent,
    }
}

/// A copy of a list of strings.
fn copy_strings(v: &Vec<String>) -> (r: Vec<String>)
    ensures
        r.deep_view() == v.deep_view(),
{
    let mut r: Vec<String> = Vec::new();
    let mut i: usize = 0;
    while i < v.len()
        invariant
            i <= v.len(),
            r.deep_view() == v.deep_view().take(i as int),
        decreases v.len() - i,
    {
        let ghost before = r.deep_view();
        r.push(v[i].clone());
        assert(r.deep_view() =~= before.push(v[i as int]@));
        assert(v.deep_view().take(i + 1) =~= v.deep_view().take(i as int).push(v[i as int]@));
        i = i + 1;
    }
    assert(v.deep_view().take(v.len() as int) =~= v.deep_view());
    r
}

impl DockerErrorKind {
    /// The named details of this error, from which its translated message
    /// is built.
    pub fn i18n_data(&self) -> (r: Vec<(String, DetailValue)>)
        ensures
            r.deep_view() == i18n_data_spec(*self),
    {
        let r = match self {
            DockerErrorKind::InvalidFormat { field, expected } => {
                let mut v: Vec<(String, DetailValue)> = Vec::new();
                v.push(detail("field", DetailValue::Text(field.clone())));
                v.push(detail("expected", DetailValue::Text(expected.clone())));
                v
            },
            DockerErrorKind::OutOfRange { field, min, max } => {
                let mut v: Vec<(String, DetailValue)> = Vec::new();
                v.push(detail("field", DetailValue::Text(field.clone())));
                v.push(detail("min", opt_value(min)));
                v.push(detail("max", opt_value(max)));
                v
            },
            DockerErrorKind::Required { field } => {
                let mut v: Vec<(String, DetailValue)> = Vec::new();
                v.push(detail("field", DetailValue::Text(field.clone())));
                v
            },
            DockerErrorKind::AlreadyExists { field, value } => {
                let mut v: Vec<(String, DetailValue)> = Vec::new();
                v.push(detail("field", DetailValue::Text(field.clone())));
                v.push(detail("value", DetailValue::Text(value.clone())));
                v
            },
            DockerErrorKind::NotAllowed { field, allowed } => {
                let mut v: Vec<(String, DetailValue)> = Vec::new();
                v.push(detail("field", DetailValue::Text(field.clone())));
                v.push(detail("allowed", DetailValue::List(copy_strings(allowed))));
                v
            },
            DockerErrorKind::InvalidParams { param, reason } => {
                let mut v: Vec<(String, DetailValue)> = Vec::new();
                v.push(detail("param", DetailValue::Text(param.clone())));
                v.push(detail("reason", DetailValue::Text(reason.clone())));
                v
            },
            DockerErrorKind::InvalidCredentials => {
                let mut v: Vec<(String, DetailValue)> = Vec::new();
                v
            },
            DockerErrorKind::AccountLocked => {
                let mut v: Vec<(String, DetailValue)> = Vec::new();
                v
            },
            DockerErrorKind::UserNotFound { identifier } => {
                let mut v: Vec<(String, DetailValue)> = Vec::new();
                v.push(detail("identifier", DetailValue::Text(identifier.clone())));
                v
            },
            DockerErrorKind::UserAlreadyExists { username } => {
                let mut v: Vec<(String, DetailValue)> = Vec::new();
                v.push(detail("username", DetailValue::Text(username.clone())));
                v
            },
            DockerErrorKind::InvalidToken { reason } => {
                let mut v: Vec<(String, DetailValue)> = Vec::new();
                v.push(detail("reason", DetailValue::Text(reason.clone())));
                v
            },
            DockerErrorKind::TokenExpired => {
                let mut v: Vec<(String, DetailValue)> = Vec::new();
                v
            },
            DockerErrorKind::PermissionDenied { action } => {
                let mut v: Vec<(String, DetailValue)> = Vec::new();
                v.push(detail("action", DetailValue::Text(action.clone())));
                v
            },
            DockerErrorKind::Forbidden { resource } => {
                let mut v: Vec<(String, DetailValue)> = Vec::new();
                v.push(detail("resource", DetailValue::Text(resource.clone())));
                v
            },
            DockerErrorKind::ResourceNotFound { resource_type, identifier } => {
                let mut v: Vec<(String, DetailValue)> = Vec::new();
                v.push(detail("resource_type", DetailValue::Text(resource_type.clone())));
                v.push(detail("identifier", DetailValue::Text(identifier.clone())));
                v
            },
            DockerErrorKind::ResourceConflict { resource, reason } => {
                let mut v: Vec<(String, DetailValue)> = Vec::new();
                v.push(detail("resource", DetailValue::Text(resource.clone())));
                v.push(detail("reason", DetailValue::Text(reason.clone())));
                v
            },
            DockerErrorKind::RateLimited { limit } => {
                let mut v: Vec<(String, DetailValue)> = Vec::new();
                v.push(detail("limit", DetailValue::Number(*limit)));
                v
            },
            DockerErrorKind::ConnectionFailed { target } => {
                let mut v: Vec<(String, DetailValue)> = Vec::new();
                v.push(detail("target", DetailValue::Text(target.clone())));
                v
            },
            DockerErrorKind::DnsResolutionFailed { host } => {
                let mut v: Vec<(String, DetailValue)> = Vec::new();
                v.push(detail("host", DetailValue::Text(host.clone())));
                v
            },
            DockerErrorKind::ServiceUnavailable { service } => {
                let mut v: Vec<(String, DetailValue)> = Vec::new();
                v.push(detail("service", DetailValue::Text(service.clone())));
                v
            },
            DockerErrorKind::StorageReadFailed { path } => {
                let mut v: Vec<(String, DetailValue)> = Vec::new();
                v.push(detail("path", DetailValue::Text(path.clone())));
                v
            },
            DockerErrorKind::StorageWriteFailed { path } => {
                let mut v: Vec<(String, DetailValue)> = Vec::new();
                v.push(detail("path", DetailValue::Text(path.clone())));
                v
            },
            DockerErrorKind::StorageDeleteFailed { path } => {
                let mut v: Vec<(String, DetailValue)> = Vec::new();
                v.push(detail("path", DetailValue::Text(path.clone())));
                v
            },
            DockerErrorKind::InsufficientCapacity { required, available } => {
                let mut v: Vec<(String, DetailValue)> = Vec::new();
                v.push(detail("required", DetailValue::Number(*required)));
                v.push(detail("available", DetailValue::Number(*available)));
                v
            },
            DockerErrorKind::StorageFileNotFound { path } => {
                let mut v: Vec<(String, DetailValue)> = Vec::new();
                v.push(detail("path", DetailValue::Text(path.clone())));
                v
            },
            DockerErrorKind::ConfigMissing { key } => {
                let mut v: Vec<(String, DetailValue)> = Vec::new();
                v.push(detail("key", DetailValue::Text(key.clone())));
                v
            },
            DockerErrorKind::ConfigInvalid { key, reason } => {
                let mut v: Vec<(String, DetailValue)> = Vec::new();
                v.push(detail("key", DetailValue::Text(key.clone())));
                v.push(detail("reason", DetailValue::Text(reason.clone())));
                v
            },
            DockerErrorKind::InternalError { reason } => {
                let mut v: Vec<(String, DetailValue)> = Vec::new();
                v.push(detail("reason", DetailValue::Text(reason.clone())));
                v
            },
            DockerErrorKind::NotImplemented { feature } => {
                let mut v: Vec<(String, DetailValue)> = Vec::new();
                v.push(detail("feature", DetailValue::Text(feature.clone())));
                v
            },
            DockerErrorKind::IoError { operation, reason } => {
                let mut v: Vec<(String, DetailValue)> = Vec::new();
                v.push(detail("operation", DetailValue::Text(operation.clone())));
                v.push(detail("reason", DetailValue::Text(reason.clone())));
                v
            },
            DockerErrorKind::JsonError { reason } => {
                let mut v: Vec<(String, DetailValue)> = Vec::new();
                v.push(detail("reason", DetailValue::Text(reason.clone())));
                v
            },
            DockerErrorKind::ParseError { value_type, reason } => {
                let mut v: Vec<(String, DetailValue)> = Vec::new();
                v.push(detail("type", DetailValue::Text(value_type.clone())));
                v.push(detail("reason", DetailValue::Text(reason.clone())));
                v
            },
            DockerErrorKind::RequestError { url, reason } => {
                let mut v: Vec<(String, DetailValue)> = Vec::new();
                v.push(detail("url", DetailValue::Text(url.clone())));
                v.push(detail("reason", DetailValue::Text(reason.clone())));
                v
            },
            DockerErrorKind::ContainerError { reason } => {
                let mut v: Vec<(String, DetailValue)> = Vec::new();
                v.push(detail("reason", DetailValue::Text(reason.clone())));
                v
            },
            DockerErrorKind::ImageError { reason } => {
                let mut v: Vec<(String, DetailValue)> = Vec::new();
                v.push(detail("reason", DetailValue::Text(reason.clone())));
                v
            },
            DockerErrorKind::NetworkError { reason } => {
                let mut v: Vec<(String, DetailValue)> = Vec::new();
                v.push(detail("reason", DetailValue::Text(reason.clone())));
                v
            },
            DockerErrorKind::RuntimeError { reason } => {
                let mut v: Vec<(String, DetailValue)> = Vec::new();
                v.push(detail("reason", DetailValue::Text(reason.clone())));
                v
            },
            DockerErrorKind::RegistryError { reason } => {
                let mut v: Vec<(String, DetailValue)> = Vec::new();
                v.push(detail("reason", DetailValue::Text(reason.clone())));
                v
            },
            DockerErrorKind::EtcdError { reason } => {
                let mut v: Vec<(String, DetailValue)> = Vec::new();
                v.push(detail("reason", DetailValue::Text(reason.clone())));
                v
            },
            DockerErrorKind::MonitorError { reason } => {
                let mut v: Vec<(String, DetailValue)> = Vec::new();
                v.push(detail("reason", DetailValue::Text(reason.clone())));
                v
            },
            DockerErrorKind::KubernetesError { reason } => {
                let mut v: Vec<(String, DetailValue)> = Vec::new();
                v.push(detail("reason", DetailValue::Text(reason.clone())));
                v
            },
        };
        assert(r.deep_view() =~= i18n_data_spec(*self));
        r
    }
}

impl DockerError {
    /// The named details of this error.
    pub fn i18n_data(&self) -> (r: Vec<(String, DetailValue)>)
        ensures
            r.deep_view() == i18n_data_spec(*self.kind),
    {
        self.kind.i18n_data()
    }
}

} // verus!
