//! Error codes and the error value carried by fallible operations.
use crate::text::{debug_format, debug_text};
use vstd::prelude::*;
use vstd::string::*;

verus! {

/// Stable classification of every refusal.
#[derive(Clone, Copy, Debug, PartialEq, Eq, Structural)]
pub enum ErrorCode {
    AlreadyInitialized,
    NotInitialized,
    Unauthorized,
    UnauthorizedAttestor,
    AttestorAlreadyRegistered,
    AttestorNotRegistered,
    AttestorRevoked,
    AttestorCapacityExceeded,
    AttestationNotFound,
    AuditLogNotFound,
    BatchSizeExceeded,
    CacheCapacityExceeded,
    CacheExpired,
    CacheNotFound,
    ComplianceNotMet,
    EndpointNotSet,
    IllegalTransition,
    InvalidAssetCode,
    InvalidEndpointFormat,
    InvalidQuote,
    InvalidSep10Token,
    InvalidServiceType,
    InvalidTimestamp,
    InvalidWeights,
    KycExpired,
    KycNotFound,
    KycPending,
    KycRejected,
    NoQuotesAvailable,
    QuoteExpired,
    QuoteNotFound,
    RateLimitExceeded,
    ReplayAttack,
    ServicesNotConfigured,
    SessionClosed,
    SessionExpired,
    SessionNotFound,
    SessionOperationLimitExceeded,
    SignatureVerificationFailed,
    StaleQuote,
    TransactionNotFound,
    UnsupportedCapabilityVersion,
    ValidationError,
    WebhookUrlNotSet,
}

impl ErrorCode {
    /// The name of the code.
    pub open spec fn named(self) -> Seq<char> {
        match self {
            ErrorCode::AlreadyInitialized => "AlreadyInitialized"@,
            ErrorCode::NotInitialized => "NotInitialized"@,
            ErrorCode::Unauthorized => "Unauthorized"@,
            ErrorCode::UnauthorizedAttestor => "UnauthorizedAttestor"@,
            ErrorCode::AttestorAlreadyRegistered => "AttestorAlreadyRegistered"@,
            ErrorCode::AttestorNotRegistered => "AttestorNotRegistered"@,
            ErrorCode::AttestorRevoked => "AttestorRevoked"@,
            ErrorCode::AttestorCapacityExceeded => "AttestorCapacityExceeded"@,
            ErrorCode::AttestationNotFound => "AttestationNotFound"@,
            ErrorCode::AuditLogNotFound => "AuditLogNotFound"@,
            ErrorCode::BatchSizeExceeded => "BatchSizeExceeded"@,
            ErrorCode::CacheCapacityExceeded => "CacheCapacityExceeded"@,
            ErrorCode::CacheExpired => "CacheExpired"@,
            ErrorCode::CacheNotFound => "CacheNotFound"@,
            ErrorCode::ComplianceNotMet => "ComplianceNotMet"@,
            ErrorCode::EndpointNotSet => "EndpointNotSet"@,
            ErrorCode::IllegalTransition => "IllegalTransition"@,
            ErrorCode::InvalidAssetCode => "InvalidAssetCode"@,
            ErrorCode::InvalidEndpointFormat => "InvalidEndpointFormat"@,
            ErrorCode::InvalidQuote => "InvalidQuote"@,
            ErrorCode::InvalidSep10Token => "InvalidSep10Token"@,
            ErrorCode::InvalidServiceType => "InvalidServiceType"@,
            ErrorCode::InvalidTimestamp => "InvalidTimestamp"@,
            ErrorCode::InvalidWeights => "InvalidWeights"@,
            ErrorCode::KycExpired => "KycExpired"@,
            ErrorCode::KycNotFound => "KycNotFound"@,
            ErrorCode::KycPending => "KycPending"@,
            ErrorCode::KycRejected => "KycRejected"@,
            ErrorCode::NoQuotesAvailable => "NoQuotesAvailable"@,
            ErrorCode::QuoteExpired => "QuoteExpired"@,
            ErrorCode::QuoteNotFound => "QuoteNotFound"@,
            ErrorCode::RateLimitExceeded => "RateLimitExceeded"@,
            ErrorCode::ReplayAttack => "ReplayAttack"@,
            ErrorCode::ServicesNotConfigured => "ServicesNotConfigured"@,
            ErrorCode::SessionClosed => "SessionClosed"@,
            ErrorCode::SessionExpired => "SessionExpired"@,
            ErrorCode::SessionNotFound => "SessionNotFound"@,
            ErrorCode::SessionOperationLimitExceeded => "SessionOperationLimitExceeded"@,
            ErrorCode::SignatureVerificationFailed => "SignatureVerificationFailed"@,
            ErrorCode::StaleQuote => "StaleQuote"@,
            ErrorCode::TransactionNotFound => "TransactionNotFound"@,
            ErrorCode::UnsupportedCapabilityVersion => "UnsupportedCapabilityVersion"@,
            ErrorCode::ValidationError => "ValidationError"@,
            ErrorCode::WebhookUrlNotSet => "WebhookUrlNotSet"@,
        }
    }

    /// The name of the code.
    pub fn name(self) -> (s: &'static str)
        ensures
            s@ == self.named(),
    {
        match self {
            ErrorCode::AlreadyInitialized => "AlreadyInitialized",
            ErrorCode::NotInitialized => "NotInitialized",
            ErrorCode::Unauthorized => "Unauthorized",
            ErrorCode::UnauthorizedAttestor => "UnauthorizedAttestor",
            ErrorCode::AttestorAlreadyRegistered => "AttestorAlreadyRegistered",
            ErrorCode::AttestorNotRegistered => "AttestorNotRegistered",
            ErrorCode::AttestorRevoked => "AttestorRevoked",
            ErrorCode::AttestorCapacityExceeded => "AttestorCapacityExceeded",
            ErrorCode::AttestationNotFound => "AttestationNotFound",
            ErrorCode::AuditLogNotFound => "AuditLogNotFound",
            ErrorCode::BatchSizeExceeded => "BatchSizeExceeded",
            ErrorCode::CacheCapacityExceeded => "CacheCapacityExceeded",
            ErrorCode::CacheExpired => "CacheExpired",
            ErrorCode::CacheNotFound => "CacheNotFound",
            ErrorCode::ComplianceNotMet => "ComplianceNotMet",
            ErrorCode::EndpointNotSet => "EndpointNotSet",
            ErrorCode::IllegalTransition => "IllegalTransition",
            ErrorCode::InvalidAssetCode => "InvalidAssetCode",
            ErrorCode::InvalidEndpointFormat => "InvalidEndpointFormat",
            ErrorCode::InvalidQuote => "InvalidQuote",
            ErrorCode::InvalidSep10Token => "InvalidSep10Token",
            ErrorCode::InvalidServiceType => "InvalidServiceType",
            ErrorCode::InvalidTimestamp => "InvalidTimestamp",
            ErrorCode::InvalidWeights => "InvalidWeights",
            ErrorCode::KycExpired => "KycExpired",
            ErrorCode::KycNotFound => "KycNotFound",
            ErrorCode::KycPending => "KycPending",
            ErrorCode::KycRejected => "KycRejected",
            ErrorCode::NoQuotesAvailable => "NoQuotesAvailable",
            ErrorCode::QuoteExpired => "QuoteExpired",
            ErrorCode::QuoteNotFound => "QuoteNotFound",
            ErrorCode::RateLimitExceeded => "RateLimitExceeded",
            ErrorCode::ReplayAttack => "ReplayAttack",
            ErrorCode::ServicesNotConfigured => "ServicesNotConfigured",
            ErrorCode::SessionClosed => "SessionClosed",
            ErrorCode::SessionExpired => "SessionExpired",
            ErrorCode::SessionNotFound => "SessionNotFound",
            ErrorCode::SessionOperationLimitExceeded => "SessionOperationLimitExceeded",
            ErrorCode::SignatureVerificationFailed => "SignatureVerificationFailed",
            ErrorCode::StaleQuote => "StaleQuote",
            ErrorCode::TransactionNotFound => "TransactionNotFound",
            ErrorCode::UnsupportedCapabilityVersion => "UnsupportedCapabilityVersion",
            ErrorCode::ValidationError => "ValidationError",
            ErrorCode::WebhookUrlNotSet => "WebhookUrlNotSet",
        }
    }
}

/// An error code with a message and, where one helps, the offending field.
#[derive(Clone, Debug)]
pub struct AnchorKitError {
    pub code: ErrorCode,
    pub message: String,
    pub context: Option<String>,
}

impl AnchorKitError {
    /// Whether this is a validation error about exactly `context`.
    pub open spec fn is_validation(self, context: Seq<char>) -> bool {
        &&& self.code == ErrorCode::ValidationError
        &&& self.context is Some
        &&& self.context->0@ == context
    }

    /// Whether this carries `code` and `message` and no context.
    pub open spec fn is_plain(self, code: ErrorCode, message: Seq<char>) -> bool {
        &&& self.code == code
        &&& self.message@ == message
        &&& self.context is None
    }

    /// The error as it stands in a log: each part by its name, texts quoted.
    pub open spec fn described(self) -> Seq<char> {
        "AnchorKitError { code: "@ + self.code.named() + ", message: "@ + debug_text(self.message@)
            + ", context: "@ + (match self.context {
            Some(c) => "Some("@ + debug_text(c@) + ")"@,
            None => "None"@,
        }) + " }"@
    }

    /// The error as it stands in a log.
    pub fn describe(&self) -> (s: String)
        ensures
            s@ == self.described(),
    {
        let mut s: String = "AnchorKitError { code: ".to_owned();
        s.append(self.code.name());
        s.append(", message: ");
        s.append(debug_format(self.message.as_str()).as_str());
        s.append(", context: ");
        match &self.context {
            Some(c) => {
                let mut inner: String = "Some(".to_owned();
                inner.append(debug_format(c.as_str()).as_str());
                inner.append(")");
                s.append(inner.as_str());
            },
            None => {
                s.append("None");
            },
        }
        s.append(" }");
        s
    }

    /// An error without context.
    pub fn new(code: ErrorCode, message: &str) -> (e: Self)
        ensures
            e.is_plain(code, message@),
    {
        AnchorKitError { code, message: message.to_owned(), context: None }
    }

    /// A validation error about `context`.
    pub fn validation_error(context: &str) -> (e: Self)
        ensures
            e.is_validation(context@),
            e.message@ == "validation error"@,
    {
        AnchorKitError {
            code: ErrorCode::ValidationError,
            message: "validation error".to_owned(),
            context: Some(context.to_owned()),
        }
    }

    /// No entry is cached under the requested key.
    pub fn cache_not_found() -> (e: Self)
        ensures
            e.is_plain(ErrorCode::CacheNotFound, "cache entry not found"@),
    {
        AnchorKitError::new(ErrorCode::CacheNotFound, "cache entry not found")
    }

    /// No further entry fits.
    pub fn cache_capacity_exceeded() -> (e: Self)
        ensures
            e.is_plain(ErrorCode::CacheCapacityExceeded, "cache capacity exceeded"@),
    {
        AnchorKitError::new(ErrorCode::CacheCapacityExceeded, "cache capacity exceeded")
    }
}

} // verus!
