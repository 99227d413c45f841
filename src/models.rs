//! The plain request and response records of the ledger's HTTP interface
//! that live next to the gateway.

use vstd::prelude::*;

use std::collections::HashMap;

use crate::gateway::StartError;
use crate::messages::AddressJson;
use crate::router::{FrameFault, StoreFault};
use crate::session::WebSocketServerError;

verus! {

/// A machine-readable error code, as sent in the `error` field of an error
/// answer.
pub trait KromerErrorHelper {
    spec fn error_code(&self) -> Seq<char>;

    fn error_type(&self) -> (r: &'static str)
        ensures
            r@ == self.error_code(),
    ;
}

impl KromerErrorHelper for WebSocketServerError {
    open spec fn error_code(&self) -> Seq<char> {
        match self {
            WebSocketServerError::TokenNotFound => "invalid_websocket_token"@,
            WebSocketServerError::NoFreshId => "internal_server_error"@,
        }
    }

    fn error_type(&self) -> (r: &'static str) {
        match self {
            WebSocketServerError::TokenNotFound => "invalid_websocket_token",
            WebSocketServerError::NoFreshId => "internal_server_error",
        }
    }
}

impl KromerErrorHelper for StartError {
    open spec fn error_code(&self) -> Seq<char> {
        match self {
            StartError::AuthFailed => "auth_failed"@,
            StartError::NoFreshId => "internal_server_error"@,
        }
    }

    fn error_type(&self) -> (r: &'static str) {
        match self {
            StartError::AuthFailed => "auth_failed",
            StartError::NoFreshId => "internal_server_error",
        }
    }
}

impl KromerErrorHelper for StoreFault {
    open spec fn error_code(&self) -> Seq<char> {
        "database_error"@
    }

    fn error_type(&self) -> (r: &'static str) {
        "database_error"
    }
}

impl KromerErrorHelper for FrameFault {
    open spec fn error_code(&self) -> Seq<char> {
        crate::router::fault_code(*self)
    }

    fn error_type(&self) -> (r: &'static str) {
        match self {
            FrameFault::Malformed => "syntax_error",
            FrameFault::UnknownType => "invalid_message_type",
            FrameFault::ServerOnlyType => "invalid_message_type",
            FrameFault::MissingParameter => "missing_parameter",
            FrameFault::InvalidParameter => "invalid_parameter",
        }
    }
}

/// An error answer of the HTTP interface.
#[derive(Debug)]
pub struct ErrorResponse {
    pub ok: bool,
    pub error: String,
    pub message: Option<String>,
}

impl ErrorResponse {
    /// The answer for `error`, with an optional human-readable message.
    pub fn from_error<E: KromerErrorHelper>(error: &E, message: Option<String>) -> (r: ErrorResponse)
        ensures
            !r.ok,
            r.error@ == error.error_code(),
            r.message == message,
    {
        ErrorResponse { ok: false, error: crate::text::owned(error.error_type()), message }
    }
}

/// The answer to a credential check.
#[derive(Debug)]
pub struct LoginResponse {
    pub ok: bool,
    pub authed: bool,
    pub address: String,
}

/// Whether a name can still be registered.
#[derive(Debug)]
pub struct NameAvailabilityResponse {
    pub ok: bool,
    pub available: bool,
}

/// A row count.
#[derive(Debug, Clone, Copy, PartialEq, Eq, Structural)]
pub struct CountResponse {
    pub count: usize,
}

/// The wallet protocol version the server speaks.
#[derive(Debug, Clone, Copy, PartialEq, Eq, Structural)]
pub struct WalletVersionResponse {
    pub ok: bool,
    pub wallet_version: u8,
}

/// Paging and filtering of an address's transactions.
#[derive(Debug, Clone, Copy, PartialEq, Eq, Structural)]
pub struct AddressTransactionQuery {
    pub limit: Option<usize>,
    pub offset: Option<usize>,
    pub include_mined: Option<bool>,
}

/// The answer to a lookup of several addresses.
#[derive(Debug)]
pub struct AddressLookupResponse {
    pub ok: bool,
    pub found: usize,
    pub not_found: usize,
    pub addresses: HashMap<String, AddressJson>,
}

/// The id of a session, as an internal query names it.
#[derive(Debug)]
pub struct SessionQuery {
    pub session: String,
}

/// Paging of a listing.
#[derive(Debug, Clone, Copy, PartialEq, Eq, Structural)]
pub struct PaginationParams {
    pub limit: Option<u64>,
    pub offset: Option<u64>,
}

impl Default for PaginationParams {
    /// The first fifty entries.
    fn default() -> (r: PaginationParams)
        ensures
            r == (PaginationParams { limit: Some(50), offset: Some(0) }),
    {
        PaginationParams { limit: Some(50), offset: Some(0) }
    }
}

} // verus!
