//! Error values of the runtime, the RPC layer and the event sinks.
use vstd::prelude::*;
use crate::json::{JsonValue, json_eq};
use crate::text::concat;

verus! {

/// JSON-RPC error object carried by a server error.
#[derive(Debug, PartialEq)]
pub struct RpcErrorObject {
    pub code: i64,
    pub message: String,
    pub data: Option<JsonValue>,
}

#[derive(Debug, PartialEq, Eq)]
pub enum RuntimeError {
    NotInitialized,
    AlreadyInitialized,
    InvalidConfig(String),
    TransportClosed,
    ProcessExited,
    Timeout,
    ServerRequestReceiverTaken,
    Internal(String),
}

#[derive(Debug, PartialEq)]
pub enum RpcError {
    Overloaded,
    Timeout,
    InvalidRequest(String),
    MethodNotFound(String),
    ServerError(RpcErrorObject),
    TransportClosed,
}

#[derive(Debug, PartialEq, Eq)]
pub enum SinkError {
    Io(String),
    Serialize(String),
    Internal(String),
}

pub open spec fn opt_json_eq(a: Option<JsonValue>, b: Option<JsonValue>) -> bool {
    match (a, b) {
        (Some(x), Some(y)) => json_eq(x, y),
        (None, None) => true,
        _ => false,
    }
}

/// Same error: same variant, same text, same code and equal data.
pub open spec fn rpc_error_eq(a: RpcError, b: RpcError) -> bool {
    match (a, b) {
        (RpcError::Overloaded, RpcError::Overloaded) => true,
        (RpcError::Timeout, RpcError::Timeout) => true,
        (RpcError::TransportClosed, RpcError::TransportClosed) => true,
        (RpcError::InvalidRequest(x), RpcError::InvalidRequest(y)) => x@ == y@,
        (RpcError::MethodNotFound(x), RpcError::MethodNotFound(y)) => x@ == y@,
        (RpcError::ServerError(x), RpcError::ServerError(y)) => x.code == y.code && x.message@
            == y.message@ && opt_json_eq(x.data, y.data),
        _ => false,
    }
}

/// Every optional document equals itself.
pub proof fn lemma_opt_json_eq_refl(a: Option<JsonValue>)
    ensures
        opt_json_eq(a, a),
{
    match a {
        Some(x) => crate::json::lemma_json_eq_refl(x),
        None => {},
    }
}

/// Equality of optional documents is transitive.
pub proof fn lemma_opt_json_eq_transitive(a: Option<JsonValue>, b: Option<JsonValue>, c: Option<JsonValue>)
    requires
        opt_json_eq(a, b),
        opt_json_eq(b, c),
    ensures
        opt_json_eq(a, c),
{
    match (a, b, c) {
        (Some(x), Some(y), Some(z)) => crate::json::lemma_json_eq_trans(x, y, z),
        _ => {},
    }
}

pub fn clone_opt_json(v: &Option<JsonValue>) -> (r: Option<JsonValue>)
    ensures
        opt_json_eq(*v, r),
{
    match v {
        Some(x) => Some(x.deep_clone()),
        None => None,
    }
}

impl Clone for RpcErrorObject {
    fn clone(&self) -> (r: Self)
        ensures
            r.code == self.code,
            r.message == self.message,
            opt_json_eq(self.data, r.data),
    {
        RpcErrorObject { code: self.code, message: self.message.clone(), data: clone_opt_json(&self.data) }
    }
}

impl Clone for RpcError {
    fn clone(&self) -> (r: Self)
        ensures
            rpc_error_eq(*self, r),
    {
        match self {
            RpcError::Overloaded => RpcError::Overloaded,
            RpcError::Timeout => RpcError::Timeout,
            RpcError::InvalidRequest(s) => RpcError::InvalidRequest(s.clone()),
            RpcError::MethodNotFound(s) => RpcError::MethodNotFound(s.clone()),
            RpcError::ServerError(o) => RpcError::ServerError(o.clone()),
            RpcError::TransportClosed => RpcError::TransportClosed,
        }
    }
}

impl Clone for RuntimeError {
    fn clone(&self) -> (r: Self)
        ensures
            r == *self,
    {
        match self {
            RuntimeError::NotInitialized => RuntimeError::NotInitialized,
            RuntimeError::AlreadyInitialized => RuntimeError::AlreadyInitialized,
            RuntimeError::InvalidConfig(s) => RuntimeError::InvalidConfig(s.clone()),
            RuntimeError::TransportClosed => RuntimeError::TransportClosed,
            RuntimeError::ProcessExited => RuntimeError::ProcessExited,
            RuntimeError::Timeout => RuntimeError::Timeout,
            RuntimeError::ServerRequestReceiverTaken => RuntimeError::ServerRequestReceiverTaken,
            RuntimeError::Internal(s) => RuntimeError::Internal(s.clone()),
        }
    }
}

impl Clone for SinkError {
    fn clone(&self) -> (r: Self)
        ensures
            r == *self,
    {
        match self {
            SinkError::Io(s) => SinkError::Io(s.clone()),
            SinkError::Serialize(s) => SinkError::Serialize(s.clone()),
            SinkError::Internal(s) => SinkError::Internal(s.clone()),
        }
    }
}

/// Human-readable text of a runtime error.
pub open spec fn runtime_error_text(e: RuntimeError) -> Seq<char> {
    match e {
        RuntimeError::NotInitialized => "runtime is not initialized"@,
        RuntimeError::AlreadyInitialized => "runtime is already initialized"@,
        RuntimeError::InvalidConfig(s) => "invalid config: "@ + s@,
        RuntimeError::TransportClosed => "transport is closed"@,
        RuntimeError::ProcessExited => "child process exited"@,
        RuntimeError::Timeout => "request timed out"@,
        RuntimeError::ServerRequestReceiverTaken => "server request receiver already taken"@,
        RuntimeError::Internal(s) => "internal error: "@ + s@,
    }
}

impl RuntimeError {
    /// The error's message text.
    pub fn message(&self) -> (r: String)
        ensures
            r@ == runtime_error_text(*self),
    {
        match self {
            RuntimeError::NotInitialized => "runtime is not initialized".to_owned(),
            RuntimeError::AlreadyInitialized => "runtime is already initialized".to_owned(),
            RuntimeError::InvalidConfig(s) => concat("invalid config: ", s.as_str()),
            RuntimeError::TransportClosed => "transport is closed".to_owned(),
            RuntimeError::ProcessExited => "child process exited".to_owned(),
            RuntimeError::Timeout => "request timed out".to_owned(),
            RuntimeError::ServerRequestReceiverTaken => "server request receiver already taken".to_owned(),
            RuntimeError::Internal(s) => concat("internal error: ", s.as_str()),
        }
    }
}

} // verus!
