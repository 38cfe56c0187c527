//! Validation of the runtime's capacities and state projection limits.
use vstd::prelude::*;
use std::time::Duration;
use crate::errors::RuntimeError;
use crate::time::{duration_is_zero, zero_duration};

verus! {

/// Bounds on the state kept per thread, turn and item.
#[derive(Clone, Copy, Debug, PartialEq, Eq, Structural)]
pub struct StateProjectionLimits {
    pub max_threads: usize,
    pub max_turns_per_thread: usize,
    pub max_items_per_turn: usize,
    pub max_text_bytes_per_item: usize,
    pub max_stdout_bytes_per_item: usize,
    pub max_stderr_bytes_per_item: usize,
}

pub open spec fn config_error(r: Result<(), RuntimeError>, m: Seq<char>) -> bool {
    r matches Err(RuntimeError::InvalidConfig(x)) && x@ == m
}

/// Channel capacities must be positive (the event sink's only when a sink is
/// configured) and the response timeout must not be zero; the first
/// violation is reported.
pub fn validate_runtime_capacities(
    live_channel_capacity: usize,
    server_request_channel_capacity: usize,
    has_event_sink: bool,
    event_sink_channel_capacity: usize,
    rpc_response_timeout: Duration,
) -> (r: Result<(), RuntimeError>)
    ensures
        live_channel_capacity == 0 ==> config_error(r, "live_channel_capacity must be > 0"@),
        live_channel_capacity > 0 && server_request_channel_capacity == 0 ==> config_error(
            r,
            "server_request_channel_capacity must be > 0"@,
        ),
        live_channel_capacity > 0 && server_request_channel_capacity > 0 && has_event_sink
            && event_sink_channel_capacity == 0 ==> config_error(
            r,
            "event_sink_channel_capacity must be > 0 when event_sink is configured"@,
        ),
        live_channel_capacity > 0 && server_request_channel_capacity > 0 && !(has_event_sink
            && event_sink_channel_capacity == 0) ==> (if zero_duration(rpc_response_timeout) {
            config_error(r, "rpc_response_timeout must be > 0"@)
        } else {
            r is Ok
        }),
{
    if live_channel_capacity == 0 {
        return Err(RuntimeError::InvalidConfig("live_channel_capacity must be > 0".to_owned()));
    }
    if server_request_channel_capacity == 0 {
        return Err(RuntimeError::InvalidConfig("server_request_channel_capacity must be > 0".to_owned()));
    }
    if has_event_sink && event_sink_channel_capacity == 0 {
        return Err(
            RuntimeError::InvalidConfig(
                "event_sink_channel_capacity must be > 0 when event_sink is configured".to_owned(),
            ),
        );
    }
    if duration_is_zero(&rpc_response_timeout) {
        return Err(RuntimeError::InvalidConfig("rpc_response_timeout must be > 0".to_owned()));
    }
    Ok(())
}

/// Every projection limit must be positive; the first zero one is reported.
pub fn validate_state_projection_limits(limits: &StateProjectionLimits) -> (r: Result<(), RuntimeError>)
    ensures
        limits.max_threads == 0 ==> config_error(r, "state_projection_limits.max_threads must be > 0"@),
        limits.max_threads > 0 && limits.max_turns_per_thread == 0 ==> config_error(
            r,
            "state_projection_limits.max_turns_per_thread must be > 0"@,
        ),
        limits.max_threads > 0 && limits.max_turns_per_thread > 0 && limits.max_items_per_turn == 0
            ==> config_error(r, "state_projection_limits.max_items_per_turn must be > 0"@),
        limits.max_threads > 0 && limits.max_turns_per_thread > 0 && limits.max_items_per_turn > 0
            && limits.max_text_bytes_per_item == 0 ==> config_error(
            r,
            "state_projection_limits.max_text_bytes_per_item must be > 0"@,
        ),
        limits.max_threads > 0 && limits.max_turns_per_thread > 0 && limits.max_items_per_turn > 0
            && limits.max_text_bytes_per_item > 0 && limits.max_stdout_bytes_per_item == 0
            ==> config_error(r, "state_projection_limits.max_stdout_bytes_per_item must be > 0"@),
        limits.max_threads > 0 && limits.max_turns_per_thread > 0 && limits.max_items_per_turn > 0
            && limits.max_text_bytes_per_item > 0 && limits.max_stdout_bytes_per_item > 0
            && limits.max_stderr_bytes_per_item == 0 ==> config_error(
            r,
            "state_projection_limits.max_stderr_bytes_per_item must be > 0"@,
        ),
        limits.max_threads > 0 && limits.max_turns_per_thread > 0 && limits.max_items_per_turn > 0
            && limits.max_text_bytes_per_item > 0 && limits.max_stdout_bytes_per_item > 0
            && limits.max_stderr_bytes_per_item > 0 ==> r is Ok,
{
    if limits.max_threads == 0 {
        return Err(RuntimeError::InvalidConfig("state_projection_limits.max_threads must be > 0".to_owned()));
    }
    if limits.max_turns_per_thread == 0 {
        return Err(
            RuntimeError::InvalidConfig("state_projection_limits.max_turns_per_thread must be > 0".to_owned()),
        );
    }
    if limits.max_items_per_turn == 0 {
        return Err(
            RuntimeError::InvalidConfig("state_projection_limits.max_items_per_turn must be > 0".to_owned()),
        );
    }
    if limits.max_text_bytes_per_item == 0 {
        return Err(
            RuntimeError::InvalidConfig("state_projection_limits.max_text_bytes_per_item must be > 0".to_owned()),
        );
    }
    if limits.max_stdout_bytes_per_item == 0 {
        return Err(
            RuntimeError::InvalidConfig("state_projection_limits.max_stdout_bytes_per_item must be > 0".to_owned()),
        );
    }
    if limits.max_stderr_bytes_per_item == 0 {
        return Err(
            RuntimeError::InvalidConfig("state_projection_limits.max_stderr_bytes_per_item must be > 0".to_owned()),
        );
    }
    Ok(())
}

} // verus!
