//! Verified core of the codexus runtime: JSON-RPC message classification,
//! identifier extraction, prompt-run result resolution, hook merging,
//! approval timeouts, compatibility checks and the runtime counters.
pub mod json;
pub mod text;
pub mod ids;
pub mod errors;
pub mod command_exec;
pub mod events;
pub mod rpc;
pub mod metrics;
pub mod plugin;
pub mod hooks;
pub mod thread_views;
pub mod prompt;
pub mod policies;
pub mod input;
pub mod flow;
pub mod thread_ops;
pub mod methods;
pub mod approvals;
pub mod io_policy;
pub mod compat;
pub mod config;
pub mod time;
pub mod supervisor;
pub mod limits;
pub mod detached;
pub mod sink;
pub mod session;
pub mod state;
pub mod lifecycle;
pub mod dispatch;
pub mod tool_use;
pub mod shell_hook;
pub mod rpc_contract;
pub mod profile;
pub mod prompt_phases;
pub mod request_wire;
