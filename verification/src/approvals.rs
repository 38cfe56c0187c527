//! Server requests (approvals, user input, tool calls, token refresh) and the
//! policy applied when one is not answered in time.
use vstd::prelude::*;
use crate::json::JsonValue;
use crate::text::str_eq;
use crate::methods::{
    ITEM_COMMAND_EXECUTION_REQUEST_APPROVAL, ITEM_FILE_CHANGE_REQUEST_APPROVAL,
    ITEM_TOOL_REQUEST_USER_INPUT, MCP_SERVER_ELICITATION_REQUEST,
    ITEM_PERMISSIONS_REQUEST_APPROVAL, ITEM_TOOL_CALL, ACCOUNT_CHATGPT_AUTH_TOKENS_REFRESH,
};

verus! {

/// A request from the server waiting for the embedding application's answer.
#[derive(Debug, PartialEq)]
pub struct ServerRequest {
    pub approval_id: String,
    pub method: String,
    pub params: JsonValue,
}

#[derive(Debug, PartialEq)]
pub struct PendingServerRequest {
    pub approval_id: String,
    pub deadline_unix_ms: i64,
    pub method: String,
    pub params: JsonValue,
}

#[derive(Clone, Copy, Debug, PartialEq, Eq, Structural)]
pub enum TimeoutAction {
    Decline,
    Cancel,
    Error,
}

#[derive(Clone, Copy, Debug, PartialEq, Eq, Structural)]
pub struct ServerRequestConfig {
    pub default_timeout_ms: u64,
    pub on_timeout: TimeoutAction,
}

impl Default for ServerRequestConfig {
    /// Thirty seconds, then decline.
    fn default() -> (r: Self)
        ensures
            r.default_timeout_ms == 30_000,
            r.on_timeout == TimeoutAction::Decline,
    {
        ServerRequestConfig { default_timeout_ms: 30_000, on_timeout: TimeoutAction::Decline }
    }
}

/// One method of the protocol inventory.
#[derive(Clone, Copy, Debug, PartialEq, Eq)]
pub struct MethodMeta {
    pub wire_name: &'static str,
}

/// The server-request methods of the protocol.
pub open spec fn known_server_request(m: Seq<char>) -> bool {
    m == "item/commandExecution/requestApproval"@ || m == "item/fileChange/requestApproval"@ || m
        == "item/tool/requestUserInput"@ || m == "mcpServer/elicitation/request"@ || m
        == "item/permissions/requestApproval"@ || m == "item/tool/call"@ || m
        == "account/chatgptAuthTokens/refresh"@
}

/// The server-request methods of the protocol inventory, in inventory order.
pub fn known_server_request_methods() -> (r: Vec<MethodMeta>)
    ensures
        r@.len() == 7,
        forall|m: Seq<char>| known_server_request(m) <==> exists|i: int| 0 <= i < r@.len() && (#[trigger] r@[i]).wire_name@ == m,
{
    let r = vec![
        MethodMeta { wire_name: ITEM_COMMAND_EXECUTION_REQUEST_APPROVAL },
        MethodMeta { wire_name: ITEM_FILE_CHANGE_REQUEST_APPROVAL },
        MethodMeta { wire_name: ITEM_TOOL_REQUEST_USER_INPUT },
        MethodMeta { wire_name: MCP_SERVER_ELICITATION_REQUEST },
        MethodMeta { wire_name: ITEM_PERMISSIONS_REQUEST_APPROVAL },
        MethodMeta { wire_name: ITEM_TOOL_CALL },
        MethodMeta { wire_name: ACCOUNT_CHATGPT_AUTH_TOKENS_REFRESH },
    ];
    proof {
        assert forall|m: Seq<char>| known_server_request(m) implies exists|i: int| 0 <= i < r@.len() && (#[trigger] r@[i]).wire_name@ == m by {
            if m == "item/commandExecution/requestApproval"@ {
                assert(r@[0].wire_name@ == m);
            } else if m == "item/fileChange/requestApproval"@ {
                assert(r@[1].wire_name@ == m);
            } else if m == "item/tool/requestUserInput"@ {
                assert(r@[2].wire_name@ == m);
            } else if m == "mcpServer/elicitation/request"@ {
                assert(r@[3].wire_name@ == m);
            } else if m == "item/permissions/requestApproval"@ {
                assert(r@[4].wire_name@ == m);
            } else if m == "item/tool/call"@ {
                assert(r@[5].wire_name@ == m);
            } else {
                assert(r@[6].wire_name@ == m);
            }
        }
    }
    r
}

/// Whether `method` is a server request of the protocol.
pub fn is_known_server_request_method(method: &str) -> (r: bool)
    ensures
        r == known_server_request(method@),
{
    str_eq(method, ITEM_COMMAND_EXECUTION_REQUEST_APPROVAL) || str_eq(method, ITEM_FILE_CHANGE_REQUEST_APPROVAL)
        || str_eq(method, ITEM_TOOL_REQUEST_USER_INPUT) || str_eq(method, MCP_SERVER_ELICITATION_REQUEST)
        || str_eq(method, ITEM_PERMISSIONS_REQUEST_APPROVAL) || str_eq(method, ITEM_TOOL_CALL)
        || str_eq(method, ACCOUNT_CHATGPT_AUTH_TOKENS_REFRESH)
}

} // verus!
