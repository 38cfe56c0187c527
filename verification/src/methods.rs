//! Wire names of the app-server methods this runtime sends, receives or
//! treats specially.
use vstd::prelude::*;

verus! {

pub const ERROR: &'static str = "error";
pub const THREAD_START: &'static str = "thread/start";
pub const THREAD_RESUME: &'static str = "thread/resume";
pub const THREAD_FORK: &'static str = "thread/fork";
pub const THREAD_ARCHIVE: &'static str = "thread/archive";
pub const THREAD_READ: &'static str = "thread/read";
pub const THREAD_LIST: &'static str = "thread/list";
pub const THREAD_LOADED_LIST: &'static str = "thread/loaded/list";
pub const THREAD_ROLLBACK: &'static str = "thread/rollback";
pub const TURN_START: &'static str = "turn/start";
pub const TURN_STEER: &'static str = "turn/steer";
pub const TURN_INTERRUPT: &'static str = "turn/interrupt";
pub const TURN_COMPLETED: &'static str = "turn/completed";
pub const TURN_FAILED: &'static str = "turn/failed";
pub const TURN_INTERRUPTED: &'static str = "turn/interrupted";
pub const TURN_CANCELLED: &'static str = "turn/cancelled";
pub const SKILLS_LIST: &'static str = "skills/list";
pub const SKILLS_CHANGED: &'static str = "skills/changed";
pub const FS_CHANGED: &'static str = "fs/changed";
pub const COMMAND_EXEC: &'static str = "command/exec";
pub const COMMAND_EXEC_OUTPUT_DELTA: &'static str = "command/exec/outputDelta";
pub const ITEM_AGENT_MESSAGE_DELTA: &'static str = "item/agentMessage/delta";
pub const ITEM_COMMAND_EXECUTION_REQUEST_APPROVAL: &'static str = "item/commandExecution/requestApproval";
pub const ITEM_FILE_CHANGE_REQUEST_APPROVAL: &'static str = "item/fileChange/requestApproval";
pub const ITEM_TOOL_REQUEST_USER_INPUT: &'static str = "item/tool/requestUserInput";
pub const MCP_SERVER_ELICITATION_REQUEST: &'static str = "mcpServer/elicitation/request";
pub const ITEM_PERMISSIONS_REQUEST_APPROVAL: &'static str = "item/permissions/requestApproval";
pub const ITEM_TOOL_CALL: &'static str = "item/tool/call";
pub const ACCOUNT_CHATGPT_AUTH_TOKENS_REFRESH: &'static str = "account/chatgptAuthTokens/refresh";

} // verus!
