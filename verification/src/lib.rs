//! Verified core of the agent-browser command line tool: request paths for
//! the local daemon, header parsing, status and doctor assessments, the skill
//! installation plan and the JSON-RPC session bookkeeping of the Playwright
//! runtime.

mod chars;
pub mod json;
pub mod escape;
pub mod paths;
pub mod text;
pub mod headers;
pub mod status;
pub mod doctor;
pub mod rpc;
pub mod fspath;
pub mod locate;
pub mod skill;
pub mod logs;
pub mod routes;
