//! Logic of the desktop application: browser navigation, the sandbox, tool
//! dispatch and the commands behind the user interface.

pub mod browser_nav;
pub mod sandbox;
pub mod tools;
pub mod run_command;
pub mod skills;
pub mod skill_file;
pub mod page_cache;
pub mod page_context;
pub mod web_tools;
pub mod mcp;
pub mod mcp_exchange;
pub mod agent;
pub mod playwright;
pub mod stream;
pub mod chat;
