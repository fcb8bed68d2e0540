//! AI core: providers, tools, context management and the agent loop.

pub mod provider;
pub mod tools;
pub mod context_manager;
pub mod scheduler;
pub mod stream;
pub mod accumulate;
pub mod checkpoint;
pub mod skills;
pub mod mcp;
pub mod codex;
pub mod tool_registry;
pub mod cancel;
pub mod turn;
