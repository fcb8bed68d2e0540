//! Verified core of an AI-assisted browser: the agent loop, context
//! management, tool scheduling and dispatch, skills, navigation history and
//! the text rules they rest on.

pub mod error;
pub mod text;
pub mod keyed;
pub mod tool_schema;
pub mod native;
pub mod desktop;
