//! Verified core of a meal-planning assistant that talks to an LLM and to a
//! Mealie recipe server: the conversation state machine, tool-call routing,
//! tool schemas, request construction and the plain-value logic around them.

pub mod text;
pub mod calendar;
pub mod config;
pub mod llm;
pub mod tools;
pub mod schema;
pub mod agent;
pub mod mealie;
pub mod memory;
pub mod executor;
pub mod repl;
