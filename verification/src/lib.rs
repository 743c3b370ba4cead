//! SoryOS AI Assistant: the assistant's decision logic — security policy,
//! free-only model policy, conversation handling, turn orchestration and
//! the UI state machine — with contracts checked by Verus.
pub mod assistant;
pub mod audio;
pub mod clock;
pub mod config;
pub mod context;
pub mod conversation;
pub mod desktop;
pub mod envfile;
pub mod gemini;
pub mod error;
pub mod json;
pub mod memory;
pub mod message;
pub mod mock;
pub mod model_policy;
pub mod openai_compat;
pub mod openrouter;
pub mod permissions;
pub mod policy;
pub mod provider;
pub mod providers;
pub mod repl;
pub mod sidebar;
pub mod sse;
pub mod storage;
pub mod table;
pub mod text;
pub mod tool;
pub mod tools;
pub mod ui;
pub mod views;
pub mod voice;
