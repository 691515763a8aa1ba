//! A verified core for a streaming, tool-using coding assistant.
//!
//! The library models the protocol work of an agent that talks to a
//! streaming LLM endpoint: decoding server-sent events from raw bytes,
//! reassembling tool invocations from partial JSON deltas, translating
//! low-level stream events into user-facing notifications, and driving
//! the request / stream / execute-tools loop as a state machine.
//! Network and file I/O live outside the library; it works on plain
//! values handed in by the caller.

pub mod collector;
pub mod config;
pub mod command;
pub mod decode;
pub mod driver;
pub mod events;
pub mod json;
pub mod models;
pub mod input;
pub mod provider;
pub mod schema;
pub mod tools;
pub mod text;

pub use command::UserCommand;
pub use config::AppConfig;
pub use config::Config;
pub use config::GeneralConfig;
pub use config::ProviderConfigFile;
pub use input::InputReader;
pub use input::StdinInputReader;
pub use provider::AnthropicConfig;
pub use schema::ToolDef;
pub use schema::ToolParams;
pub use tools::Bash;
pub use tools::Edit;
pub use tools::GlobTool;
pub use tools::GrepTool;
pub use tools::ReadTool;
pub use tools::WriteTool;
pub use provider::ConfigError;
pub use provider::ConfigFileProvider;
pub use provider::EnvVar;
pub use provider::ProviderConfig;
pub use command::parse_input;
pub use decode::LineScanner;
pub use models::ModelInfo;
pub use models::ModelPreference;
pub use models::ModelsCache;
pub use models::is_cache_valid;
pub use models::recommend_model;
pub use models::validate_model;
pub use collector::PendingToolCall;
pub use collector::ToolCall;
pub use collector::ToolCallCollector;
pub use driver::Driver;
pub use driver::Flow;
pub use driver::Message;
pub use driver::Phase;
pub use driver::Role;
pub use events::ApiError;
pub use events::ContentBlock;
pub use events::CoreEvent;
pub use events::Delta;
pub use events::StreamEvent;
pub use text::str_eq;
pub use text::u64_to_string;
