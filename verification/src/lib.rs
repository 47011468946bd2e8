pub mod text;
pub mod json;
pub mod string_map;
pub mod paths;
pub mod config;
pub mod types;
pub mod pattern;
pub mod permission;
pub mod path_safety;
pub mod sse;
pub mod context;
pub mod tool;
pub mod session;
pub mod orchestrator;
pub mod provider;
pub mod commands;
pub mod schema;
pub mod merge;
pub mod replace;
pub mod tool_schema;
pub mod file_tools;
pub mod shell;
pub mod search;
pub mod renderer;
pub mod loader;
pub mod repl;
pub mod builtin;
