//! An agent server: threads, turns, approvals, goals, workflows, tools and what is remembered.
//!
//! Every decision that the server takes is a function of plain values with a contract. The program
//! around the library reads and writes, keeps the clock and waits.
pub mod agent_laws;
pub mod agent_tree;
pub mod api;
pub mod approval_laws;
pub mod approvals;
pub mod boundary;
pub mod cli;
pub mod command_laws;
pub mod config;
pub mod data;
pub mod deep_research;
pub mod desktop;
pub mod error;
pub mod event_laws;
pub mod events;
pub mod exec_session;
pub mod goals;
pub mod ids;
pub mod item_laws;
pub mod json;
pub mod mcp;
pub mod mcp_runtime;
pub mod memory;
pub mod memory_laws;
pub mod message_laws;
pub mod override_policy;
pub mod paths;
pub mod projection;
pub mod protocol;
pub mod registry;
pub mod replay;
pub mod replies;
pub mod research_laws;
pub mod runtime_loader;
pub mod seqs;
pub mod session_cli;
pub mod setting_laws;
pub mod settings;
pub mod state;
pub mod subagents;
pub mod text;
pub mod text_laws;
pub mod text_map;
pub mod thread_laws;
pub mod thread_runtime;
pub mod thread_view;
pub mod threads;
pub mod tool_laws;
pub mod turn_laws;
pub mod turns;
pub mod types;
pub mod view_laws;
pub mod workflow;
