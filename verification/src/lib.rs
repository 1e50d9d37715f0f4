//! The decision logic of the Coomi coding agent.

pub mod access;
pub mod account_laws;
pub mod accounting;
pub mod agent;
pub mod agents;
pub mod api;
pub mod bridge;
pub mod bridge_laws;
pub mod catalog;
pub mod catalog_laws;
pub mod cli;
pub mod codec;
pub mod commands;
pub mod compaction;
pub mod editor;
pub mod display_laws;
pub mod engine_laws;
pub mod events;
pub mod failure;
pub mod json;
pub mod json_ops;
pub mod numbers;
pub mod observer;
pub mod observer_laws;
pub mod order;
pub mod overview;
pub mod paths;
pub mod pieces;
pub mod prompts;
pub mod provider;
pub mod provider_form;
pub mod provider_laws;
pub mod redact;
pub mod runs;
pub mod record_laws;
pub mod runtime;
pub mod schedule;
pub mod screen_laws;
pub mod search;
pub mod session;
pub mod settings;
pub mod step;
pub mod subagents;
pub mod table;
pub mod task;
pub mod text;
pub mod text_laws;
pub mod timeline;
pub mod tools;
pub mod tui;
pub mod tui_commands;
pub mod tui_events;
pub mod tui_keys;
pub mod tui_laws;
pub mod tui_outcomes;
pub mod tui_overlays;
pub mod tui_settings;
pub mod turn;
pub mod turn_laws;
pub mod views;
pub mod webrun;
pub mod webturn;
