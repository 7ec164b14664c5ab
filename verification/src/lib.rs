//! A process supervisor's core: Procfile parsing, bounded per-service logs,
//! the dashboard state and the decisions taken on keys and process events.
pub mod action;
pub mod config;
pub mod control;
pub mod event;
pub mod laws;
pub mod laws_config;
pub mod laws_report;
pub mod laws_state;
pub mod laws_text;
pub mod laws_view;
pub mod log_buffer;
pub mod process_group;
pub mod report;
pub mod state;
pub mod supervisor;
pub mod text;
pub mod view;
