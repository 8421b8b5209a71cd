pub mod cli;
pub mod command;
pub mod config;
pub mod coordinator;
pub mod event;
pub mod ignore_filter;
pub mod orchestrator;
pub mod signal;
