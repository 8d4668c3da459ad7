//! Copy-on-write development workspaces for parallel coding agents: the
//! verified decision and text-processing core.
pub mod text;
pub mod cli;
pub mod cursor_integration;
pub mod filesystem;
pub mod fsmonitor;
pub mod doctor;
pub mod git;
pub mod metadata;
pub mod repository;
pub mod runtime;
pub mod semantic;
pub mod session;
pub mod util;
