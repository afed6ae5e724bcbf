pub mod fancy;
pub mod install;
pub mod laws;
pub mod manifest;
pub mod orchestrator;
pub mod runner;
