pub mod build_job;
pub mod config_laws;
pub mod source_bundle;
pub mod state;
