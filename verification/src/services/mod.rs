pub mod build_laws;
pub mod builds;
pub mod bundle_laws;
pub mod cloud_build;
pub mod cloud_messages;
pub mod context_hash;
pub mod file_policy;
pub mod gcs;
pub mod job_laws;
pub mod local_build;
pub mod local_laws;
pub mod path_laws;
pub mod path_safety;
pub mod policy_laws;
pub mod request_laws;
pub mod source_bundles;
pub mod tracking;
pub mod tracking_laws;
pub mod url_text;
