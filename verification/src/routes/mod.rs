pub mod health;
pub mod server;
pub mod source_bundles;
pub mod upload_laws;
