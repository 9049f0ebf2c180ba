pub mod error;
pub mod json;
pub mod models;
pub mod outside;
pub mod routes;
pub mod services;
pub mod text;
pub mod text_laws;
