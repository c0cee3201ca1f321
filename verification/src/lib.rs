pub mod db;
pub mod engine;
pub mod auth;
pub mod float_bits;
pub mod headers;
pub mod repositories;
pub mod routes;
pub mod ids;
pub mod status;
pub mod text;
pub mod service;
