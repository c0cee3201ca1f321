pub mod types;
pub mod validation;
