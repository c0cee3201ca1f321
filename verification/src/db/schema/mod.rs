pub mod profile;
pub mod simulation;
pub mod stock;
pub mod user;
