pub mod error;
pub mod retry;
pub mod user;
pub mod repository;
pub mod config;
