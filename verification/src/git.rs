pub mod cache;
pub mod history;
pub mod repository;
pub mod store;
pub mod types;
pub mod walk;
