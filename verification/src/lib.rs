//! Menu items for numbered tables: the validated item entity, the factory
//! that mints new items with a randomized preparation time, the repository
//! contract for durable storage, and the service that orchestrates them.

pub mod config;
pub mod errors;
pub mod item;
pub mod item_factory;
pub mod item_repository;
pub mod item_service;
pub mod repository;
pub mod response;
