use vstd::prelude::*;

verus! {

/// Connection settings for the relational store, filled in by the embedding
/// process and handed to the pool factory.
#[derive(Debug)]
pub struct DatabaseConfiguration {
    pub host: String,
    pub port: u16,
    pub database: String,
    pub username: String,
    pub password: String,
}

/// Settings of the embedding web server.
#[derive(Debug)]
pub struct ServerConfiguration {
    pub port: u16,
}

} // verus!
