//! Event-sourced digital-twin actors: genes, operators, message routing and journal replay.
pub mod nvtime;
pub mod text;
pub mod gene;
pub mod message;
pub mod actor;
pub mod operator;
pub mod accum_gene;
pub mod gauge_gene;
pub mod gauge_and_accum_gene;
pub mod paths;
pub mod registry;
pub mod director;
pub mod store_actor_sqlite;
pub mod json_decoder;
pub mod stdin_actor;
pub mod api_server;
pub mod cli;
pub mod genes;
pub mod server;
