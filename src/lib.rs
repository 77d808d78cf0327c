//! Event bindings for smart-contract interface schemas.
//!
//! From a contract's schema (its functions and events, with nested record
//! fields) this library derives each event's canonical signature and topic
//! id, flattens event fields into column, header and object-path projections,
//! assembles the statements that store each event occurrence, and assembles
//! the source text that registers and dispatches the contract's events.
//!
//! - `naming`: snake case and small string predicates
//! - `abi`: schema entries, allow-list filtering, signatures, event descriptions
//! - `topic`: Keccak-256 topic ids
//! - `types`: type tag to storage column type and storage wrapper
//! - `projection`: flattening of fields into projections, and its laws
//! - `text`: joining, escaping, decimal rendering, positional placeholders
//! - `config`: contract, network setup and storage settings
//! - `sink`: insert statements and flat-file rows
//! - `bindings`: per-event arms and network accessors
//! - `assembly`: whole bindings and handlers files

pub mod naming;
pub mod abi;
pub mod topic;
pub mod types;
pub mod projection;
pub mod text;
pub mod config;
pub mod sink;
pub mod bindings;
pub mod assembly;
