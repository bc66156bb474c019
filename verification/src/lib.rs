//! A durable, fencing-safe catalog: the metadata store behind a distributed
//! query engine.
//!
//! The catalog keeps every collection of definitions, the id watermarks and the
//! timeline timestamps in one durable store, and trusts exactly one writer at a
//! time. A writer proves that it is the current one with its epoch, a counter
//! that every writable open advances.
//!
//! - [`model`] says what the durable state is and what every operation does to
//!   it; [`laws`] proves what follows for all inputs.
//! - [`durable`] holds the contracts: how a catalog is opened, read and
//!   written. [`connection`] implements them over one storage engine,
//!   [`shadow`] over two that are compared.
//! - [`state`] is the contract of a storage engine; [`stash`] and [`persist`]
//!   are the two engines, one that replaces the state and one that appends to
//!   a log.
//! - [`transaction`] stages changes over a snapshot and finalizes them into a
//!   batch; [`diff`] and [`table`] are the maps and diffs underneath.
//! - [`ids`], [`objects`], [`error`] and [`initialize`] hold the id
//!   namespaces, the plain values, the errors and the first contents.

pub mod connection;
pub mod diff;
pub mod durable;
pub mod error;
pub mod ids;
pub mod initialize;
pub mod laws;
pub mod model;
pub mod objects;
pub mod persist;
pub mod shadow;
pub mod stash;
pub mod state;
pub mod table;
pub mod transaction;
