//! Lookup-table arithmetization for a zero-knowledge virtual-machine
//! prover.
//!
//! The crate encodes the semantics of the machine's binary and unary
//! operations as precomputed fixed tables and wires a lookup argument that
//! binds witnessed operation rows to those tables inside a PLONKish
//! constraint system.  The constraint-system engine itself (column
//! allocation, region placement, proving) is an external collaborator,
//! reached through a small set of trusted bindings.
//!
//! - [`tag`]: the operator identifiers and their canonical codes.
//! - [`rows`]: exhaustive, verified generation of the binary-operation
//!   table rows.
//! - [`table`]: the fixed tables, their columns and loading procedures.
//! - [`binop`]: the binary-operation sub-circuit and its lookup wiring.
//! - [`backend`]: the trusted bindings to the constraint-system engine.

pub mod backend;
pub mod binop;
pub mod rows;
pub mod table;
pub mod tag;
