//! An embeddable SQL query engine: a semantic binder, a logical/physical
//! plan tree with rewriting passes, and a streaming vectorized executor over
//! columnar batches, all with machine-checked contracts.
//!
//! A statement tree (`ast`) is bound against the catalog (`binder`,
//! `catalog`), planned into a logical tree (`planner`, `optimizer`), its
//! column references resolved to positions and the tree lowered to physical
//! nodes (`optimizer`), then run as a pull-based operator pipeline over
//! columnar batches (`executor`, `storage`). `db` ties the stages together.

pub mod ast;
pub mod binder;
pub mod catalog;
pub mod db;
pub mod executor;
pub mod ident;
pub mod number;
pub mod optimizer;
pub mod planner;
pub mod storage;
pub mod types;
pub mod utill;
