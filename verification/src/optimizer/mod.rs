//! Plan representation and the rewriting passes over it.

pub mod input_ref_rewriter;
pub mod physical_rewriter;
pub mod plan_node;
