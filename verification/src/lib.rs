//! Data structures of various shapes and sizes, each with a machine-checked
//! contract.
//!
//! The structures favour clarity of design over raw performance. Every
//! operation states what it returns or changes over a mathematical model of
//! the structure, and the implementation is proved against that statement.

pub mod binary_tree;
pub mod graph;
pub mod heap;
pub mod list;
