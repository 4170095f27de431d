//! A small engine for plotting parametric curves.
//!
//! The engine evaluates arithmetic expression trees over one free variable,
//! keeps a mutable view/style configuration, queues curves together with a
//! snapshot of the style current at enqueue time, and on demand samples every
//! queued curve into window-clipped point batches for a drawing surface.
pub mod fbits;
pub mod rt_util;
pub mod sample;
pub mod style;
pub mod tree_node;
