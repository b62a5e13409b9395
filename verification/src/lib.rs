//! Short-text binary claim classifier.
//!
//! One sentence comes in per call; the answer is either a labelled
//! confidence ("CLAIM" or "IGNORE" with a percentage) or a distinguishable
//! error value.  The pipeline is: a cheap pre-filter, then tokenization,
//! then one forward pass of a loaded model, then a fixed score-to-decision
//! mapping.  Model and tokenizer handles are loaded once at construction
//! and shared across calls behind reader-writer locks.

pub mod ai_engine;
pub mod decision;
pub mod prefilter;
pub mod simple;
