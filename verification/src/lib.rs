//! A single-shot computation with exactly one suspension point, driven to
//! completion by cooperative polling.
//!
//! The computation runs a fixed arithmetic sequence: it adds a first increment
//! to its initial value, parks once at an explicit suspension point while an
//! already-resolved dependency is awaited, resumes, adds a second increment,
//! and finishes. A driver polls it until it reaches its terminal state and
//! renders the result as a fixed output line.

pub mod computation;
pub mod driver;
pub mod render;
