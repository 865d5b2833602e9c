//! A deterministic activation-propagation engine.
//!
//! Noisy sensor readings are injected into a fixed graph of weighted,
//! possibly inhibitory edges; once per tick the engine decays every node,
//! sums the weighted incoming activations, squashes the result through a
//! piecewise-linear logistic curve, and clamps it.  The host then reads
//! back the ranked `State`-category activations.
//!
//! All activations and edge weights are fixed-point values in micro-units:
//! the integer `1_000_000` stands for an activation of `1.0`.

pub mod engine;
pub mod graph;
pub mod laws;
pub mod num;

pub use engine::ContextEngine;
pub use engine::RankedState;
pub use num::MAX_ACT;
pub use num::SCALE;
