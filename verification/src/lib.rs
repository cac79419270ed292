//! Lazy composition of functions over a single value.
//!
//! A chain starts from one value, held by a [`Link`], and grows by one step
//! with every call of `chain`. Nothing runs until `eval` consumes the chain
//! and applies the steps in the order in which they were attached.
//!
//! What a chain means is carried by the two spec functions of [`Chained`]:
//! `can_eval` says when a chain may be evaluated, `yields` which results the
//! evaluation can have. The module [`laws`] states what follows from them.
pub mod chain;
pub mod inter;
pub mod laws;
pub mod link;

pub use chain::{Chain, Chained};
pub use inter::InterChained;
pub use link::Link;
