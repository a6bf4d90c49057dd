//! The static N+1 detector: a depth-first walk of the configuration from the
//! query root that reports every resolver-backed field reached through a
//! list, unless the field is batched.

pub mod detector;
pub mod laws;
pub mod model;

pub use detector::N1Detector;
pub use model::violations;
