//! The two models built on the backbone: a classifier and a projection.
pub mod classification;
pub mod projection;

pub use classification::Classification;
pub use projection::Projection;
