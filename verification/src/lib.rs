//! Shape-level model of a Vision Transformer built from burn layers.
//!
//! The library describes, as plain integers, every layer of the model:
//! the patch embedding, the class token, the position embedding, the
//! transformer encoder and the two heads. Its functions compute the
//! shapes the tensors take through the forward passes, under the exact
//! conditions burn's tensor operations check, and prove that an image
//! batch `[B, C, H, W]` comes out as `[B, D]` (class embedding),
//! `[B, num_classes]` (classification) or `[B, D]` (projection).
pub mod backbone;
pub mod encoder;
pub mod layers;
pub mod shape;

pub use backbone::{Backbone, BackboneConfig};
pub use encoder::classification::ClassificationConfig;
pub use encoder::projection::ProjectionConfig;
pub use encoder::{Classification, Projection};
