//! Conversion of decoded RGB raster images into flat numeric tensor buffers,
//! together with a minimal shape-validating tensor container.
//!
//! The library has two independent pieces:
//!
//! * [`tensor::Tensor`], a flat buffer paired with a shape descriptor whose
//!   element count is validated against the buffer length at construction;
//! * the conversion pipeline in [`convert`], which walks a pixel raster and
//!   produces a flat buffer under a chosen representation, normalization and
//!   memory layout.

pub mod convert;
pub mod layout;
pub mod raster;
pub mod strategy;
pub mod tensor;
