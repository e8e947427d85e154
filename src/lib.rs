//! Gradient and transparency resources for a page-description document:
//! quantization, stitching functions, conic patch meshes, deduplicated
//! descriptors and graphics states, modelled in fixed-point integers.
pub mod quantize;
pub mod color;
pub mod gradient;
pub mod patch;
pub mod mesh;
pub mod shading;
pub mod registry;
pub mod descriptor;
pub mod extg;
pub mod cache;
pub mod names;
pub mod text;
