//! GLM-5.3-Flash: configuration, weights and the layers of the decoder.
//!
//! Device work is recorded, not performed: see [`device`].
pub mod capabilities;
pub mod config;
pub mod device;
pub mod json;
pub mod layers;
pub mod ops;
pub mod tensors;
pub mod text;
pub mod weight_loader;
pub mod weight_map;
