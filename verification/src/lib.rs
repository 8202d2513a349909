//! Core model of a photo print-layout tool: page geometry, placed images,
//! canvas interaction, transform caching, and print rasterization.
//!
//! Lengths are carried as integers in micrometers (thousandths of a
//! millimeter), zoom factors in thousandths, opacities in thousandths
//! (0 = transparent, 1000 = fully opaque), and rotations in millidegrees.

pub mod bitmap;
pub mod geometry;
pub mod interaction;
pub mod layout;
pub mod paper;
pub mod printing;
pub mod raster;
pub mod text;
pub mod transform;
