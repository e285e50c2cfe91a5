//! Verified core of a compressed-texture startup pipeline.
//!
//! The pipeline selects a GPU pixel format from a device capability probe,
//! computes the block-compressed buffer geometry for an image, validates the
//! transcoded buffer against that geometry, and plans the texture creation
//! and upload layout. Everything that touches a device, the network or the
//! host scheduler lives outside this crate; here stand the decisions and the
//! arithmetic, each with its contract.

pub mod geometry;
pub mod pipeline;
pub mod selection;
