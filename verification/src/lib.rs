//! Verified core of a GPU-driven voxel culling pipeline.
//!
//! A dense cubic chunk of voxels is generated procedurally, every occupied
//! cell with at least one exposed face is compacted into a flat buffer of
//! visible-voxel records behind an atomic counter, and the counter value is
//! bridged into the instance-count field of an indirect draw command, all
//! without the host ever reading the visible count.

pub mod chunk;
pub mod field;
pub mod indirect;
pub mod pipeline;
pub mod visibility;
pub mod voxel;
