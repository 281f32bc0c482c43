//! The verified core of a KV6 voxel model viewer: decoding the KV6 container,
//! turning a decoded model into a triangle list, and the discrete decisions
//! of the camera, the key bindings and the frame loop.
//!
//! Everything here works on integers and byte strings. Positions and normals
//! are described exactly (cell coordinates, cube corners in half units, table
//! indices); turning them into floating point is left to the caller.

pub mod camera;
pub mod controls;
pub mod eventutil;
pub mod kv6;
pub mod viewer;
