//! The KV6 voxel container: its byte layout, the decoded model and the mesh.

pub mod encode;
pub mod endian;
pub mod kv6data;
pub mod kv6mesh;
