//! Verified core of a small deferred renderer: the procedural cube mesh,
//! the vertex and G-buffer layouts, mesh assembly from loaded attribute
//! streams, and the entity scene.

pub mod cube;
pub mod mesh;
pub mod gbuffer;
pub mod scene;
