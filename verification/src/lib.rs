//! Cube-sphere planet meshes, and the bookkeeping that loads them in the
//! background.
//!
//! A sphere is built from the six faces of a cube, each face split into four
//! tiles, each tile a triangulated grid whose vertices are pushed out onto
//! the sphere and textured with an equirectangular map. The library holds
//! what of this is exact: the tiling and its lattice of grid points, the
//! triangulation, the rule that keeps the texture from tearing at the
//! antimeridian, the validation of angles, the bookkeeping of the 24
//! generation jobs, the loading counters and the loading state machine.
//!
//! The library is free of floating-point arithmetic. Where it has to judge a
//! floating-point number it takes the number's IEEE-754 encoding and orders
//! it exactly; trigonometry and interpolation are left to the caller.

pub mod single;
pub mod geo;
pub mod tiling;
pub mod mesh;
pub mod resource;
pub mod state;
pub mod scheduler;
