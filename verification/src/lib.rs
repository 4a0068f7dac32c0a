//! Procedural icy-moon terrain synthesis: a small combinator algebra over
//! continuous 2D scalar height fields (gradient noise, fractal accumulation,
//! domain warping, directional anisotropy, arithmetic combination), sampled on
//! a regular grid and extracted into an indexed triangle mesh with
//! central-difference normals.
//!
//! All heights and coordinates are carried in [`fx::Fx`], a signed
//! fixed-point scalar (16 fractional bits) with an explicit non-finite
//! state, so that every stage of the pipeline is deterministic and totally
//! specified.

pub mod assembly;
pub mod comb;
pub mod error;
pub mod fx;
pub mod height;
pub mod mesh;
pub mod noise;
pub mod params;
pub mod warp;

pub use assembly::{EuropaField, TerrainPlugin};
pub use error::TerrainError;
pub use fx::{Fx, Fx2, Fx3};
pub use height::HeightSource;
pub use mesh::{Mesh, build_europa_mesh, build_mesh_from_grid};
pub use params::TerrainParams;
