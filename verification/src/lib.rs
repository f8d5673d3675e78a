pub mod angle;
pub mod config;
pub mod gradient;
pub mod intensity;
pub mod lattice;
pub mod random;
pub mod simplex;
pub mod symmetry;
