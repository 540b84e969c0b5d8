//! Integer core of a cube-sphere planet generator: the six cube faces and
//! their tangent bases, the lattice of grid points on each face, the
//! triangle index buffer of the assembled planet, configuration checks, the
//! pair schedule of the gravity pass and the regeneration life cycle.
pub mod config;
pub mod face;
pub mod gravity;
pub mod lattice;
pub mod layout;
pub mod lifecycle;
pub mod mesh;
