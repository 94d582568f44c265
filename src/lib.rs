//! Exact rigid transforms, workplanes and sketches on the integer lattice.
//!
//! Coordinates are integers and rotations map axes onto axes, so every
//! conversion between local and world coordinates is exact.
pub mod edge;
pub mod error;
pub mod geom;
pub mod plane;
pub mod rotation;
pub mod transform;
pub mod workplane;

pub use edge::{Edge, Wire};
pub use error::Error;
pub use geom::{Dir, Point3};
pub use plane::Plane;
pub use rotation::Rotation;
pub use transform::TandR;
pub use workplane::{Sketch, Workplane};
