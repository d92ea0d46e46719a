//! The float-free core of a small sphere ray tracer: ordering utilities, the
//! hit-resolution policy and the camera's pixel addressing.

pub mod camera;
pub mod ray;
pub mod util;
