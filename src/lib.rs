//! Verified core of a 2D light-transport renderer: the boolean rules of
//! constructive solid geometry, the nearest-hit choice of a scene, the
//! even-odd containment rule of polygons, the branching rule of light
//! transport and the quantisation of pixel channels.
pub mod batch;
pub mod csg;
pub mod polygon;
pub mod raster;
pub mod scene;
pub mod transport;
