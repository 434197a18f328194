//! Frame logic of a window that draws one fixed indexed triangle: the mesh
//! data, the surface configuration and draw protocol of the graphics
//! context, and the decisions that the window shell takes on each event.

pub mod mesh;
pub mod graphics;
pub mod application;
