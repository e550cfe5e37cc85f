//! Core of a small 2D software-rendering game engine: integer linear
//! algebra for positions and displacements, a camera that derives a
//! viewport window, shapes (triangles and axis-aligned rectangles) with
//! containment tests and rasterization into a CPU framebuffer,
//! packed-color utilities, a scene arena of nodes addressed by handle, a
//! gradual-transform state machine, and a ring-buffered text logger with
//! its line format and parser. Windowing, the system clock and the
//! floating-point math live outside this crate; they hand plain values in
//! and take plain values back.

pub mod camera;
pub mod color;
pub mod error;
pub mod framebuffer;
pub mod interp;
pub mod linear;
pub mod logger;
pub mod scene;
pub mod shapes;
