//! Decisions of a sketching surface for points, lines, circles and rectangles.
//!
//! The surface works in whole pixels. It records the clicks it is given, turns
//! every second click into a shape of the current drawing mode, and says which
//! stored shapes the new one has to be intersected with, and in which order.
//! Beside it stand the case analysis of the intersections and the framing of
//! the lines of a point list. Painting, reading files, and the real-valued
//! arithmetic of the intersections themselves are left to the program around
//! this library.

pub mod contact;
pub mod loader;
pub mod shapes;
pub mod surface;
