//! Vector paths drawn from point sequences.
//!
//! Coordinates are fixed-point numbers counted in hundredths of a unit, so
//! `Point { x: 150, y: -20 }` stands for the point (1.5, -0.2). Scale factors
//! are exact ratios; a scaled coordinate is rounded to the nearest hundredth.

pub mod drawing;
pub mod error;
pub mod geometry;
pub mod text;
pub mod path;
pub mod svg_path;

pub use drawing::{DrawingModel, SvgDrawing};
pub use error::DrawingError;
pub use geometry::{Point, Ratio, Vector};
pub use path::create_path;
pub use svg_path::{PathModel, SvgPath};
