//! Incremental conversion of an RGBA raster image into colored vector paths.
//!
//! The work is cut into small steps so that a single-threaded host stays responsive:
//! the host hands over an image once and then calls `tick` until it reports completion.
//! Segmentation and outline fitting are done by `visioncortex`; this crate owns the
//! pixel model, the transparency keyer and the stage controller that drives the engine.

pub mod converter;
pub mod engine;
pub mod error;
pub mod keying;
pub mod laws;
pub mod outline;
pub mod params;
pub mod perimeter;
pub mod pixels;
pub mod record;

pub use converter::{ColorImageConverter, Phase, Stage, Transition};
pub use error::ConverterError;
pub use outline::SimplifyMode;
pub use params::{ColorImageConverterParams, Hierarchy};
pub use pixels::{Color, Image, PixelBuffer};
pub use record::{ColorData, PathData, TickOutput};
