//! Sun direction parameters for a stylised day/night and season model.
//!
//! An [`Environment`] holds four angles: axial tilt, latitude, time of day and
//! time of year. Angles are held exactly, as whole microdegrees (see
//! [`conversion`]), so that wrapping the periodic angles and clamping the
//! latitude are exact integer operations whose results are proved.
pub mod conversion;
pub mod environment;

pub use environment::Environment;
