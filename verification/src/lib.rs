//! Epicycle drawings: the exact, integer side of turning a vector-graphics
//! path into a chain of rotating vectors.
//!
//! The library reads path data, checks and orders the drawing instructions
//! of an outline, lays out the sampling grid and the harmonics of the
//! analysis, keeps the bounded trail of traced points and decides what each
//! input event does. Coordinates are carried by their bit patterns and are
//! never computed with here.

pub mod analysis;
pub mod command;
pub mod controls;
pub mod document;
pub mod error;
pub mod number;
pub mod outline;
pub mod trail;
