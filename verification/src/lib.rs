//! Verified core of a software ray tracer: colour arithmetic with saturating
//! and attenuating channel semantics, the row-major image buffer that the
//! renderer writes one pixel at a time, and the row-chunk partition that the
//! parallel tile scheduler hands out to its workers.

pub mod colour;
pub mod image;
pub mod ppm;
pub mod shading;
pub mod tiles;
