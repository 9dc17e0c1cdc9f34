//! A small renderer substrate: dimension-typed vectors and an indexed
//! geometry builder that turns flat vertex streams into deduplicated
//! vertex/index buffer pairs ready for upload to a graphics backend.

pub mod geometry;
pub mod math;
pub mod shapes;
