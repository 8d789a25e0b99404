//! Integer, layout and decision logic of a Monte-Carlo path tracer: aspect
//! ratios, pixel buffers, the PPM text encoding, the scattering decisions and
//! the bounce loop that drives one light path.
pub mod aspect;
pub mod buffer;
pub mod ppm;
pub mod scatter;
pub mod render;
pub mod world;
