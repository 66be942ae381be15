//! Register abstraction for the pin-multiplexing ("Global") peripheral: a
//! verified codec for the 32-bit per-pin configuration word.
pub mod bits;
pub mod field;
pub mod glb;
pub mod laws;
