//! A splittable, purely functional random number generator and the RGBA
//! frame buffer of a sphere-marching path tracer.
pub mod rnd;
pub mod image;
