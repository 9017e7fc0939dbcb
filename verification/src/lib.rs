//! The integer core of a small software renderer for a stylised solar system.
//!
//! - `color`: colours with eight bits per channel and their packed form.
//! - `escena`: the records that the stages of the pipeline hand to each other.
//! - `patron`: the order of single-precision numbers, on their bit patterns.
//! - `framebuffer`: the colour and depth arrays of a frame and the depth test.
//! - `malla`: the triangle lists of the sphere and of the flat ring.
//! - `raster`: the box of pixels of a triangle and the coverage test.
//! - `sombreador`: the shader selector and its fallback colour.
//! - `transformacion`: the chain of matrices from the object to the screen.
//! - `estado`: the state of the frame loop and its input commands.
//! - `seleccion`: choosing among what a device offers.
//! - `obj`: the lines of a Wavefront OBJ file.
//! - `aritmetica`: arithmetic of tables stored row by row.
//!
//! What computes in fractions (noise, shading, the entries of a matrix, the
//! weights of a pixel) is left to the caller. It hands depths and weights
//! over as bit patterns, and vectors and matrices as values of `nalgebra`,
//! which the library multiplies in the right order without looking into them.

pub mod aritmetica;
pub mod color;
pub mod escena;
pub mod estado;
pub mod framebuffer;
pub mod malla;
pub mod obj;
pub mod patron;
pub mod raster;
pub mod seleccion;
pub mod sombreador;
pub mod transformacion;
