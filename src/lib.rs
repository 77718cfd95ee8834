//! A software rasteriser for a subset of the fixed-function OpenGL 1.x pipeline.
//!
//! - `math`: vectors and 4x4 matrices over a generic scalar, and the transform
//!   matrices that the matrix commands multiply in.
//! - `modes`: the matrix-mode and primitive-mode tokens.
//! - `stack`: the never-empty matrix stack.
//! - `assemble`: which vertices of a primitive make each triangle.
//! - `texture`: the texture table, uploads and texel lookup.
//! - `framebuffer`: colour and depth buffers, and the scan of a triangle's pixels
//!   with its depth test.
//! - `surface`: the values exchanged with the host window.
//! - `context`: the pipeline state and the commands that change it.
pub mod assemble;
pub mod context;
pub mod framebuffer;
pub mod math;
pub mod modes;
pub mod stack;
pub mod surface;
pub mod texture;
