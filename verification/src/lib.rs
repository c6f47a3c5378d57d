//! The verified core of a small CPU ray tracer that draws scenes of
//! textured boxes.
//!
//! The library owns what is decided on whole numbers: colours with
//! saturating arithmetic, the pixel buffer a frame is drawn into, textures
//! sampled by pixel, the choice between a material's texture and its flat
//! colour, whether a ray meets a box and through which face, which hit is
//! nearest and which object shadows a point, and the adding up of light.
//! Vectors and real-valued weights belong to the caller: the types that
//! hold them are generic, and distances are handed in as keys that order as
//! the distances do, made by the library from their bit patterns.

pub mod camera;
pub mod color;
pub mod cube;
pub mod framebuffer;
pub mod key;
pub mod material;
pub mod render;
pub mod shading;
pub mod texture;
pub mod visibility;
