//! Pixel dimensions and print resolution of raster images, read from their
//! headers alone.
pub mod bmp;
pub mod bytes;
pub mod error;
pub mod gif;
pub mod image;
pub mod jpeg;
pub mod laws;
pub mod length;
pub mod png;
pub mod tiff;

pub use crate::error::Error;
pub use crate::image::{Format, Image, ImageType};
pub use crate::length::Length;
