//! Generation of MxN grayscale cellular textures.
//!
//! A texture is produced by scattering random texture points over the image,
//! indexing them in a nearest-neighbor structure, computing for every pixel an
//! aggregate toroidal distance to its nearest texture points, and normalizing
//! the resulting distance field to 8-bit intensities.
//!
//! Every floating-point quantity is carried as its IEEE 754 binary64 bit
//! pattern in a `u64`; the arithmetic on such patterns is done bit-exactly in
//! software.
use vstd::prelude::*;

pub mod config;
pub mod float_bits;
pub mod float_ext;
pub mod generate;
pub mod geometry;
pub mod rng_ext;
pub mod sqrt;
pub mod texture;
pub mod tree;

pub use config::Config;
pub use config::DistanceOperation;
pub use config::Error;
pub use generate::generate_texture;
pub use generate::generate_texture_from_points;
pub use geometry::ImageDimensions;
pub use geometry::Pixel;
pub use texture::TextureAlgoData;
pub use texture::set_pixel_intensity;
pub use tree::SearchTree;
pub use tree::generate_search_tree;
