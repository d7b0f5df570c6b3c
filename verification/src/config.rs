//! Generation parameters and the error taxonomy.
use vstd::prelude::*;

use crate::geometry::ImageDimensions;

verus! {

/// Declaration of the standard path type, held opaquely in a `Config`; the
/// library itself never reads it, the image-writing caller does.
#[verifier::external_type_specification]
#[verifier::external_body]
pub struct ExPathBuf(std::path::PathBuf);

/// Arithmetic operation to be applied to each pixel's set of distance values
/// to neighboring texture points.
///
/// As an example, consider a pixel with the following distances to its
/// neighbors: [1.0, 2.0, 3.0]. If the distance operation is set to `Add`, the
/// final distance value for that pixel will be 1.0 + 2.0 + 3.0 = 6.0.
#[derive(Clone, Copy, Debug, PartialEq, Eq, Structural)]
pub enum DistanceOperation {
    /// Add distances.
    Add,
    /// Subtract distances.
    Subtract,
    /// Multiply distances.
    Multiply,
    /// Divide distances.
    Divide,
}

/// Cellular texture generation configs.
pub struct Config {
    /// Dimensions of the output image.
    pub dimensions: ImageDimensions,
    /// Whether to invert the colors of the output image.
    pub invert_colors: bool,
    /// Number of neighbors to consider per pixel.
    pub num_neighbors: u32,
    /// Number of texture points to generate.
    pub num_texture_points: u32,
    /// Distance operation to use during texture generation.
    pub dist_op: DistanceOperation,
    /// Path to the output image file.
    pub output_file: std::path::PathBuf,
}

impl Config {
    /// Creates a new `Config` instance with the specified parameters.
    pub fn new(
        dimensions: ImageDimensions,
        invert_colors: bool,
        num_neighbors: u32,
        num_texture_points: u32,
        dist_op: DistanceOperation,
        output_file: std::path::PathBuf,
    ) -> (r: Config)
        ensures
            r.dimensions == dimensions,
            r.invert_colors == invert_colors,
            r.num_neighbors == num_neighbors,
            r.num_texture_points == num_texture_points,
            r.dist_op == dist_op,
            r.output_file == output_file,
    {
        Config { dimensions, invert_colors, num_neighbors, num_texture_points, dist_op, output_file }
    }
}

/// The ways a texture generation can fail.
#[derive(Clone, Copy, Debug, PartialEq, Eq, Structural)]
pub enum Error {
    /// A pixel's neighbor query returned no texture point; carries the
    /// pixel's coordinate.
    NoNeighborsFound { x: i32, y: i32 },
    /// A normalized intensity fell outside the 8-bit grayscale range.
    IntensityConversionError,
    /// A coordinate could not be represented in the spatial index's
    /// coordinate type; carries the coordinate value.
    CoordinateConversionError { value: u32 },
}

} // verus!
