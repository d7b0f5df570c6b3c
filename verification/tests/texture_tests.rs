use std::path::PathBuf;

use cellular_textures::Config;
use cellular_textures::DistanceOperation;
use cellular_textures::Error;
use cellular_textures::ImageDimensions;
use cellular_textures::Pixel;
use cellular_textures::TextureAlgoData;
use cellular_textures::generate_search_tree;
use cellular_textures::generate_texture;
use cellular_textures::generate_texture_from_points;
use cellular_textures::set_pixel_intensity;

#[test]
fn wrapped_distance_computes_correct_distance_without_wrapping() {
    let dimensions = ImageDimensions::new(10, 10);
    let pixel1 = Pixel::new([0, 0], 0);
    let pixel2 = Pixel::new([3, 4], 0);
    assert_eq!(pixel1.wrapped_distance(&pixel2, &dimensions), 5.0_f64.to_bits());
}

#[test]
fn wrapped_distance_computes_correct_distance_with_wrapping() {
    let dimensions = ImageDimensions::new(10, 10);
    let pixel1 = Pixel::new([0, 0], 0);
    let pixel2 = Pixel::new([9, 9], 0);
    assert_eq!(pixel1.wrapped_distance(&pixel2, &dimensions), 2.0_f64.sqrt().to_bits());
}

#[test]
fn generate_search_tree_generates_empty_tree() {
    let dimensions = ImageDimensions::new(10, 10);
    let search_tree = generate_search_tree(0, &dimensions);
    assert!(search_tree.is_ok());

    let search_tree = search_tree.unwrap();
    assert!(search_tree.is_empty());
}

#[test]
fn generate_search_tree_generates_tree_with_size_equal_to_num_texture_points() {
    let dimensions = ImageDimensions::new(10, 10);
    let search_tree = generate_search_tree(5, &dimensions);
    assert!(search_tree.is_ok());

    let search_tree = search_tree.unwrap();
    assert_eq!(search_tree.len(), 5);
}

#[test]
fn set_pixel_intensity_returns_error_when_grayscale_value_cannot_be_converted() {
    let mut texture_pixels = vec![Pixel::new([0, 0], 0)];
    // The following texture_data definition guarantees the pixel intensity value will be 5.
    // When we multiply 5 * 255, we'll be outside the bounds of Pixel.grayscale field's u8
    // limit.
    let texture_data = TextureAlgoData {
        min_dist: 0.0_f64.to_bits(),
        max_dist: 1.0_f64.to_bits(),
        dist_buffer: vec![5.0_f64.to_bits()],
    };
    assert!(set_pixel_intensity(&mut texture_pixels, &texture_data, false).is_err());
}

#[test]
fn set_pixel_intensity_correctly_updates_pixel_intensities() {
    let mut texture_pixels = vec![
        Pixel::new([0, 0], 0),
        Pixel::new([1, 0], 0),
        Pixel::new([0, 1], 0),
        Pixel::new([1, 1], 0),
    ];
    let texture_data = TextureAlgoData {
        min_dist: 0.0_f64.to_bits(),
        max_dist: 1.0_f64.to_bits(),
        dist_buffer: vec![
            0.5_f64.to_bits(),
            0.25_f64.to_bits(),
            0.75_f64.to_bits(),
            1.0_f64.to_bits(),
        ],
    };
    set_pixel_intensity(&mut texture_pixels, &texture_data, false).unwrap();
    assert_eq!(texture_pixels[0].grayscale, 128); // 0.5 * 255 = 127.5 -> 128
    assert_eq!(texture_pixels[1].grayscale, 64); // 0.25 * 255 = 63.75 -> 64
    assert_eq!(texture_pixels[2].grayscale, 191); // 0.75 * 255 = 191.25 -> 191
    assert_eq!(texture_pixels[3].grayscale, 255); // 1.0 * 255 = 255 -> 255
}

#[test]
fn generate_textures_returns_error_when_no_neighbors_found() {
    let config = Config::new(
        ImageDimensions::new(10, 10),
        false,
        1,
        0, // No texture points means there are no neighbors to search for.
        DistanceOperation::Add,
        PathBuf::from("/foo/bar/texture.png"),
    );
    assert!(generate_texture(&config).is_err());
}

#[test]
fn no_neighbors_error_carries_first_pixel_coordinate() {
    let config = Config::new(
        ImageDimensions::new(10, 10),
        false,
        3,
        0,
        DistanceOperation::Multiply,
        PathBuf::from("/tmp/out.png"),
    );
    let r = generate_texture(&config);
    assert_eq!(r.unwrap_err(), Error::NoNeighborsFound { x: 0, y: 0 });
}

#[test]
fn set_pixel_intensity_failure_is_intensity_conversion() {
    let mut texture_pixels = vec![Pixel::new([0, 0], 0), Pixel::new([1, 0], 0)];
    let texture_data = TextureAlgoData {
        min_dist: 0.0_f64.to_bits(),
        max_dist: 1.0_f64.to_bits(),
        dist_buffer: vec![0.5_f64.to_bits(), (-7.0_f64).to_bits()],
    };
    let r = set_pixel_intensity(&mut texture_pixels, &texture_data, false);
    assert_eq!(r.unwrap_err(), Error::IntensityConversionError);
    // The pixel before the failing one was already written.
    assert_eq!(texture_pixels[0].grayscale, 128);
    assert_eq!(texture_pixels[1].grayscale, 0);
}

#[test]
fn coordinate_conversion_fails_past_i32_range() {
    assert_eq!(cellular_textures::tree::coord_to_i32(5).unwrap(), 5);
    assert_eq!(
        cellular_textures::tree::coord_to_i32(0x8000_0000).unwrap_err(),
        Error::CoordinateConversionError { value: 0x8000_0000 }
    );
}

#[test]
fn sqrt_bits_matches_binary64_square_root() {
    let cases = [0.0, -0.0, 1.0, 2.0, 4.0, 0.25, 0.5, 170.0, 1e300, 1e-300, 5e-324, f64::INFINITY];
    for v in cases {
        assert_eq!(
            cellular_textures::sqrt::sqrt_bits(v.to_bits()),
            v.sqrt().to_bits(),
            "square root of {v}"
        );
    }
    assert!(f64::from_bits(cellular_textures::sqrt::sqrt_bits((-5.0_f64).to_bits())).is_nan());
}

#[test]
fn wrapped_distance_of_a_pixel_to_itself_is_zero() {
    let dimensions = ImageDimensions::new(7, 13);
    let p = Pixel::new([5, 12], 0);
    assert_eq!(p.wrapped_distance(&p, &dimensions), 0.0_f64.to_bits());
}

#[test]
fn wrapped_distance_is_symmetric() {
    let dimensions = ImageDimensions::new(10, 6);
    let p1 = Pixel::new([1, 5], 0);
    let p2 = Pixel::new([8, 2], 0);
    assert_eq!(
        p1.wrapped_distance(&p2, &dimensions),
        p2.wrapped_distance(&p1, &dimensions)
    );
}

/// The two texture points used by the fold tests, and the per-pixel wrapped
/// distances they produce on an 8x1 grid, nearest (by the index's planar
/// metric) first.
fn fold_fixture() -> (Vec<Pixel>, Vec<[f64; 2]>) {
    let points = vec![Pixel::new([0, 0], 0), Pixel::new([3, 1], 0)];
    // Per pixel x: planar order decides which point comes first; the wrapped
    // x-differences on width 8 are |x| or 8-|x|, and height 1 wraps every
    // y-difference to zero.
    let dists = vec![
        [0.0, 3.0],
        [1.0, 2.0],
        [1.0, 2.0],
        [0.0, 3.0],
        [1.0, 4.0],
        [2.0, 3.0],
        [3.0, 2.0],
        [4.0, 1.0],
    ];
    (points, dists)
}

fn expected_grays(raw: &[f64], invert: bool) -> Vec<u8> {
    let mn = raw.iter().copied().fold(f64::INFINITY, f64::min);
    let mx = raw.iter().copied().fold(f64::NEG_INFINITY, f64::max);
    raw.iter()
        .map(|v| {
            let t = (v - mn) / (mx - mn);
            let i = if invert { 1.0 - t } else { t };
            u8::try_from((i * 255.0).round() as i64).unwrap()
        })
        .collect()
}

fn run_fold_case(op: DistanceOperation, fold: impl Fn(f64, f64) -> f64) -> (Vec<u8>, Vec<u8>) {
    let (points, dists) = fold_fixture();
    let config = Config::new(
        ImageDimensions::new(8, 1),
        false,
        2,
        2,
        op,
        PathBuf::from("/tmp/out.png"),
    );
    let texture = generate_texture_from_points(&points, &config).unwrap();
    let raw: Vec<f64> = dists.iter().map(|d| fold(d[0], d[1])).collect();
    let expected = expected_grays(&raw, false);
    let got: Vec<u8> = texture.iter().map(|p| p.grayscale).collect();
    (got, expected)
}

#[test]
fn add_fold_matches_binary64_pipeline() {
    let (got, expected) = run_fold_case(DistanceOperation::Add, |a, b| a + b);
    assert_eq!(got, expected);
    assert_eq!(got, vec![0, 0, 0, 0, 255, 255, 255, 255]);
}

#[test]
fn subtract_fold_matches_binary64_pipeline() {
    let (got, expected) = run_fold_case(DistanceOperation::Subtract, |a, b| a - b);
    assert_eq!(got, expected);
    assert_eq!(got, vec![0, 85, 85, 0, 0, 85, 170, 255]);
}

#[test]
fn multiply_fold_matches_binary64_pipeline() {
    let (got, expected) = run_fold_case(DistanceOperation::Multiply, |a, b| a * b);
    assert_eq!(got, expected);
    assert_eq!(got, vec![0, 85, 85, 0, 170, 255, 255, 170]);
}

#[test]
fn divide_fold_matches_binary64_pipeline() {
    let (got, expected) = run_fold_case(DistanceOperation::Divide, |a, b| a / b);
    assert_eq!(got, expected);
}

#[test]
fn generation_from_fixed_points_is_repeatable() {
    let points = vec![
        Pixel::new([1, 1], 0),
        Pixel::new([7, 3], 0),
        Pixel::new([4, 6], 0),
    ];
    let config = Config::new(
        ImageDimensions::new(8, 8),
        true,
        2,
        3,
        DistanceOperation::Add,
        PathBuf::from("/tmp/out.png"),
    );
    let first = generate_texture_from_points(&points, &config).unwrap();
    let second = generate_texture_from_points(&points, &config).unwrap();
    assert_eq!(first.len(), second.len());
    for (a, b) in first.iter().zip(second.iter()) {
        assert_eq!(a.location, b.location);
        assert_eq!(a.grayscale, b.grayscale);
    }
}

#[test]
fn generated_texture_covers_grid_in_row_major_order() {
    let config = Config::new(
        ImageDimensions::new(4, 3),
        false,
        1,
        5,
        DistanceOperation::Add,
        PathBuf::from("/tmp/out.png"),
    );
    let texture = generate_texture(&config).unwrap();
    assert_eq!(texture.len(), 12);
    for (idx, px) in texture.iter().enumerate() {
        assert_eq!(px.location, [(idx % 4) as i32, (idx / 4) as i32]);
    }
}

#[test]
fn empty_grid_yields_empty_texture() {
    let config = Config::new(
        ImageDimensions::new(0, 10),
        false,
        1,
        0,
        DistanceOperation::Add,
        PathBuf::from("/tmp/out.png"),
    );
    let texture = generate_texture(&config).unwrap();
    assert!(texture.is_empty());
}

#[test]
fn uniform_distance_field_fails_intensity_conversion() {
    // A single pixel makes the minimum equal the maximum; the normalization
    // divides zero by zero and the non-finite intensity aborts the pass.
    let points = vec![Pixel::new([0, 0], 0)];
    let config = Config::new(
        ImageDimensions::new(1, 1),
        false,
        1,
        1,
        DistanceOperation::Add,
        PathBuf::from("/tmp/out.png"),
    );
    let r = generate_texture_from_points(&points, &config);
    assert_eq!(r.unwrap_err(), Error::IntensityConversionError);
}

#[test]
fn inverted_colors_flip_the_gradient() {
    let mut texture_pixels = vec![Pixel::new([0, 0], 0), Pixel::new([1, 0], 0)];
    let texture_data = TextureAlgoData {
        min_dist: 0.0_f64.to_bits(),
        max_dist: 1.0_f64.to_bits(),
        dist_buffer: vec![0.0_f64.to_bits(), 1.0_f64.to_bits()],
    };
    set_pixel_intensity(&mut texture_pixels, &texture_data, true).unwrap();
    assert_eq!(texture_pixels[0].grayscale, 255);
    assert_eq!(texture_pixels[1].grayscale, 0);
}
