use kornia_apriltag::stages::Clusters;
use kornia_apriltag::union_find::UnionFind;
use kornia_apriltag::{
    AprilTagDecoder, AprilTagError, DecodeTagsConfig, Image, ImageSize, Pixel, Stages, TagFamily,
    TagFamilyKind,
};
use kornia_image::allocator::CpuAllocator;
use kornia_imgproc::interpolation::InterpolationMode;
use kornia_imgproc::resize::resize_fast_mono;

/// What a run of the stages below hands on from one to the next.
#[derive(Debug, Clone, PartialEq)]
struct Seen {
    /// The components, once they were found.
    parents: Vec<usize>,
    /// How many clusters there were before and after clustering.
    clusters_before: usize,
    clusters_after: usize,
    /// The binary image to which quads were fitted, and the least width of a tag.
    binary: Vec<Pixel>,
    least_width: usize,
    /// The image from which tags were read, and the state of the gray models.
    source: Vec<u8>,
    gray: u8,
}

/// Stages that write down what they are given. Pixels count as white from one hundred on; pixels
/// of the colour of the first one are connected with it; each run adds a cluster and a quad.
/// Thresholding fails where it is asked for a difference of two hundred or more, connecting where
/// there are no pixels.
struct Tracing;

impl Stages for Tracing {
    type FitQuadConfig = u32;
    type TileMinMax = ();
    type GradientInfo = Seen;
    type GrayModelPair = u8;
    type Quad = Seen;
    type Detection = Seen;
    type Error = String;

    fn new_tile_min_max(_img_size: ImageSize, _tile_size: usize) {}

    fn new_gray_model_pair() -> u8 {
        7
    }

    fn reset_gray_model_pair(gray_model_pair: &mut u8) {
        *gray_model_pair = 7;
    }

    fn adaptive_threshold(
        src: &Image<u8>,
        bin_img: &mut Image<Pixel>,
        _tile_min_max: &mut (),
        min_white_black_difference: u8,
    ) -> Result<(), String> {
        if min_white_black_difference >= 200 {
            return Err(format!("difference {min_white_black_difference}"));
        }
        for (pixel, value) in bin_img.data.iter_mut().zip(src.data.iter()) {
            *pixel = if *value >= 100 { Pixel::White } else { Pixel::Black };
        }
        Ok(())
    }

    fn find_connected_components(
        bin_img: &Image<Pixel>,
        uf: &mut UnionFind,
    ) -> Result<(), String> {
        if bin_img.data.is_empty() {
            return Err("nothing to connect".to_string());
        }
        for i in 1..uf.parents.len() {
            if bin_img.data[i] == bin_img.data[0] {
                uf.parents[i] = 0;
            }
        }
        Ok(())
    }

    fn find_gradient_clusters(
        _bin_img: &Image<Pixel>,
        uf: &mut UnionFind,
        clusters: &mut Clusters<Seen>,
    ) {
        let seen = Seen {
            parents: uf.parents.clone(),
            clusters_before: clusters.len(),
            clusters_after: 0,
            binary: vec![],
            least_width: 0,
            source: vec![],
            gray: 0,
        };
        clusters.insert((clusters.len(), 1), vec![seen]);
    }

    fn fit_quads(
        bin_img: &Image<Pixel>,
        clusters: &mut Clusters<Seen>,
        config: &DecodeTagsConfig<u32>,
    ) -> Vec<Seen> {
        let mut quads: Vec<Seen> = clusters.values().map(|points| points[0].clone()).collect();
        quads.sort_by_key(|seen| seen.clusters_before);
        for quad in quads.iter_mut() {
            quad.clusters_after = clusters.len();
            quad.binary = bin_img.data.clone();
            quad.least_width = config.min_tag_width;
        }
        quads
    }

    fn decode_tags(
        src: &Image<u8>,
        quads: &mut Vec<Seen>,
        config: &mut DecodeTagsConfig<u32>,
        gray_model_pair: &mut u8,
    ) -> Vec<Seen> {
        for quad in quads.iter_mut() {
            quad.source = src.data.clone();
            quad.gray = *gray_model_pair;
        }
        *gray_model_pair += 1;
        config.fit_quad_config += 1;
        quads.clone()
    }
}

type Decoder = AprilTagDecoder<Tracing>;

fn config(downscale_factor: usize) -> DecodeTagsConfig<u32> {
    let mut config = DecodeTagsConfig::new(vec![TagFamilyKind::Tag36H11]);
    config.downscale_factor = downscale_factor;
    config
}

/// An image whose pixels count up from zero, row by row.
fn ramp(width: usize, height: usize) -> Image<u8> {
    Image {
        size: ImageSize { width, height },
        data: (0..width * height).map(|i| (i % 256) as u8).collect(),
    }
}

#[test]
fn new_decoder_keeps_its_configuration() {
    let decoder = Decoder::new(config(2), [50, 40].into()).unwrap();
    assert_eq!(*decoder.config(), config(2));
    assert_eq!(
        decoder.tag_families().to_vec(),
        vec![TagFamily::from(&TagFamilyKind::Tag36H11)]
    );
}

#[test]
fn image_size_from_width_and_height() {
    let size: ImageSize = [50, 55].into();
    assert_eq!(size, ImageSize { width: 50, height: 55 });
}

#[test]
fn decoder_with_hamming_distance() {
    let decoder = Decoder::with_hamming_distance(
        vec![TagFamilyKind::Tag36H11],
        1,
        ImageSize { width: 640, height: 480 },
    )
    .unwrap();
    assert_eq!(
        *decoder.config(),
        DecodeTagsConfig::with_hamming_distance(vec![TagFamilyKind::Tag36H11], 1)
    );
    assert_eq!(decoder.tag_families()[0].hamming_distance, Some(1));
    assert_eq!(decoder.config().min_tag_width, 4);
}

#[test]
fn decoder_add_extends_the_configuration() {
    let mut decoder = Decoder::new(config(2), [50, 50].into()).unwrap();
    decoder.add(TagFamily::from(&TagFamilyKind::TagCircle21H7));
    let mut expected = config(2);
    expected.add(TagFamily::from(&TagFamilyKind::TagCircle21H7));
    assert_eq!(*decoder.config(), expected);
    assert_eq!(decoder.tag_families().len(), 2);
    assert!(decoder.config().reversed_border);
}

#[test]
fn decode_runs_the_stages_on_the_shrunk_image() {
    let mut decoder = Decoder::new(config(2), [4, 4].into()).unwrap();
    let src = Image {
        size: ImageSize { width: 4, height: 4 },
        data: vec![1, 2, 3, 4, 5, 200, 7, 8, 9, 10, 11, 12, 13, 14, 15, 201],
    };
    let found = decoder.decode(&src).unwrap();
    assert_eq!(found.len(), 1);
    let seen = &found[0];
    // The centres of the four squares, in which only two pixels are bright.
    assert_eq!(
        seen.binary,
        vec![Pixel::White, Pixel::Black, Pixel::Black, Pixel::White]
    );
    assert_eq!(seen.parents, vec![0, 1, 2, 0]);
    assert_eq!(seen.clusters_before, 0);
    assert_eq!(seen.clusters_after, 1);
    assert_eq!(seen.least_width, 8);
    assert_eq!(seen.source, src.data);
    assert_eq!(seen.gray, 7);
    assert_eq!(decoder.config().fit_quad_config, 1);
}

#[test]
fn decode_runs_the_stages_on_the_image_itself() {
    for factor in [0, 1] {
        let mut decoder = Decoder::new(config(factor), [3, 1].into()).unwrap();
        let src = Image {
            size: ImageSize { width: 3, height: 1 },
            data: vec![100, 99, 255],
        };
        let found = decoder.decode(&src).unwrap();
        assert_eq!(
            found[0].binary,
            vec![Pixel::White, Pixel::Black, Pixel::White]
        );
        assert_eq!(found[0].parents, vec![0, 1, 0]);
        assert_eq!(found[0].source, src.data);
    }
}

/// Reports the image that was thresholded, and how, as the error of thresholding.
struct Reporting;

impl Stages for Reporting {
    type FitQuadConfig = u32;
    type TileMinMax = (ImageSize, usize);
    type GradientInfo = u8;
    type GrayModelPair = u8;
    type Quad = u8;
    type Detection = u8;
    type Error = (Image<u8>, Image<Pixel>, (ImageSize, usize), u8);

    fn new_tile_min_max(img_size: ImageSize, tile_size: usize) -> (ImageSize, usize) {
        (img_size, tile_size)
    }

    fn new_gray_model_pair() -> u8 {
        0
    }

    fn reset_gray_model_pair(_gray_model_pair: &mut u8) {}

    fn adaptive_threshold(
        src: &Image<u8>,
        bin_img: &mut Image<Pixel>,
        tile_min_max: &mut (ImageSize, usize),
        min_white_black_difference: u8,
    ) -> Result<(), Self::Error> {
        Err((
            src.clone(),
            bin_img.clone(),
            *tile_min_max,
            min_white_black_difference,
        ))
    }

    fn find_connected_components(
        _bin_img: &Image<Pixel>,
        _uf: &mut UnionFind,
    ) -> Result<(), Self::Error> {
        panic!("thresholding failed")
    }

    fn find_gradient_clusters(
        _bin_img: &Image<Pixel>,
        _uf: &mut UnionFind,
        _clusters: &mut Clusters<u8>,
    ) {
        panic!("thresholding failed")
    }

    fn fit_quads(
        _bin_img: &Image<Pixel>,
        _clusters: &mut Clusters<u8>,
        _config: &DecodeTagsConfig<u32>,
    ) -> Vec<u8> {
        panic!("thresholding failed")
    }

    fn decode_tags(
        _src: &Image<u8>,
        _quads: &mut Vec<u8>,
        _config: &mut DecodeTagsConfig<u32>,
        _gray_model_pair: &mut u8,
    ) -> Vec<u8> {
        panic!("thresholding failed")
    }
}

fn reported(
    downscale_factor: usize,
    made_for: ImageSize,
    src: &Image<u8>,
) -> (Image<u8>, Image<Pixel>, (ImageSize, usize), u8) {
    let mut decoder =
        AprilTagDecoder::<Reporting>::new(config(downscale_factor), made_for).unwrap();
    match decoder.decode(src) {
        Err(AprilTagError::Stage(report)) => report,
        Err(AprilTagError::ImageError(e)) => panic!("{e}"),
        Ok(_) => panic!("the stage failed"),
    }
}

#[test]
fn fresh_decoder_hands_out_empty_working_images() {
    let (_, bin_img, tiles, difference) = reported(2, [7, 5].into(), &ramp(7, 5));
    assert_eq!(bin_img.size, ImageSize { width: 3, height: 2 });
    assert_eq!(bin_img.data, vec![Pixel::Skip; 6]);
    assert_eq!(tiles, (ImageSize { width: 3, height: 2 }, 4));
    assert_eq!(difference, 5);
}

#[test]
fn hamming_distance_decoder_works_at_half_size() {
    let size = ImageSize { width: 640, height: 480 };
    let mut decoder =
        AprilTagDecoder::<Reporting>::with_hamming_distance(vec![TagFamilyKind::Tag36H11], 1, size)
            .unwrap();
    match decoder.decode(&ramp(640, 480)) {
        Err(AprilTagError::Stage((img, bin_img, tiles, difference))) => {
            let half = ImageSize { width: 320, height: 240 };
            assert_eq!(img.size, half);
            assert_eq!(bin_img.size, half);
            assert_eq!(bin_img.data, vec![Pixel::Skip; 320 * 240]);
            assert_eq!(tiles, (half, 4));
            assert_eq!(difference, 5);
        }
        _ => panic!("the stage failed"),
    }
}

#[test]
fn unshrunk_decoder_works_at_full_size() {
    let (img, bin_img, tiles, _) = reported(1, [7, 5].into(), &ramp(7, 5));
    assert_eq!(img, ramp(7, 5));
    assert_eq!(bin_img.size, ImageSize { width: 7, height: 5 });
    assert_eq!(bin_img.data, vec![Pixel::Skip; 35]);
    assert_eq!(tiles, (ImageSize { width: 7, height: 5 }, 4));
}

#[test]
fn divisible_images_shrink_to_the_centres_of_squares() {
    let (img, _, _, _) = reported(2, [6, 4].into(), &ramp(6, 4));
    assert_eq!(img.size, ImageSize { width: 3, height: 2 });
    assert_eq!(img.data, vec![7, 9, 11, 19, 21, 23]);

    let (img, _, _, _) = reported(3, [6, 3].into(), &ramp(6, 3));
    assert_eq!(img.size, ImageSize { width: 2, height: 1 });
    assert_eq!(img.data, vec![7, 10]);
}

#[test]
fn halved_images_keep_every_second_pixel() {
    let (img, _, _, _) = reported(2, [5, 5].into(), &ramp(5, 5));
    assert_eq!(img.data, vec![6, 8, 16, 18]);
    let (img, _, _, _) = reported(2, [7, 2].into(), &ramp(7, 2));
    assert_eq!(img.data, vec![8, 10, 12]);
    for (width, height) in [(55, 3), (2, 55), (15, 15), (50, 4)] {
        let src = ramp(width, height);
        let (img, _, _, _) = reported(2, src.size, &src);
        for y in 0..height / 2 {
            for x in 0..width / 2 {
                assert_eq!(
                    img.data[y * (width / 2) + x],
                    src.data[(2 * y + 1) * width + 2 * x + 1]
                );
            }
        }
    }
}

/// Each pixel is taken from under its middle; only where that falls between two pixels, and the
/// widths do not divide, may it be either of them.
#[test]
fn rows_of_any_width_are_taken_from_under_the_middle() {
    for from in 1..40 {
        for to in 1..40 {
            let src = ramp(from, 1);
            let (img, _, _, _) = reported(2, [2 * to, 2].into(), &src);
            assert_eq!(img.data.len(), to);
            for x in 0..to {
                let halves = (2 * x + 1) * from;
                let place = halves / (2 * to);
                let either = halves % (2 * to) == 0 && from % to != 0;
                let taken = img.data[x] as usize;
                assert!(taken == place || either && taken == place - 1);
            }
        }
    }
}

#[test]
fn other_images_shrink_as_the_resizer_does() {
    for (width, height) in [(5, 5), (7, 3), (11, 9), (15, 13), (2, 31)] {
        let src = ramp(width, height);
        let (img, _, _, _) = reported(2, src.size, &src);
        let from = kornia_image::Image::<u8, 1, CpuAllocator>::new(
            kornia_image::ImageSize { width, height },
            src.data.clone(),
            CpuAllocator,
        )
        .unwrap();
        let mut to = kornia_image::Image::<u8, 1, CpuAllocator>::from_size_val(
            kornia_image::ImageSize {
                width: width / 2,
                height: height / 2,
            },
            0,
            CpuAllocator,
        )
        .unwrap();
        resize_fast_mono(&from, &mut to, InterpolationMode::Nearest).unwrap();
        assert_eq!(img.data, to.into_vec());
        assert_eq!(img.size, ImageSize { width: width / 2, height: height / 2 });
        assert!(img.data.iter().all(|v| src.data.contains(v)));
    }
}

#[test]
fn images_of_another_size_are_resized_too() {
    let (img, _, _, _) = reported(2, [4, 4].into(), &ramp(2, 2));
    assert_eq!(img.size, ImageSize { width: 2, height: 2 });
    assert_eq!(img.data, vec![0, 1, 2, 3]);
    let (img, _, _, _) = reported(2, [4, 4].into(), &ramp(8, 4));
    assert_eq!(img.data, vec![10, 14, 26, 30]);
}

#[test]
fn accepted_sizes() {
    let decoder = Decoder::new(config(2), [4, 4].into()).unwrap();
    assert!(decoder.accepts([4, 4].into()));
    assert!(decoder.accepts([1, 1].into()));
    assert!(!decoder.accepts([0, 4].into()));
    assert!(!decoder.accepts([4, 0].into()));

    // Nothing is left of the width.
    let decoder = Decoder::new(config(5), [4, 4].into()).unwrap();
    assert!(!decoder.accepts([4, 4].into()));

    // Nothing is left of the height.
    let decoder = Decoder::new(config(2), [4, 1].into()).unwrap();
    assert!(decoder.accepts([4, 1].into()));
    assert!(decoder.accepts([4, 0].into()));

    let decoder = Decoder::new(config(1), [4, 4].into()).unwrap();
    assert!(decoder.accepts([0, 0].into()));
}

#[test]
fn image_without_rows_shrinks_to_nothing() {
    let (img, bin_img, _, _) = reported(2, [4, 1].into(), &ramp(4, 1));
    assert_eq!(img.size, ImageSize { width: 2, height: 0 });
    assert!(img.data.is_empty());
    assert!(bin_img.data.is_empty());
    let (img, _, _, _) = reported(2, [4, 1].into(), &ramp(4, 0));
    assert!(img.data.is_empty());
}

#[test]
fn error_of_thresholding_ends_the_run() {
    let mut settings = config(1);
    settings.min_white_black_difference = 200;
    let mut decoder = Decoder::new(settings.clone(), [2, 1].into()).unwrap();
    let src = ramp(2, 1);
    match decoder.decode(&src) {
        Err(AprilTagError::Stage(e)) => assert_eq!(e, "difference 200"),
        _ => panic!("thresholding fails"),
    }
    assert_eq!(*decoder.config(), settings);
}

#[test]
fn error_of_connecting_ends_the_run() {
    let mut decoder = Decoder::new(config(1), [0, 0].into()).unwrap();
    match decoder.decode(&ramp(0, 0)) {
        Err(AprilTagError::Stage(e)) => assert_eq!(e, "nothing to connect"),
        _ => panic!("connecting fails"),
    }
    assert_eq!(*decoder.config(), config(1));
}

#[test]
fn state_builds_up_without_clear() {
    let mut decoder = Decoder::new(config(1), [2, 1].into()).unwrap();
    let src = ramp(2, 1);
    let first = decoder.decode(&src).unwrap();
    let second = decoder.decode(&src).unwrap();
    assert_eq!(first.len(), 1);
    assert_eq!(second.len(), 2);
    assert_eq!(second[1].clusters_before, 1);
    assert_eq!(second[0].gray, 8);
}

#[test]
fn cleared_decoder_runs_like_a_fresh_one() {
    let mut decoder = Decoder::new(config(1), [3, 1].into()).unwrap();
    let bright = Image {
        size: ImageSize { width: 3, height: 1 },
        data: vec![200, 200, 200],
    };
    let mixed = Image {
        size: ImageSize { width: 3, height: 1 },
        data: vec![200, 0, 0],
    };
    let joined = decoder.decode(&bright).unwrap();
    assert_eq!(joined[0].parents, vec![0, 0, 0]);
    decoder.clear();
    decoder.clear();
    let again = decoder.decode(&mixed).unwrap();

    let mut fresh = Decoder::new(config(1), [3, 1].into()).unwrap();
    let expected = fresh.decode(&mixed).unwrap();
    assert_eq!(again, expected);
    assert_eq!(again[0].parents, vec![0, 1, 2]);
}

#[test]
fn clearing_a_fresh_decoder_changes_nothing() {
    let src = ramp(4, 4);
    let mut cleared = Decoder::new(config(2), [4, 4].into()).unwrap();
    cleared.clear();
    let mut fresh = Decoder::new(config(2), [4, 4].into()).unwrap();
    assert_eq!(cleared.config(), fresh.config());
    assert_eq!(cleared.decode(&src).unwrap(), fresh.decode(&src).unwrap());
}

#[test]
fn clear_keeps_the_configuration() {
    let mut decoder = Decoder::new(config(2), [4, 4].into()).unwrap();
    decoder.decode(&ramp(4, 4)).unwrap();
    let before = decoder.config().clone();
    decoder.clear();
    assert_eq!(*decoder.config(), before);
    assert!(decoder.accepts([4, 4].into()));
}

#[test]
fn union_find_starts_and_resets_to_singletons() {
    let mut uf = UnionFind::new(4);
    assert_eq!(uf.parents, vec![0, 1, 2, 3]);
    uf.parents = vec![0, 0, 1, 0];
    uf.reset();
    assert_eq!(uf.parents, vec![0, 1, 2, 3]);
    assert!(UnionFind::new(0).parents.is_empty());
}
