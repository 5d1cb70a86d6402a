//! The decoder: what it keeps between images, and the run of its stages over one image.

use crate::config::{one_default, DecodeTagsConfig, DEFAULT_DOWNSCALE_FACTOR};
use crate::errors::AprilTagError;
use crate::family::{TagFamily, TagFamilyKind};
use crate::image::{
    filled_pixels, law_nearest_place_touches_the_middle, law_pixels_of_an_image, lemma_addressable,
    nearest_place, resampled, resizable, resize_nearest, takes_nearest, Image, ImageSize, Pixel,
};
use crate::reuse::{law_decode_follows_stages, StageRelations};
use crate::stages::{Clusters, Stages};
use crate::union_find::{singletons, UnionFind};
use std::collections::HashMap;
use vstd::prelude::*;

verus! {

/// The side of the tiles whose extremes steer thresholding, in pixels.
pub const TILE_SIZE: usize = 4;

/// Decoder for AprilTag detection and decoding.
pub struct AprilTagDecoder<S: Stages> {
    config: DecodeTagsConfig<S::FitQuadConfig>,
    downscale_img: Option<Image<u8>>,
    bin_img: Image<Pixel>,
    tile_min_max: S::TileMinMax,
    uf: UnionFind,
    clusters: Clusters<S::GradientInfo>,
    gray_model_pair: S::GrayModelPair,
}

/// What a decoder keeps.
pub struct DecoderState<S: Stages> {
    /// The configuration.
    pub config: DecodeTagsConfig<S::FitQuadConfig>,
    /// The shrunk input, where the decoder shrinks it.
    pub downscale_img: Option<Image<u8>>,
    /// The thresholded image.
    pub bin_img: Image<Pixel>,
    /// The extremes by which the image was thresholded.
    pub tile_min_max: S::TileMinMax,
    /// The components of the thresholded image.
    pub uf: UnionFind,
    /// The points between components.
    pub clusters: Clusters<S::GradientInfo>,
    /// The models of white and of black.
    pub gray_model_pair: S::GrayModelPair,
}

impl<S: Stages> View for AprilTagDecoder<S> {
    type V = DecoderState<S>;

    closed spec fn view(&self) -> DecoderState<S> {
        DecoderState {
            config: self.config,
            downscale_img: self.downscale_img,
            bin_img: self.bin_img,
            tile_min_max: self.tile_min_max,
            uf: self.uf,
            clusters: self.clusters,
            gray_model_pair: self.gray_model_pair,
        }
    }
}

impl<S: Stages> DecoderState<S> {
    /// The image that the input is shrunk into is whole.
    pub open spec fn wf(self) -> bool {
        self.downscale_img matches Some(img) ==> img.wf()
    }

    /// An image of the given size can be decoded.
    pub open spec fn accepts(self, size: ImageSize) -> bool {
        self.downscale_img matches Some(img) ==> resizable(size, img.size)
    }

    /// The state in which a decoder with the given configuration starts, for images of the given
    /// size.
    pub open spec fn is_fresh(
        self,
        config: DecodeTagsConfig<S::FitQuadConfig>,
        img_size: ImageSize,
    ) -> bool {
        let size = img_size.shrunk(config.downscale_factor);
        &&& self.config == config
        &&& self.downscale_img is Some == (config.downscale_factor > 1)
        &&& self.downscale_img matches Some(img) ==> img.size == size && img.data@ == Seq::new(
            size.area(),
            |i: int| 0u8,
        )
        &&& self.bin_img.size == size
        &&& self.bin_img.data@ == Seq::new(size.area(), |i: int| Pixel::Skip)
        &&& call_ensures(S::new_tile_min_max, (size, TILE_SIZE), self.tile_min_max)
        &&& self.uf.parents@ == singletons(size.area())
        &&& self.clusters@ == Map::<(usize, usize), Vec<S::GradientInfo>>::empty()
        &&& call_ensures(S::new_gray_model_pair, (), self.gray_model_pair)
    }

    /// There are no components of more than one pixel, no points between components, and the models
    /// of white and of black are as new.
    pub open spec fn is_clear(self) -> bool {
        &&& self.uf.parents@ == singletons(self.uf.parents@.len())
        &&& self.clusters@ == Map::<(usize, usize), Vec<S::GradientInfo>>::empty()
        &&& call_ensures(S::new_gray_model_pair, (), self.gray_model_pair)
    }

    /// `post` is this state with the components and the points between them forgotten, and the
    /// rest, but for the models of white and of black, as it was.
    pub open spec fn forgets_into(self, post: Self) -> bool {
        &&& post.uf.parents@ == singletons(self.uf.parents@.len())
        &&& post.clusters@ == Map::<(usize, usize), Vec<S::GradientInfo>>::empty()
        &&& post.config == self.config
        &&& post.downscale_img == self.downscale_img
        &&& post.bin_img == self.bin_img
        &&& post.tile_min_max == self.tile_min_max
    }
}

impl<S: Stages> AprilTagDecoder<S> {
    /// Returns a reference to the decoder configuration.
    pub fn config(&self) -> (r: &DecodeTagsConfig<S::FitQuadConfig>)
        ensures
            *r == self@.config,
    {
        &self.config
    }

    /// Adds a tag family to the decoder configuration.
    pub fn add(&mut self, family: TagFamily)
        ensures
            old(self)@.config.extended_by(family, final(self)@.config),
            final(self)@.config.tag_families@ == old(self)@.config.tag_families@.push(family),
            family.reversed_border ==> final(self)@.config.reversed_border,
            !family.reversed_border ==> final(self)@.config.normal_border,
            final(self)@.config.min_tag_width <= family.width_at_border,
            old(self)@.config.borders_match() ==> final(self)@.config.borders_match(),
            old(self)@.config.covers_families() ==> final(self)@.config.covers_families(),
            final(self)@ == (DecoderState { config: final(self)@.config, ..old(self)@ }),
    {
        self.config.add(family);
    }

    /// Creates a new `AprilTagDecoder` with the given configuration and image size.
    ///
    /// The working images have the size of the image, shrunk by the downscale factor of the
    /// configuration.
    pub fn new(config: DecodeTagsConfig<S::FitQuadConfig>, img_size: ImageSize) -> (r: Result<
        Self,
        AprilTagError<S::Error>,
    >)
        requires
            img_size.shrunk(config.downscale_factor).addressable(),
        ensures
            r is Ok,
            r->Ok_0@.is_fresh(config, img_size),
            r->Ok_0@.wf(),
            r->Ok_0@.config == config,
            config.downscale_factor <= 1 ==> r->Ok_0@.bin_img.size == img_size,
            config.downscale_factor > 1 ==> {
                &&& r->Ok_0@.bin_img.size.width == img_size.width / config.downscale_factor
                &&& r->Ok_0@.bin_img.size.height == img_size.height / config.downscale_factor
            },
            r->Ok_0@.uf.parents@.len() == r->Ok_0@.bin_img.size.width
                * r->Ok_0@.bin_img.size.height,
            forall|i: int|
                0 <= i < r->Ok_0@.uf.parents@.len() ==> #[trigger] r->Ok_0@.uf.parents@[i] == i,
    {
        proof {
            lemma_addressable(img_size.shrunk(config.downscale_factor));
        }
        let (img_size, downscale_img) = if config.downscale_factor <= 1 {
            (img_size, None)
        } else {
            let new_size = ImageSize {
                width: img_size.width / config.downscale_factor,
                height: img_size.height / config.downscale_factor,
            };
            let data = match filled_pixels(new_size, 0u8) {
                Ok(data) => data,
                Err(e) => return Err(AprilTagError::ImageError(e)),
            };
            (new_size, Some(Image { size: new_size, data }))
        };

        let bin_img = match filled_pixels(img_size, Pixel::Skip) {
            Ok(data) => Image { size: img_size, data },
            Err(e) => return Err(AprilTagError::ImageError(e)),
        };
        let tile_min_max = S::new_tile_min_max(img_size, TILE_SIZE);
        let uf = UnionFind::new(img_size.width * img_size.height);

        Ok(
            Self {
                config,
                downscale_img,
                bin_img,
                tile_min_max,
                uf,
                clusters: HashMap::new(),
                gray_model_pair: S::new_gray_model_pair(),
            },
        )
    }

    /// Creates a new `AprilTagDecoder` with a custom hamming distance for error correction
    /// (0-3 recommended).
    pub fn with_hamming_distance(
        tag_family_kinds: Vec<TagFamilyKind>,
        hamming_distance: u8,
        img_size: ImageSize,
    ) -> (r: Result<Self, AprilTagError<S::Error>>)
        requires
            img_size.shrunk(DEFAULT_DOWNSCALE_FACTOR).addressable(),
        ensures
            r is Ok,
            r->Ok_0@.config.is_correcting(tag_family_kinds@, hamming_distance),
            r->Ok_0@.config.tag_families@.len() == tag_family_kinds@.len(),
            forall|i: int|
                0 <= i < tag_family_kinds@.len() ==> {
                    &&& (#[trigger] r->Ok_0@.config.tag_families@[i]).kind == tag_family_kinds@[i]
                    &&& r->Ok_0@.config.tag_families@[i].hamming_distance == Some(hamming_distance)
                },
            r->Ok_0@.is_fresh(r->Ok_0@.config, img_size),
            r->Ok_0@.wf(),
    {
        let config = DecodeTagsConfig::with_hamming_distance(tag_family_kinds, hamming_distance);
        Self::new(config, img_size)
    }

    /// Returns whether images of the given size can be decoded: where the decoder shrinks its
    /// input, there must be something to shrink, and something must be left of it.
    pub fn accepts(&self, size: ImageSize) -> (r: bool)
        ensures
            r == self@.accepts(size),
    {
        match &self.downscale_img {
            None => true,
            Some(img) => {
                let most: usize = isize::MAX as usize;
                0 < size.width && size.width <= most && (0 < size.height || img.size.height == 0)
                    && 0 < img.size.width && img.size.width <= most / 16
            },
        }
    }

    /// Decodes AprilTags from the provided grayscale image.
    ///
    /// Where the decoder shrinks its input, the shrunk image is thresholded, else the image itself.
    /// In the thresholded image components are found, then the points between them, then quads;
    /// tags are read in the image itself. The first error of a stage ends the run, and what later
    /// stages would have changed stays as it was.
    ///
    /// A decoder that decodes one image after another is to be [cleared](AprilTagDecoder::clear)
    /// in between: components and clusters are kept from one run to the next.
    pub fn decode(&mut self, src: &Image<u8>) -> (r: Result<
        Vec<S::Detection>,
        AprilTagError<S::Error>,
    >)
        requires
            src.wf(),
            old(self)@.wf(),
            old(self)@.accepts(src.size),
        ensures
            final(self)@.wf(),
            shrinks_into(old(self)@.downscale_img, *src, final(self)@.downscale_img),
            (forall|stages: StageRelations<S>| {
                &&& forall|
                    img: &Image<u8>,
                    bin: &mut Image<Pixel>,
                    tiles: &mut S::TileMinMax,
                    difference: u8,
                    outcome: Result<(), S::Error>,
                | #[trigger]
                    call_ensures(S::adaptive_threshold, (img, bin, tiles, difference), outcome)
                        ==> (stages.threshold)(
                        *img,
                        *bin,
                        *tiles,
                        difference,
                        *final(bin),
                        *final(tiles),
                        outcome,
                    )
                &&& forall|bin: &Image<Pixel>, uf: &mut UnionFind, outcome: Result<(), S::Error>|
                    #[trigger]
                    call_ensures(S::find_connected_components, (bin, uf), outcome) ==> (
                    stages.connect)(*bin, *uf, *final(uf), outcome)
                &&& forall|
                    bin: &Image<Pixel>,
                    uf: &mut UnionFind,
                    clusters: &mut Clusters<S::GradientInfo>,
                | #[trigger]
                    call_ensures(S::find_gradient_clusters, (bin, uf, clusters), ()) ==> (
                    stages.cluster)(*bin, *uf, *clusters, *final(uf), *final(clusters))
                &&& forall|
                    bin: &Image<Pixel>,
                    clusters: &mut Clusters<S::GradientInfo>,
                    config: &DecodeTagsConfig<S::FitQuadConfig>,
                    quads: Vec<S::Quad>,
                | #[trigger]
                    call_ensures(S::fit_quads, (bin, clusters, config), quads) ==> (stages.fit)(
                        *bin,
                        *clusters,
                        *config,
                        *final(clusters),
                        quads,
                    )
                &&& forall|
                    img: &Image<u8>,
                    quads: &mut Vec<S::Quad>,
                    config: &mut DecodeTagsConfig<S::FitQuadConfig>,
                    gray: &mut S::GrayModelPair,
                    found: Vec<S::Detection>,
                | #[trigger]
                    call_ensures(S::decode_tags, (img, quads, config, gray), found) ==> (
                    stages.read)(
                        *img,
                        *quads,
                        *config,
                        *gray,
                        *final(config),
                        *final(gray),
                        found,
                    )
            } ==> #[trigger] stages.decodes(old(self)@, *src, final(self)@, r)),
            (exists|
                img: &Image<u8>,
                bin_img: &mut Image<Pixel>,
                tile_min_max: &mut S::TileMinMax,
                difference: u8,
                thresholded: Result<(), S::Error>,
            | {
                &&& #[trigger] call_ensures(
                    S::adaptive_threshold,
                    (img, bin_img, tile_min_max, difference),
                    thresholded,
                )
                &&& *img == thresholded_image(final(self)@.downscale_img, *src)
                &&& final(self)@.downscale_img matches Some(shrunk) ==> *img == shrunk
                &&& final(self)@.downscale_img is None ==> *img == *src
                &&& *bin_img == old(self)@.bin_img
                &&& *final(bin_img) == final(self)@.bin_img
                &&& *tile_min_max == old(self)@.tile_min_max
                &&& *final(tile_min_max) == final(self)@.tile_min_max
                &&& difference == old(self)@.config.min_white_black_difference
                &&& match thresholded {
                    Err(e) => {
                        &&& r == Err::<Vec<S::Detection>, _>(AprilTagError::Stage(e))
                        &&& final(self)@.uf == old(self)@.uf
                        &&& final(self)@.clusters == old(self)@.clusters
                        &&& final(self)@.config == old(self)@.config
                        &&& final(self)@.gray_model_pair == old(self)@.gray_model_pair
                    },
                    Ok(_) => exists|
                        binary: &Image<Pixel>,
                        uf: &mut UnionFind,
                        connected: Result<(), S::Error>,
                    | {
                        &&& #[trigger] call_ensures(
                            S::find_connected_components,
                            (binary, uf),
                            connected,
                        )
                        &&& *binary == final(self)@.bin_img
                        &&& *uf == old(self)@.uf
                        &&& match connected {
                            Err(e) => {
                                &&& r == Err::<Vec<S::Detection>, _>(AprilTagError::Stage(e))
                                &&& final(self)@.uf == *final(uf)
                                &&& final(self)@.clusters == old(self)@.clusters
                                &&& final(self)@.config == old(self)@.config
                                &&& final(self)@.gray_model_pair == old(self)@.gray_model_pair
                            },
                            Ok(_) => exists|
                                components: &mut UnionFind,
                                clusters: &mut Clusters<S::GradientInfo>,
                            | {
                                &&& #[trigger] call_ensures(
                                    S::find_gradient_clusters,
                                    (binary, components, clusters),
                                    (),
                                )
                                &&& *components == *final(uf)
                                &&& *final(components) == final(self)@.uf
                                &&& *clusters == old(self)@.clusters
                                &&& exists|
                                    grouped: &mut Clusters<S::GradientInfo>,
                                    config: &DecodeTagsConfig<S::FitQuadConfig>,
                                    quads: Vec<S::Quad>,
                                | {
                                    &&& #[trigger] call_ensures(
                                        S::fit_quads,
                                        (binary, grouped, config),
                                        quads,
                                    )
                                    &&& *grouped == *final(clusters)
                                    &&& *final(grouped) == final(self)@.clusters
                                    &&& *config == old(self)@.config
                                    &&& exists|
                                        fitted: &mut Vec<S::Quad>,
                                        settings: &mut DecodeTagsConfig<S::FitQuadConfig>,
                                        gray_model_pair: &mut S::GrayModelPair,
                                        found: Vec<S::Detection>,
                                    | {
                                        &&& #[trigger] call_ensures(
                                            S::decode_tags,
                                            (src, fitted, settings, gray_model_pair),
                                            found,
                                        )
                                        &&& *fitted == quads
                                        &&& *settings == old(self)@.config
                                        &&& *final(settings) == final(self)@.config
                                        &&& *gray_model_pair == old(self)@.gray_model_pair
                                        &&& *final(gray_model_pair)
                                            == final(self)@.gray_model_pair
                                        &&& r == Ok::<_, AprilTagError<S::Error>>(found)
                                    }
                                }
                            },
                        }
                    },
                }
            }),
    {
        if let Some(downscale_img) = self.downscale_img.as_mut() {
            match resize_nearest(src, downscale_img) {
                Ok(_) => {},
                Err(e) => return Err(AprilTagError::ImageError(e)),
            }
            match S::adaptive_threshold(
                downscale_img,
                &mut self.bin_img,
                &mut self.tile_min_max,
                self.config.min_white_black_difference,
            ) {
                Ok(_) => {},
                Err(e) => {
                    let failed = Err(AprilTagError::Stage(e));
                    proof {
                        law_decode_follows_stages(old(self)@, src, self@, failed);
                    }
                    return failed;
                },
            }
        } else {
            match S::adaptive_threshold(
                src,
                &mut self.bin_img,
                &mut self.tile_min_max,
                self.config.min_white_black_difference,
            ) {
                Ok(_) => {},
                Err(e) => {
                    let failed = Err(AprilTagError::Stage(e));
                    proof {
                        law_decode_follows_stages(old(self)@, src, self@, failed);
                    }
                    return failed;
                },
            }
        }

        match S::find_connected_components(&self.bin_img, &mut self.uf) {
            Ok(_) => {},
            Err(e) => {
                let failed = Err(AprilTagError::Stage(e));
                proof {
                    law_decode_follows_stages(old(self)@, src, self@, failed);
                }
                return failed;
            },
        }

        S::find_gradient_clusters(&self.bin_img, &mut self.uf, &mut self.clusters);

        let mut quads = S::fit_quads(&self.bin_img, &mut self.clusters, &self.config);

        let found = Ok(
            S::decode_tags(src, &mut quads, &mut self.config, &mut self.gray_model_pair),
        );
        proof {
            law_decode_follows_stages(old(self)@, src, self@, found);
        }
        found
    }

    /// Clears the internal state of the decoder for reuse: the components, the points between
    /// them, and the models of white and of black. The configuration, the working images and
    /// the extremes of their tiles stay as they are.
    pub fn clear(&mut self)
        ensures
            old(self)@.forgets_into(final(self)@),
            (forall|stages: StageRelations<S>|
                (forall|gray: &mut S::GrayModelPair| #[trigger]
                    call_ensures(S::reset_gray_model_pair, (gray,), ()) ==> (stages.reset)(
                        *gray,
                        *final(gray),
                    )) ==> #[trigger] stages.clears(old(self)@, final(self)@)),
            final(self)@.uf.parents@.len() == old(self)@.uf.parents@.len(),
            forall|i: int|
                0 <= i < final(self)@.uf.parents@.len() ==> #[trigger] final(self)@.uf.parents@[i]
                    == i,
            (exists|gray_model_pair: &mut S::GrayModelPair| {
                &&& #[trigger] call_ensures(S::reset_gray_model_pair, (gray_model_pair,), ())
                &&& *gray_model_pair == old(self)@.gray_model_pair
                &&& *final(gray_model_pair) == final(self)@.gray_model_pair
            }),
    {
        self.uf.reset();
        self.clusters.clear();
        S::reset_gray_model_pair(&mut self.gray_model_pair);
    }

    /// Returns a slice of tag families configured for detection.
    pub fn tag_families(&self) -> (r: &[TagFamily])
        ensures
            r@ == self@.config.tag_families@,
    {
        self.config.tag_families.as_slice()
    }
}

/// `after` is `before` with `src` shrunk into it, where there is an image to shrink it into.
pub open spec fn shrinks_into(
    before: Option<Image<u8>>,
    src: Image<u8>,
    after: Option<Image<u8>>,
) -> bool {
    match before {
        None => after is None,
        Some(img) => {
            &&& after is Some
            &&& after->Some_0.size == img.size
            &&& after->Some_0.data@ == resampled(src.data@, src.size, img.size)
            &&& forall|i: int|
                0 <= i < after->Some_0.data@.len() ==> src.data@.contains(
                    #[trigger] after->Some_0.data@[i],
                )
            &&& src.size.precise() && img.size.precise() ==> takes_nearest(
                after->Some_0.data@,
                src.data@,
                src.size,
                img.size,
            )
        },
    }
}

/// The image that is thresholded: the shrunk one, where there is one.
pub open spec fn thresholded_image(downscale_img: Option<Image<u8>>, src: Image<u8>) -> Image<u8> {
    match downscale_img {
        None => src,
        Some(img) => img,
    }
}

/// In a fresh decoder the images agree in size, and there is one component for each pixel.
pub proof fn law_fresh_sizes_agree<S: Stages>(
    state: DecoderState<S>,
    config: DecodeTagsConfig<S::FitQuadConfig>,
    img_size: ImageSize,
)
    requires
        state.is_fresh(config, img_size),
    ensures
        state.wf(),
        state.bin_img.wf(),
        state.downscale_img matches Some(img) ==> img.size == state.bin_img.size,
        state.uf.parents@.len() == state.bin_img.size.area(),
        state.uf.parents@.len() == state.bin_img.data@.len(),
{
}

/// A fresh decoder takes images of the size it was made for, unless it shrinks them and no column
/// is left, or there are more columns than can be counted.
pub proof fn law_fresh_accepts_its_size<S: Stages>(
    state: DecoderState<S>,
    config: DecodeTagsConfig<S::FitQuadConfig>,
    img_size: ImageSize,
)
    requires
        state.is_fresh(config, img_size),
    ensures
        state.accepts(img_size) == (config.downscale_factor > 1 ==> {
            &&& img_size.width <= isize::MAX
            &&& 0 < img_size.shrunk(config.downscale_factor).width
            &&& 16 * img_size.shrunk(config.downscale_factor).width <= isize::MAX
        }),
{
    let factor = config.downscale_factor;
    if factor > 1 {
        assert(0int / factor as int == 0) by (nonlinear_arith)
            requires
                factor > 1,
        ;
    }
}

/// A decoder that does not shrink its input works at the size it was made for, and takes images of
/// any size.
pub proof fn law_unshrunk_accepts_any_size<S: Stages>(
    state: DecoderState<S>,
    config: DecodeTagsConfig<S::FitQuadConfig>,
    img_size: ImageSize,
    size: ImageSize,
)
    requires
        state.is_fresh(config, img_size),
        config.downscale_factor <= 1,
    ensures
        state.downscale_img is None,
        state.bin_img.size == img_size,
        state.accepts(size),
{
}

/// Shrinking an image into a decoder leaves the sizes that the decoder takes as they were.
pub proof fn law_decoding_keeps_accepted_sizes<S: Stages>(
    before: DecoderState<S>,
    src: Image<u8>,
    after: DecoderState<S>,
    size: ImageSize,
)
    requires
        shrinks_into(before.downscale_img, src, after.downscale_img),
    ensures
        after.accepts(size) == before.accepts(size),
{
}

/// The decoder that [`AprilTagDecoder::with_hamming_distance`] makes starts like one that
/// [`AprilTagDecoder::new`] makes from the configuration with that distance.
pub proof fn law_hamming_distance_decoder<S: Stages>(
    kinds: Seq<TagFamilyKind>,
    hamming_distance: u8,
    img_size: ImageSize,
    direct: DecoderState<S>,
    config: DecodeTagsConfig<S::FitQuadConfig>,
    configured: DecoderState<S>,
)
    requires
        one_default::<S::FitQuadConfig>(),
        direct.config.is_correcting(kinds, hamming_distance),
        direct.is_fresh(direct.config, img_size),
        config.is_correcting(kinds, hamming_distance),
        configured.is_fresh(config, img_size),
    ensures
        direct.config.same_as(configured.config),
        direct.bin_img.size == img_size.shrunk(DEFAULT_DOWNSCALE_FACTOR),
        direct.bin_img.same_as(configured.bin_img),
        direct.downscale_img is Some,
        configured.downscale_img is Some,
        direct.downscale_img->Some_0.same_as(configured.downscale_img->Some_0),
        direct.uf.parents@ == configured.uf.parents@,
        direct.clusters@ == configured.clusters@,
{
}

/// Once cleared, a decoder keeps its components and the points between them just as a fresh one
/// does, if it still has a component for each pixel. So it does the models of white and of black,
/// for stages that reset them to what new ones can be.
pub proof fn law_cleared_is_like_fresh<S: Stages>(
    fresh: DecoderState<S>,
    img_size: ImageSize,
    used: DecoderState<S>,
    cleared: DecoderState<S>,
)
    requires
        fresh.is_fresh(used.config, img_size),
        used.uf.parents@.len() == fresh.uf.parents@.len(),
        used.forgets_into(cleared),
        exists|gray_model_pair: &mut S::GrayModelPair| {
            &&& #[trigger] call_ensures(S::reset_gray_model_pair, (gray_model_pair,), ())
            &&& *gray_model_pair == used.gray_model_pair
            &&& *final(gray_model_pair) == cleared.gray_model_pair
        },
        forall|gray_model_pair: &mut S::GrayModelPair| #[trigger]
            call_ensures(S::reset_gray_model_pair, (gray_model_pair,), ()) ==> call_ensures(
                S::new_gray_model_pair,
                (),
                *final(gray_model_pair),
            ),
    ensures
        cleared.config == fresh.config,
        cleared.uf.parents@ == fresh.uf.parents@,
        cleared.clusters@ == fresh.clusters@,
        call_ensures(S::new_gray_model_pair, (), cleared.gray_model_pair),
        cleared.is_clear(),
{
}

/// A fresh decoder is clear.
pub proof fn law_fresh_is_clear<S: Stages>(
    state: DecoderState<S>,
    config: DecodeTagsConfig<S::FitQuadConfig>,
    img_size: ImageSize,
)
    requires
        state.is_fresh(config, img_size),
    ensures
        state.is_clear(),
{
}

/// Clearing a decoder that is clear, be it fresh or cleared, changes nothing, for stages whose new
/// models of white and of black are always the same, and which reset them to these.
pub proof fn law_clear_again_changes_nothing<S: Stages>(
    before: DecoderState<S>,
    after: DecoderState<S>,
)
    requires
        before.is_clear(),
        before.forgets_into(after),
        exists|gray_model_pair: &mut S::GrayModelPair| {
            &&& #[trigger] call_ensures(S::reset_gray_model_pair, (gray_model_pair,), ())
            &&& *gray_model_pair == before.gray_model_pair
            &&& *final(gray_model_pair) == after.gray_model_pair
        },
        forall|gray_model_pair: &mut S::GrayModelPair| #[trigger]
            call_ensures(S::reset_gray_model_pair, (gray_model_pair,), ()) ==> call_ensures(
                S::new_gray_model_pair,
                (),
                *final(gray_model_pair),
            ),
        forall|a: S::GrayModelPair, b: S::GrayModelPair|
            #[trigger] call_ensures(S::new_gray_model_pair, (), a) && #[trigger] call_ensures(
                S::new_gray_model_pair,
                (),
                b,
            ) ==> a == b,
    ensures
        after.config == before.config,
        after.downscale_img == before.downscale_img,
        after.bin_img == before.bin_img,
        after.tile_min_max == before.tile_min_max,
        after.uf.parents@ == before.uf.parents@,
        after.clusters@ == before.clusters@,
        after.gray_model_pair == before.gray_model_pair,
{
}

/// Where the downscale factor divides the size of an image, each pixel of the shrunk image is the
/// one in the middle of a square of the image whose side is the factor.
pub proof fn law_divisible_image_shrinks_to_centres(
    before: Image<u8>,
    src: Image<u8>,
    after: Image<u8>,
    factor: usize,
    x: int,
    y: int,
)
    requires
        factor > 1,
        src.size.width as int % factor as int == 0,
        src.size.height as int % factor as int == 0,
        src.size.precise(),
        before.size == src.size.shrunk(factor),
        shrinks_into(Some(before), src, Some(after)),
        after.wf(),
        0 <= x < after.size.width,
        0 <= y < after.size.height,
    ensures
        after.data@[y * after.size.width + x] == src.data@[(y * factor + factor / 2)
            * src.size.width + (x * factor + factor / 2)],
{
    lemma_pixel_at(after, x, y);
    lemma_shrunk_is_precise(src.size, factor);
    assert forall|place: int|
        nearest_place(x, src.size.width as int, after.size.width as int, place) implies place == x
        * factor + factor / 2 by {
        lemma_middle_of_block(x, src.size.width as int, factor as int);
    }
    assert forall|place: int|
        nearest_place(y, src.size.height as int, after.size.height as int, place) implies place
        == y * factor + factor / 2 by {
        lemma_middle_of_block(y, src.size.height as int, factor as int);
    }
}

/// An image that is shrunk by the default factor keeps every second pixel of every second row,
/// from the second on, whatever its size.
pub proof fn law_halved_image_keeps_every_second_pixel(
    before: Image<u8>,
    src: Image<u8>,
    after: Image<u8>,
    x: int,
    y: int,
)
    requires
        src.size.precise(),
        before.size == src.size.shrunk(DEFAULT_DOWNSCALE_FACTOR),
        shrinks_into(Some(before), src, Some(after)),
        after.wf(),
        0 <= x < after.size.width,
        0 <= y < after.size.height,
    ensures
        after.data@[y * after.size.width + x] == src.data@[(2 * y + 1) * src.size.width + (2 * x
            + 1)],
{
    lemma_pixel_at(after, x, y);
    lemma_shrunk_is_precise(src.size, DEFAULT_DOWNSCALE_FACTOR);
    lemma_middle_of_pair(x, src.size.width as int, after.size.width as int);
    lemma_middle_of_pair(y, src.size.height as int, after.size.height as int);
}

/// Where the pixel in the given column and row of an image is kept.
proof fn lemma_pixel_at(img: Image<u8>, x: int, y: int)
    requires
        img.wf(),
        0 <= x < img.size.width,
        0 <= y < img.size.height,
    ensures
        0 <= y * img.size.width + x < img.data@.len(),
        (y * img.size.width + x) / img.size.width as int == y,
        (y * img.size.width + x) % img.size.width as int == x,
{
    let (w, h) = (img.size.width as int, img.size.height as int);
    vstd::arithmetic::div_mod::lemma_fundamental_div_mod_converse(y * w + x, w, y, x);
    assert(0 <= y * w + x < w * h) by (nonlinear_arith)
        requires
            0 <= x < w,
            0 <= y < h,
    ;
}

/// Shrinking makes no side longer.
proof fn lemma_shrunk_is_precise(size: ImageSize, factor: usize)
    requires
        size.precise(),
    ensures
        size.shrunk(factor).precise(),
{
    if factor > 1 {
        vstd::arithmetic::div_mod::lemma_div_is_ordered_by_denominator(
            size.width as int,
            1,
            factor as int,
        );
        vstd::arithmetic::div_mod::lemma_div_is_ordered_by_denominator(
            size.height as int,
            1,
            factor as int,
        );
    }
}

/// In a line of `len` places that is cut into parts of `factor` places each, the middle of the
/// `i`th part.
proof fn lemma_middle_of_block(i: int, len: int, factor: int)
    requires
        1 < factor,
        0 < len / factor,
        len % factor == 0,
    ensures
        len % (len / factor) == 0,
        ((2 * i + 1) * len) / (2 * (len / factor)) == i * factor + factor / 2,
{
    let parts = len / factor;
    let (half, odd) = (factor / 2, factor % 2);
    vstd::arithmetic::div_mod::lemma_fundamental_div_mod(len, factor);
    assert(len == parts * factor) by (nonlinear_arith)
        requires
            len == factor * parts,
    ;
    vstd::arithmetic::div_mod::lemma_fundamental_div_mod_converse(len, parts, factor, 0);
    assert((2 * i + 1) * len == (i * factor + half) * (2 * parts) + odd * parts)
        by (nonlinear_arith)
        requires
            len == parts * factor,
            factor == 2 * half + odd,
    ;
    assert(0 <= odd * parts < 2 * parts) by (nonlinear_arith)
        requires
            0 <= odd < 2,
            0 < parts,
    ;
    vstd::arithmetic::div_mod::lemma_fundamental_div_mod_converse(
        (2 * i + 1) * len,
        2 * parts,
        i * factor + half,
        odd * parts,
    );
}

/// In a line of `len` places that is cut into half as many parts, rounded down, the only place
/// under the middle of the `i`th part.
proof fn lemma_middle_of_pair(i: int, len: int, parts: int)
    requires
        parts == len / 2,
        0 <= i < parts,
    ensures
        forall|place: int| #[trigger] nearest_place(i, len, parts, place) ==> place == 2 * i + 1,
{
    if len == 2 * parts {
        lemma_middle_of_block(i, len, 2);
    } else {
        assert((2 * i + 1) * len == (2 * i + 1) * (2 * parts) + (2 * i + 1)) by (nonlinear_arith)
            requires
                len == 2 * parts + 1,
        ;
        vstd::arithmetic::div_mod::lemma_fundamental_div_mod_converse(
            (2 * i + 1) * len,
            2 * parts,
            2 * i + 1,
            2 * i + 1,
        );
    }
}

/// Where a decoder starts: with the configuration it was given, working images of the size of the
/// image, divided by the downscale factor where that is more than one, tiles of four by four
/// pixels, each pixel in a set of its own, no clusters, and new gray models. The binary image has
/// only skipped pixels. An image to shrink the input into, all of it zero, is there where the factor
/// is more than one.
pub proof fn law_where_a_decoder_starts<S: Stages>(
    state: DecoderState<S>,
    config: DecodeTagsConfig<S::FitQuadConfig>,
    img_size: ImageSize,
)
    requires
        state.is_fresh(config, img_size),
    ensures
        state.config == config,
        config.downscale_factor <= 1 ==> {
            &&& state.downscale_img is None
            &&& state.bin_img.size.width == img_size.width
            &&& state.bin_img.size.height == img_size.height
        },
        config.downscale_factor > 1 ==> {
            &&& state.downscale_img is Some
            &&& state.downscale_img->Some_0.size == state.bin_img.size
            &&& state.downscale_img->Some_0.data@.len() == state.bin_img.data@.len()
            &&& forall|i: int|
                0 <= i < state.bin_img.data@.len() ==> (
                #[trigger] state.downscale_img->Some_0.data@[i]) == 0
            &&& state.bin_img.size.width == img_size.width / config.downscale_factor
            &&& state.bin_img.size.height == img_size.height / config.downscale_factor
        },
        state.bin_img.data@.len() == state.bin_img.size.width * state.bin_img.size.height,
        forall|i: int|
            0 <= i < state.bin_img.data@.len() ==> #[trigger] state.bin_img.data@[i] is Skip,
        call_ensures(S::new_tile_min_max, (state.bin_img.size, 4usize), state.tile_min_max),
        state.uf.parents@.len() == state.bin_img.data@.len(),
        forall|i: int| 0 <= i < state.uf.parents@.len() ==> #[trigger] state.uf.parents@[i] == i,
        state.clusters@.dom() == Set::<(usize, usize)>::empty(),
        call_ensures(S::new_gray_model_pair, (), state.gray_model_pair),
{
    assert(state.uf.parents.len() <= usize::MAX);
    assert(state.bin_img.size.width * state.bin_img.size.height >= 0) by (nonlinear_arith);
}

/// What clearing leaves: each pixel in a set of its own, as many as before, and no clusters. The
/// configuration, the working images and the tiles are as they were. So no two pixels are joined.
pub proof fn law_what_clearing_leaves<S: Stages>(before: DecoderState<S>, after: DecoderState<S>)
    requires
        before.forgets_into(after),
    ensures
        after.uf.parents@.len() == before.uf.parents@.len(),
        forall|i: int| 0 <= i < after.uf.parents@.len() ==> #[trigger] after.uf.parents@[i] == i,
        forall|i: int, j: int|
            0 <= i < after.uf.parents@.len() && 0 <= j < after.uf.parents@.len()
                && #[trigger] after.uf.parents@[i] == #[trigger] after.uf.parents@[j] ==> i == j,
        after.clusters@.dom() == Set::<(usize, usize)>::empty(),
        after.config == before.config,
        after.downscale_img == before.downscale_img,
        after.bin_img == before.bin_img,
        after.tile_min_max == before.tile_min_max,
{
    assert(before.uf.parents.len() <= usize::MAX);
}

/// A clear decoder has joined no pixels, has no clusters, and has gray models that are as new.
pub proof fn law_what_is_clear<S: Stages>(state: DecoderState<S>)
    requires
        state.is_clear(),
    ensures
        forall|i: int| 0 <= i < state.uf.parents@.len() ==> #[trigger] state.uf.parents@[i] == i,
        state.clusters@.dom() == Set::<(usize, usize)>::empty(),
        call_ensures(S::new_gray_model_pair, (), state.gray_model_pair),
{
    assert(state.uf.parents.len() <= usize::MAX);
}

/// Which images a decoder takes: any, unless it shrinks them; then those that have pixels enough
/// for the image that they are shrunk into, up to what can be counted. And it is well-formed where
/// that image is whole.
pub proof fn law_which_images_are_taken<S: Stages>(state: DecoderState<S>, size: ImageSize)
    ensures
        state.downscale_img is None ==> state.wf() && state.accepts(size),
        state.downscale_img matches Some(img) ==> {
            &&& state.wf() <==> img.data@.len() == img.size.width * img.size.height
            &&& state.accepts(size) <==> {
                &&& size.width > 0
                &&& size.width <= isize::MAX
                &&& size.height > 0 || img.size.height == 0
                &&& img.size.width > 0
                &&& img.size.width * 16 <= isize::MAX
            }
        },
{
    if let Some(img) = state.downscale_img {
        law_pixels_of_an_image(img);
    }
}

/// The image that is thresholded is the one that the run has shrunk the input into, in every
/// decoder that has one, and the input itself in every other.
pub proof fn law_shrunk_image_is_thresholded(
    before: Option<Image<u8>>,
    src: Image<u8>,
    after: Option<Image<u8>>,
)
    requires
        shrinks_into(before, src, after),
    ensures
        before is None <==> after is None,
        before is None ==> thresholded_image(after, src) == src,
        before is Some ==> {
            &&& thresholded_image(after, src) == after->Some_0
            &&& thresholded_image(after, src).size == before->Some_0.size
            &&& forall|i: int|
                0 <= i < after->Some_0.data@.len() ==> src.data@.contains(
                    #[trigger] thresholded_image(after, src).data@[i],
                )
        },
{
}

/// In a fresh decoder that shrinks its input, the image that is thresholded has the size of the
/// binary image, whatever the size of the input. In one that does not, that is so for inputs of
/// the size that it was made for.
pub proof fn law_thresholded_image_fits_the_binary_one<S: Stages>(
    state: DecoderState<S>,
    config: DecodeTagsConfig<S::FitQuadConfig>,
    img_size: ImageSize,
    src: Image<u8>,
    after: Option<Image<u8>>,
)
    requires
        state.is_fresh(config, img_size),
        shrinks_into(state.downscale_img, src, after),
    ensures
        config.downscale_factor > 1 || src.size == img_size ==> {
            &&& thresholded_image(after, src).size.width == state.bin_img.size.width
            &&& thresholded_image(after, src).size.height == state.bin_img.size.height
        },
{
}

/// With the default downscale factor, what is thresholded in place of an image of the size that the
/// decoder was made for is every second pixel of every second row of it, from the second on.
pub proof fn law_every_second_pixel_is_thresholded<S: Stages>(
    state: DecoderState<S>,
    config: DecodeTagsConfig<S::FitQuadConfig>,
    src: Image<u8>,
    after: Option<Image<u8>>,
    x: int,
    y: int,
)
    requires
        state.is_fresh(config, src.size),
        config.downscale_factor == 2,
        src.size.width <= 0x200_0000,
        src.size.height <= 0x200_0000,
        shrinks_into(state.downscale_img, src, after),
        after->Some_0.wf(),
        0 <= x < src.size.width / 2,
        0 <= y < src.size.height / 2,
    ensures
        thresholded_image(after, src).data@[y * (src.size.width / 2) + x] == src.data@[(2 * y + 1)
            * src.size.width + (2 * x + 1)],
{
    law_halved_image_keeps_every_second_pixel(
        state.downscale_img->Some_0,
        src,
        after->Some_0,
        x,
        y,
    );
}

/// What an image is shrunk to depends on it and the size it is shrunk to, and on nothing that was
/// shrunk before.
pub proof fn law_shrinking_forgets_what_was_there(
    before: Image<u8>,
    other: Image<u8>,
    src: Image<u8>,
    after: Image<u8>,
    other_after: Image<u8>,
)
    requires
        before.size == other.size,
        shrinks_into(Some(before), src, Some(after)),
        shrinks_into(Some(other), src, Some(other_after)),
    ensures
        after.size == before.size,
        after.size == other_after.size,
        after.data@ == other_after.data@,
{
}

/// Each pixel of a shrunk image, of whatever size, is one that lies under its middle in the image
/// that was shrunk: in the column `sx` and the row `sy`, which touch that middle.
pub proof fn law_shrunk_pixel_lies_under_its_middle(
    before: Image<u8>,
    src: Image<u8>,
    after: Image<u8>,
    x: int,
    y: int,
) -> (place: (int, int))
    requires
        shrinks_into(Some(before), src, Some(after)),
        after.wf(),
        src.size.width <= 0x200_0000,
        src.size.height <= 0x200_0000,
        before.size.width <= 0x200_0000,
        before.size.height <= 0x200_0000,
        0 < src.size.width,
        0 < src.size.height,
        0 <= x < after.size.width,
        0 <= y < after.size.height,
    ensures
        0 <= place.0 < src.size.width,
        0 <= place.1 < src.size.height,
        2 * after.size.width * place.0 <= (2 * x + 1) * src.size.width,
        (2 * x + 1) * src.size.width <= 2 * after.size.width * (place.0 + 1),
        2 * after.size.height * place.1 <= (2 * y + 1) * src.size.height,
        (2 * y + 1) * src.size.height <= 2 * after.size.height * (place.1 + 1),
        after.data@[y * after.size.width + x] == src.data@[place.1 * src.size.width + place.0],
{
    lemma_pixel_at(after, x, y);
    let i = y * after.size.width + x;
    let (w, h) = (after.size.width as int, after.size.height as int);
    let (sx, sy): (int, int) = choose|sx: int, sy: int|
        {
            &&& #[trigger] nearest_place(i % w, src.size.width as int, w, sx)
            &&& #[trigger] nearest_place(i / w, src.size.height as int, h, sy)
            &&& after.data@[i] == src.data@[sy * src.size.width + sx]
        };
    law_nearest_place_touches_the_middle(x, src.size.width as int, w, sx);
    law_nearest_place_touches_the_middle(y, src.size.height as int, h, sy);
    (sx, sy)
}

} // verus!
