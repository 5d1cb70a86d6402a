//! The use of one decoder for one image after another.
//!
//! What a decoder finds depends on its stages. So the laws here are about what is known of them:
//! [`StageRelations`] holds that as relations of what goes into a stage to what comes out, and
//! [`Likeness`] holds which values make no difference to the stages.

use crate::config::DecodeTagsConfig;
use crate::decoder::{
    law_what_clearing_leaves, shrinks_into, thresholded_image, DecoderState, TILE_SIZE,
};
use crate::errors::AprilTagError;
use crate::image::{Image, ImageSize, Pixel};
use crate::stages::{Clusters, Stages};
use crate::union_find::{singletons, UnionFind};
use vstd::prelude::*;

verus! {

/// What is known of the stages: for each, a relation of what it is given, as it was before, to what
/// it leaves and returns.
#[verifier::reject_recursive_types(S)]
pub struct StageRelations<S: Stages> {
    /// Of thresholding: the image, the binary image, the tiles and the difference, to the binary
    /// image, the tiles and the outcome.
    pub threshold: spec_fn(
        Image<u8>,
        Image<Pixel>,
        S::TileMinMax,
        u8,
        Image<Pixel>,
        S::TileMinMax,
        Result<(), S::Error>,
    ) -> bool,
    /// Of connecting: the binary image and the components, to the components and the outcome.
    pub connect: spec_fn(Image<Pixel>, UnionFind, UnionFind, Result<(), S::Error>) -> bool,
    /// Of clustering: the binary image, the components and the clusters, to the components and the
    /// clusters.
    pub cluster: spec_fn(
        Image<Pixel>,
        UnionFind,
        Clusters<S::GradientInfo>,
        UnionFind,
        Clusters<S::GradientInfo>,
    ) -> bool,
    /// Of fitting: the binary image, the clusters and the configuration, to the clusters and the
    /// quads.
    pub fit: spec_fn(
        Image<Pixel>,
        Clusters<S::GradientInfo>,
        DecodeTagsConfig<S::FitQuadConfig>,
        Clusters<S::GradientInfo>,
        Vec<S::Quad>,
    ) -> bool,
    /// Of reading: the image, the quads, the configuration and the gray models, to the
    /// configuration, the gray models and what was found.
    pub read: spec_fn(
        Image<u8>,
        Vec<S::Quad>,
        DecodeTagsConfig<S::FitQuadConfig>,
        S::GrayModelPair,
        DecodeTagsConfig<S::FitQuadConfig>,
        S::GrayModelPair,
        Vec<S::Detection>,
    ) -> bool,
    /// Of the reset of the gray models: what they were, to what they are.
    pub reset: spec_fn(S::GrayModelPair, S::GrayModelPair) -> bool,
}

impl<S: Stages> StageRelations<S> {
    /// A run over `src` took the decoder from `before` to `after` and returned `r`.
    pub open spec fn decodes(
        self,
        before: DecoderState<S>,
        src: Image<u8>,
        after: DecoderState<S>,
        r: Result<Vec<S::Detection>, AprilTagError<S::Error>>,
    ) -> bool {
        &&& shrinks_into(before.downscale_img, src, after.downscale_img)
        &&& exists|thresholded: Result<(), S::Error>|
            {
                &&& #[trigger] (self.threshold)(
                    thresholded_image(after.downscale_img, src),
                    before.bin_img,
                    before.tile_min_max,
                    before.config.min_white_black_difference,
                    after.bin_img,
                    after.tile_min_max,
                    thresholded,
                )
                &&& match thresholded {
                    Err(e) => {
                        &&& r == Err::<Vec<S::Detection>, _>(AprilTagError::Stage(e))
                        &&& after.uf == before.uf
                        &&& after.clusters == before.clusters
                        &&& after.config == before.config
                        &&& after.gray_model_pair == before.gray_model_pair
                    },
                    Ok(_) => self.decodes_binary(before, src, after, r),
                }
            }
    }

    /// The part of a run that comes after thresholding.
    pub open spec fn decodes_binary(
        self,
        before: DecoderState<S>,
        src: Image<u8>,
        after: DecoderState<S>,
        r: Result<Vec<S::Detection>, AprilTagError<S::Error>>,
    ) -> bool {
        exists|joined: UnionFind, connected: Result<(), S::Error>|
            {
                &&& #[trigger] (self.connect)(after.bin_img, before.uf, joined, connected)
                &&& match connected {
                    Err(e) => {
                        &&& r == Err::<Vec<S::Detection>, _>(AprilTagError::Stage(e))
                        &&& after.uf == joined
                        &&& after.clusters == before.clusters
                        &&& after.config == before.config
                        &&& after.gray_model_pair == before.gray_model_pair
                    },
                    Ok(_) => self.decodes_components(before, src, joined, after, r),
                }
            }
    }

    /// The part of a run that comes after the components were found.
    pub open spec fn decodes_components(
        self,
        before: DecoderState<S>,
        src: Image<u8>,
        joined: UnionFind,
        after: DecoderState<S>,
        r: Result<Vec<S::Detection>, AprilTagError<S::Error>>,
    ) -> bool {
        exists|grouped: Clusters<S::GradientInfo>, quads: Vec<S::Quad>|
            {
                &&& #[trigger] (self.cluster)(
                    after.bin_img,
                    joined,
                    before.clusters,
                    after.uf,
                    grouped,
                )
                &&& #[trigger] (self.fit)(
                    after.bin_img,
                    grouped,
                    before.config,
                    after.clusters,
                    quads,
                )
                &&& r is Ok
                &&& (self.read)(
                    src,
                    quads,
                    before.config,
                    before.gray_model_pair,
                    after.config,
                    after.gray_model_pair,
                    r->Ok_0,
                )
            }
    }

    /// Clearing took the decoder from `before` to `after`.
    pub open spec fn clears(self, before: DecoderState<S>, after: DecoderState<S>) -> bool {
        &&& before.forgets_into(after)
        &&& (self.reset)(before.gray_model_pair, after.gray_model_pair)
    }
}

/// What [`AprilTagDecoder::decode`](crate::AprilTagDecoder::decode) states of a run gives the run in
/// terms of what is known of the stages.
pub proof fn law_decode_follows_stages<S: Stages>(
    before: DecoderState<S>,
    src: &Image<u8>,
    after: DecoderState<S>,
    r: Result<Vec<S::Detection>, AprilTagError<S::Error>>,
)
    requires
        shrinks_into(before.downscale_img, *src, after.downscale_img),
        (exists|
            img: &Image<u8>,
            bin_img: &mut Image<Pixel>,
            tile_min_max: &mut S::TileMinMax,
            difference: u8,
            thresholded: Result<(), S::Error>,
        | {
            &&& #[trigger] call_ensures(
                S::adaptive_threshold,
                (img, bin_img, tile_min_max, difference),
                thresholded,
            )
            &&& *img == thresholded_image(after.downscale_img, *src)
            &&& *bin_img == before.bin_img
            &&& *final(bin_img) == after.bin_img
            &&& *tile_min_max == before.tile_min_max
            &&& *final(tile_min_max) == after.tile_min_max
            &&& difference == before.config.min_white_black_difference
            &&& match thresholded {
                Err(e) => {
                    &&& r == Err::<Vec<S::Detection>, _>(AprilTagError::Stage(e))
                    &&& after.uf == before.uf
                    &&& after.clusters == before.clusters
                    &&& after.config == before.config
                    &&& after.gray_model_pair == before.gray_model_pair
                },
                Ok(_) => exists|
                    binary: &Image<Pixel>,
                    uf: &mut UnionFind,
                    connected: Result<(), S::Error>,
                | {
                    &&& #[trigger] call_ensures(
                        S::find_connected_components,
                        (binary, uf),
                        connected,
                    )
                    &&& *binary == after.bin_img
                    &&& *uf == before.uf
                    &&& match connected {
                        Err(e) => {
                            &&& r == Err::<Vec<S::Detection>, _>(AprilTagError::Stage(e))
                            &&& after.uf == *final(uf)
                            &&& after.clusters == before.clusters
                            &&& after.config == before.config
                            &&& after.gray_model_pair == before.gray_model_pair
                        },
                        Ok(_) => exists|
                            components: &mut UnionFind,
                            clusters: &mut Clusters<S::GradientInfo>,
                        | {
                            &&& #[trigger] call_ensures(
                                S::find_gradient_clusters,
                                (binary, components, clusters),
                                (),
                            )
                            &&& *components == *final(uf)
                            &&& *final(components) == after.uf
                            &&& *clusters == before.clusters
                            &&& exists|
                                grouped: &mut Clusters<S::GradientInfo>,
                                config: &DecodeTagsConfig<S::FitQuadConfig>,
                                quads: Vec<S::Quad>,
                            | {
                                &&& #[trigger] call_ensures(
                                    S::fit_quads,
                                    (binary, grouped, config),
                                    quads,
                                )
                                &&& *grouped == *final(clusters)
                                &&& *final(grouped) == after.clusters
                                &&& *config == before.config
                                &&& exists|
                                    fitted: &mut Vec<S::Quad>,
                                    settings: &mut DecodeTagsConfig<S::FitQuadConfig>,
                                    gray_model_pair: &mut S::GrayModelPair,
                                    found: Vec<S::Detection>,
                                | {
                                    &&& #[trigger] call_ensures(
                                        S::decode_tags,
                                        (src, fitted, settings, gray_model_pair),
                                        found,
                                    )
                                    &&& *fitted == quads
                                    &&& *settings == before.config
                                    &&& *final(settings) == after.config
                                    &&& *gray_model_pair == before.gray_model_pair
                                    &&& *final(gray_model_pair)
                                        == after.gray_model_pair
                                    &&& r == Ok::<_, AprilTagError<S::Error>>(found)
                                }
                            }
                        },
                    }
                },
            }
        }),
    ensures
        (forall|stages: StageRelations<S>| {
            &&& forall|
                img: &Image<u8>,
                bin: &mut Image<Pixel>,
                tiles: &mut S::TileMinMax,
                difference: u8,
                outcome: Result<(), S::Error>,
            | #[trigger]
                call_ensures(S::adaptive_threshold, (img, bin, tiles, difference), outcome)
                    ==> (stages.threshold)(
                    *img,
                    *bin,
                    *tiles,
                    difference,
                    *final(bin),
                    *final(tiles),
                    outcome,
                )
            &&& forall|bin: &Image<Pixel>, uf: &mut UnionFind, outcome: Result<(), S::Error>|
                #[trigger]
                call_ensures(S::find_connected_components, (bin, uf), outcome) ==> (
                stages.connect)(*bin, *uf, *final(uf), outcome)
            &&& forall|
                bin: &Image<Pixel>,
                uf: &mut UnionFind,
                clusters: &mut Clusters<S::GradientInfo>,
            | #[trigger]
                call_ensures(S::find_gradient_clusters, (bin, uf, clusters), ()) ==> (
                stages.cluster)(*bin, *uf, *clusters, *final(uf), *final(clusters))
            &&& forall|
                bin: &Image<Pixel>,
                clusters: &mut Clusters<S::GradientInfo>,
                config: &DecodeTagsConfig<S::FitQuadConfig>,
                quads: Vec<S::Quad>,
            | #[trigger]
                call_ensures(S::fit_quads, (bin, clusters, config), quads) ==> (stages.fit)(
                    *bin,
                    *clusters,
                    *config,
                    *final(clusters),
                    quads,
                )
            &&& forall|
                img: &Image<u8>,
                quads: &mut Vec<S::Quad>,
                config: &mut DecodeTagsConfig<S::FitQuadConfig>,
                gray: &mut S::GrayModelPair,
                found: Vec<S::Detection>,
            | #[trigger]
                call_ensures(S::decode_tags, (img, quads, config, gray), found) ==> (
                stages.read)(
                    *img,
                    *quads,
                    *config,
                    *gray,
                    *final(config),
                    *final(gray),
                    found,
                )
        } ==> #[trigger] stages.decodes(before, *src, after, r)),
{
}

/// What [`AprilTagDecoder::clear`](crate::AprilTagDecoder::clear) states gives the clearing in terms
/// of what is known of the stages.
pub proof fn law_clear_follows_stages<S: Stages>(
    stages: StageRelations<S>,
    before: DecoderState<S>,
    after: DecoderState<S>,
)
    requires
        forall|gray: &mut S::GrayModelPair| #[trigger]
            call_ensures(S::reset_gray_model_pair, (gray,), ()) ==> (stages.reset)(
                *gray,
                *final(gray),
            ),
        before.forgets_into(after),
        exists|gray_model_pair: &mut S::GrayModelPair| {
            &&& #[trigger] call_ensures(S::reset_gray_model_pair, (gray_model_pair,), ())
            &&& *gray_model_pair == before.gray_model_pair
            &&& *final(gray_model_pair) == after.gray_model_pair
        },
    ensures
        stages.clears(before, after),
{
}

/// Which values are alike to the stages.
#[verifier::reject_recursive_types(S)]
pub struct Likeness<S: Stages> {
    /// Of configurations.
    pub config: spec_fn(
        DecodeTagsConfig<S::FitQuadConfig>,
        DecodeTagsConfig<S::FitQuadConfig>,
    ) -> bool,
    /// Of the extremes of tiles.
    pub tiles: spec_fn(S::TileMinMax, S::TileMinMax) -> bool,
    /// Of clusters.
    pub clusters: spec_fn(Clusters<S::GradientInfo>, Clusters<S::GradientInfo>) -> bool,
    /// Of quads.
    pub quads: spec_fn(Vec<S::Quad>, Vec<S::Quad>) -> bool,
    /// Of gray models.
    pub gray: spec_fn(S::GrayModelPair, S::GrayModelPair) -> bool,
    /// Of what is found: say, that it is the same up to order.
    pub found: spec_fn(Vec<S::Detection>, Vec<S::Detection>) -> bool,
    /// Of errors.
    pub error: spec_fn(S::Error, S::Error) -> bool,
}

impl<S: Stages> Likeness<S> {
    /// Two stages both succeed, or fail with errors that are alike.
    pub open spec fn outcomes(self, a: Result<(), S::Error>, b: Result<(), S::Error>) -> bool {
        &&& a is Ok == b is Ok
        &&& a is Err ==> (self.error)(a->Err_0, b->Err_0)
    }

    /// Two runs both find tags, and these are alike, or fail with errors that are alike.
    pub open spec fn results(
        self,
        a: Result<Vec<S::Detection>, AprilTagError<S::Error>>,
        b: Result<Vec<S::Detection>, AprilTagError<S::Error>>,
    ) -> bool {
        match (a, b) {
            (Ok(x), Ok(y)) => (self.found)(x, y),
            (Err(AprilTagError::Stage(x)), Err(AprilTagError::Stage(y))) => (self.error)(x, y),
            _ => false,
        }
    }

    /// A decoder in either state works at the same sizes, with configurations and tiles that are
    /// alike.
    pub open spec fn same_frame(self, a: DecoderState<S>, b: DecoderState<S>) -> bool {
        &&& (self.config)(a.config, b.config)
        &&& a.downscale_img is Some == b.downscale_img is Some
        &&& a.downscale_img is Some ==> a.downscale_img->Some_0.size
            == b.downscale_img->Some_0.size
        &&& a.bin_img.size == b.bin_img.size
        &&& a.bin_img.data@.len() == b.bin_img.data@.len()
        &&& (self.tiles)(a.tile_min_max, b.tile_min_max)
        &&& a.uf.parents@.len() == b.uf.parents@.len()
    }

    /// A decoder in either state also has the same components, and clusters and gray models that
    /// are alike.
    pub open spec fn states(self, a: DecoderState<S>, b: DecoderState<S>) -> bool {
        &&& self.same_frame(a, b)
        &&& a.uf.parents@ == b.uf.parents@
        &&& (self.clusters)(a.clusters, b.clusters)
        &&& (self.gray)(a.gray_model_pair, b.gray_model_pair)
    }

    /// What is made anew is alike: tiles of the same size, clusters that are empty, and gray models
    /// that were reset to those that are new. Configurations that are alike ask for the same
    /// difference of white and black.
    pub open spec fn likens_new(self, stages: StageRelations<S>) -> bool {
        &&& forall|size: ImageSize, a: S::TileMinMax, b: S::TileMinMax|
            #[trigger] call_ensures(S::new_tile_min_max, (size, TILE_SIZE), a)
                && #[trigger] call_ensures(S::new_tile_min_max, (size, TILE_SIZE), b)
                ==> (self.tiles)(a, b)
        &&& forall|a: Clusters<S::GradientInfo>, b: Clusters<S::GradientInfo>|
            a@ == Map::<(usize, usize), Vec<S::GradientInfo>>::empty() && b@ == Map::<
                (usize, usize),
                Vec<S::GradientInfo>,
            >::empty() ==> #[trigger] (self.clusters)(a, b)
        &&& forall|was: S::GrayModelPair, is: S::GrayModelPair, new: S::GrayModelPair|
            #[trigger] (stages.reset)(was, is) && #[trigger] call_ensures(
                S::new_gray_model_pair,
                (),
                new,
            ) ==> (self.gray)(is, new)
        &&& forall|
            a: DecodeTagsConfig<S::FitQuadConfig>,
            b: DecodeTagsConfig<S::FitQuadConfig>,
        | #[trigger]
            (self.config)(a, b) ==> a.min_white_black_difference == b.min_white_black_difference
    }

    /// The stages keep the frame of a decoder: no stage changes a size, and tiles and
    /// configurations stay like all that they were like.
    pub open spec fn is_kept(self, stages: StageRelations<S>) -> bool {
        &&& forall|
            img: Image<u8>,
            bin: Image<Pixel>,
            tiles: S::TileMinMax,
            difference: u8,
            new_bin: Image<Pixel>,
            new_tiles: S::TileMinMax,
            r: Result<(), S::Error>,
        | #[trigger]
            (stages.threshold)(img, bin, tiles, difference, new_bin, new_tiles, r) ==> {
                &&& new_bin.size == bin.size
                &&& new_bin.data@.len() == bin.data@.len()
                &&& forall|other: S::TileMinMax| #[trigger]
                    (self.tiles)(tiles, other) ==> (self.tiles)(new_tiles, other)
            }
        &&& forall|bin: Image<Pixel>, uf: UnionFind, new_uf: UnionFind, r: Result<(), S::Error>|
            #[trigger]
            (stages.connect)(bin, uf, new_uf, r) ==> new_uf.parents@.len() == uf.parents@.len()
        &&& forall|
            bin: Image<Pixel>,
            uf: UnionFind,
            clusters: Clusters<S::GradientInfo>,
            new_uf: UnionFind,
            new_clusters: Clusters<S::GradientInfo>,
        | #[trigger]
            (stages.cluster)(bin, uf, clusters, new_uf, new_clusters) ==> new_uf.parents@.len()
                == uf.parents@.len()
        &&& forall|
            img: Image<u8>,
            quads: Vec<S::Quad>,
            config: DecodeTagsConfig<S::FitQuadConfig>,
            gray: S::GrayModelPair,
            new_config: DecodeTagsConfig<S::FitQuadConfig>,
            new_gray: S::GrayModelPair,
            found: Vec<S::Detection>,
        | #[trigger]
            (stages.read)(img, quads, config, gray, new_config, new_gray, found) ==> forall|
                other: DecodeTagsConfig<S::FitQuadConfig>,
            | #[trigger]
                (self.config)(config, other) ==> (self.config)(new_config, other)
    }

    /// The stages make alike of what is alike. Of the binary image, thresholding goes by the size
    /// alone: it overwrites the pixels.
    pub open spec fn is_respected(self, stages: StageRelations<S>) -> bool {
        &&& forall|
            img: Image<u8>,
            bin: Image<Pixel>,
            tiles: S::TileMinMax,
            difference: u8,
            new_bin: Image<Pixel>,
            new_tiles: S::TileMinMax,
            r: Result<(), S::Error>,
            img2: Image<u8>,
            bin2: Image<Pixel>,
            tiles2: S::TileMinMax,
            new_bin2: Image<Pixel>,
            new_tiles2: S::TileMinMax,
            r2: Result<(), S::Error>,
        |
            {
                &&& #[trigger] (stages.threshold)(
                    img,
                    bin,
                    tiles,
                    difference,
                    new_bin,
                    new_tiles,
                    r,
                )
                &&& #[trigger] (stages.threshold)(
                    img2,
                    bin2,
                    tiles2,
                    difference,
                    new_bin2,
                    new_tiles2,
                    r2,
                )
                &&& img.same_as(img2)
                &&& bin.size == bin2.size
                &&& bin.data@.len() == bin2.data@.len()
                &&& (self.tiles)(tiles, tiles2)
            } ==> new_bin.same_as(new_bin2) && self.outcomes(r, r2)
        &&& forall|
            bin: Image<Pixel>,
            uf: UnionFind,
            new_uf: UnionFind,
            r: Result<(), S::Error>,
            bin2: Image<Pixel>,
            uf2: UnionFind,
            new_uf2: UnionFind,
            r2: Result<(), S::Error>,
        |
            {
                &&& #[trigger] (stages.connect)(bin, uf, new_uf, r)
                &&& #[trigger] (stages.connect)(bin2, uf2, new_uf2, r2)
                &&& bin.same_as(bin2)
                &&& uf.parents@ == uf2.parents@
            } ==> new_uf.parents@ == new_uf2.parents@ && self.outcomes(r, r2)
        &&& forall|
            bin: Image<Pixel>,
            uf: UnionFind,
            clusters: Clusters<S::GradientInfo>,
            new_uf: UnionFind,
            new_clusters: Clusters<S::GradientInfo>,
            bin2: Image<Pixel>,
            uf2: UnionFind,
            clusters2: Clusters<S::GradientInfo>,
            new_uf2: UnionFind,
            new_clusters2: Clusters<S::GradientInfo>,
        |
            {
                &&& #[trigger] (stages.cluster)(bin, uf, clusters, new_uf, new_clusters)
                &&& #[trigger] (stages.cluster)(bin2, uf2, clusters2, new_uf2, new_clusters2)
                &&& bin.same_as(bin2)
                &&& uf.parents@ == uf2.parents@
                &&& (self.clusters)(clusters, clusters2)
            } ==> (self.clusters)(new_clusters, new_clusters2)
        &&& forall|
            bin: Image<Pixel>,
            clusters: Clusters<S::GradientInfo>,
            config: DecodeTagsConfig<S::FitQuadConfig>,
            new_clusters: Clusters<S::GradientInfo>,
            quads: Vec<S::Quad>,
            bin2: Image<Pixel>,
            clusters2: Clusters<S::GradientInfo>,
            config2: DecodeTagsConfig<S::FitQuadConfig>,
            new_clusters2: Clusters<S::GradientInfo>,
            quads2: Vec<S::Quad>,
        |
            {
                &&& #[trigger] (stages.fit)(bin, clusters, config, new_clusters, quads)
                &&& #[trigger] (stages.fit)(bin2, clusters2, config2, new_clusters2, quads2)
                &&& bin.same_as(bin2)
                &&& (self.clusters)(clusters, clusters2)
                &&& (self.config)(config, config2)
            } ==> (self.quads)(quads, quads2)
        &&& forall|
            img: Image<u8>,
            quads: Vec<S::Quad>,
            config: DecodeTagsConfig<S::FitQuadConfig>,
            gray: S::GrayModelPair,
            new_config: DecodeTagsConfig<S::FitQuadConfig>,
            new_gray: S::GrayModelPair,
            found: Vec<S::Detection>,
            quads2: Vec<S::Quad>,
            config2: DecodeTagsConfig<S::FitQuadConfig>,
            gray2: S::GrayModelPair,
            new_config2: DecodeTagsConfig<S::FitQuadConfig>,
            new_gray2: S::GrayModelPair,
            found2: Vec<S::Detection>,
        |
            {
                &&& #[trigger] (stages.read)(
                    img,
                    quads,
                    config,
                    gray,
                    new_config,
                    new_gray,
                    found,
                )
                &&& #[trigger] (stages.read)(
                    img,
                    quads2,
                    config2,
                    gray2,
                    new_config2,
                    new_gray2,
                    found2,
                )
                &&& (self.quads)(quads, quads2)
                &&& (self.config)(config, config2)
                &&& (self.gray)(gray, gray2)
            } ==> (self.found)(found, found2)
    }
}

/// Two fresh decoders of the same configuration and size have the same frame.
pub proof fn law_fresh_frames_agree<S: Stages>(
    stages: StageRelations<S>,
    likeness: Likeness<S>,
    config: DecodeTagsConfig<S::FitQuadConfig>,
    img_size: ImageSize,
    a: DecoderState<S>,
    b: DecoderState<S>,
)
    requires
        likeness.likens_new(stages),
        (likeness.config)(config, config),
        a.is_fresh(config, img_size),
        b.is_fresh(config, img_size),
    ensures
        likeness.same_frame(a, b),
{
}

/// A run keeps the frame of a decoder, also one that ends in an error.
pub proof fn law_decoding_keeps_frame<S: Stages>(
    stages: StageRelations<S>,
    likeness: Likeness<S>,
    before: DecoderState<S>,
    src: Image<u8>,
    after: DecoderState<S>,
    r: Result<Vec<S::Detection>, AprilTagError<S::Error>>,
    other: DecoderState<S>,
)
    requires
        likeness.is_kept(stages),
        stages.decodes(before, src, after, r),
        likeness.same_frame(before, other),
    ensures
        likeness.same_frame(after, other),
{
}

/// Clearing a decoder that has the frame of a fresh one makes it like the fresh one.
pub proof fn law_clearing_makes_like_fresh<S: Stages>(
    stages: StageRelations<S>,
    likeness: Likeness<S>,
    used: DecoderState<S>,
    cleared: DecoderState<S>,
    config: DecodeTagsConfig<S::FitQuadConfig>,
    img_size: ImageSize,
    fresh: DecoderState<S>,
)
    requires
        likeness.likens_new(stages),
        likeness.same_frame(used, fresh),
        stages.clears(used, cleared),
        fresh.is_fresh(config, img_size),
    ensures
        likeness.states(cleared, fresh),
{
    assert(singletons(used.uf.parents@.len()).len() == used.uf.parents@.len());
    assert(singletons(fresh.uf.parents@.len()) == fresh.uf.parents@) by {
        let area = img_size.shrunk(config.downscale_factor).area();
        assert(singletons(area).len() == area);
    }
}

/// Decoders in states that are alike find what is alike in one image.
pub proof fn law_like_states_decode_alike<S: Stages>(
    stages: StageRelations<S>,
    likeness: Likeness<S>,
    a: DecoderState<S>,
    b: DecoderState<S>,
    src: Image<u8>,
    after_a: DecoderState<S>,
    after_b: DecoderState<S>,
    ra: Result<Vec<S::Detection>, AprilTagError<S::Error>>,
    rb: Result<Vec<S::Detection>, AprilTagError<S::Error>>,
)
    requires
        likeness.likens_new(stages),
        likeness.is_respected(stages),
        likeness.states(a, b),
        stages.decodes(a, src, after_a, ra),
        stages.decodes(b, src, after_b, rb),
    ensures
        likeness.results(ra, rb),
{
    let (img_a, img_b) = (
        thresholded_image(after_a.downscale_img, src),
        thresholded_image(after_b.downscale_img, src),
    );
    assert(img_a.same_as(img_b));
}

/// A decoder that was used and then cleared finds in an image what a fresh one finds there, up to
/// what the stages hold to be alike: nothing of the earlier image shows. That the earlier run may
/// have ended in an error makes no difference.
pub proof fn law_cleared_decodes_like_fresh<S: Stages>(
    stages: StageRelations<S>,
    likeness: Likeness<S>,
    config: DecodeTagsConfig<S::FitQuadConfig>,
    img_size: ImageSize,
    made: DecoderState<S>,
    earlier: Image<u8>,
    earlier_result: Result<Vec<S::Detection>, AprilTagError<S::Error>>,
    used: DecoderState<S>,
    cleared: DecoderState<S>,
    fresh: DecoderState<S>,
    src: Image<u8>,
    after_cleared: DecoderState<S>,
    after_fresh: DecoderState<S>,
    r_cleared: Result<Vec<S::Detection>, AprilTagError<S::Error>>,
    r_fresh: Result<Vec<S::Detection>, AprilTagError<S::Error>>,
)
    requires
        likeness.likens_new(stages),
        likeness.is_kept(stages),
        likeness.is_respected(stages),
        (likeness.config)(config, config),
        made.is_fresh(config, img_size),
        stages.decodes(made, earlier, used, earlier_result),
        stages.clears(used, cleared),
        fresh.is_fresh(config, img_size),
        stages.decodes(cleared, src, after_cleared, r_cleared),
        stages.decodes(fresh, src, after_fresh, r_fresh),
    ensures
        likeness.results(r_cleared, r_fresh),
{
    law_fresh_frames_agree(stages, likeness, config, img_size, made, fresh);
    law_decoding_keeps_frame(stages, likeness, made, earlier, used, earlier_result, fresh);
    law_clearing_makes_like_fresh(stages, likeness, used, cleared, config, img_size, fresh);
    law_like_states_decode_alike(
        stages,
        likeness,
        cleared,
        fresh,
        src,
        after_cleared,
        after_fresh,
        r_cleared,
        r_fresh,
    );
}

/// There is but one way for a stage to succeed.
proof fn lemma_one_success<E>(outcome: Result<(), E>)
    requires
        outcome is Ok,
    ensures
        outcome == Ok::<(), E>(()),
{
    assert(outcome->Ok_0 == ());
}

/// What became of thresholding in a run.
proof fn lemma_threshold_of_run<S: Stages>(
    stages: StageRelations<S>,
    before: DecoderState<S>,
    src: Image<u8>,
    after: DecoderState<S>,
    r: Result<Vec<S::Detection>, AprilTagError<S::Error>>,
) -> (thresholded: Result<(), S::Error>)
    requires
        stages.decodes(before, src, after, r),
    ensures
        (stages.threshold)(
            thresholded_image(after.downscale_img, src),
            before.bin_img,
            before.tile_min_max,
            before.config.min_white_black_difference,
            after.bin_img,
            after.tile_min_max,
            thresholded,
        ),
        thresholded is Ok ==> thresholded == Ok::<(), S::Error>(()) && stages.decodes_binary(
            before,
            src,
            after,
            r,
        ),
        thresholded matches Err(e) ==> {
            &&& r == Err::<Vec<S::Detection>, _>(AprilTagError::Stage(e))
            &&& after.uf == before.uf
            &&& after.clusters == before.clusters
            &&& after.config == before.config
            &&& after.gray_model_pair == before.gray_model_pair
        },
{
    let thresholded = choose|thresholded: Result<(), S::Error>|
        {
            &&& #[trigger] (stages.threshold)(
                thresholded_image(after.downscale_img, src),
                before.bin_img,
                before.tile_min_max,
                before.config.min_white_black_difference,
                after.bin_img,
                after.tile_min_max,
                thresholded,
            )
            &&& match thresholded {
                Err(e) => {
                    &&& r == Err::<Vec<S::Detection>, _>(AprilTagError::Stage(e))
                    &&& after.uf == before.uf
                    &&& after.clusters == before.clusters
                    &&& after.config == before.config
                    &&& after.gray_model_pair == before.gray_model_pair
                },
                Ok(_) => stages.decodes_binary(before, src, after, r),
            }
        };
    if thresholded is Ok {
        lemma_one_success(thresholded);
    }
    thresholded
}

/// A run that finds tags has thresholded the shrunk image, or the image itself where the decoder
/// does not shrink, into the binary image that it leaves, by the difference that the configuration
/// asks for, and without an error.
pub proof fn law_found_after_thresholding<S: Stages>(
    stages: StageRelations<S>,
    before: DecoderState<S>,
    src: Image<u8>,
    after: DecoderState<S>,
    r: Result<Vec<S::Detection>, AprilTagError<S::Error>>,
)
    requires
        stages.decodes(before, src, after, r),
        r is Ok,
    ensures
        before.downscale_img is None ==> (stages.threshold)(
            src,
            before.bin_img,
            before.tile_min_max,
            before.config.min_white_black_difference,
            after.bin_img,
            after.tile_min_max,
            Ok(()),
        ),
        before.downscale_img is Some ==> {
            &&& after.downscale_img is Some
            &&& after.downscale_img->Some_0.size == before.downscale_img->Some_0.size
            &&& (stages.threshold)(
                after.downscale_img->Some_0,
                before.bin_img,
                before.tile_min_max,
                before.config.min_white_black_difference,
                after.bin_img,
                after.tile_min_max,
                Ok(()),
            )
        },
{
    let _ = lemma_threshold_of_run(stages, before, src, after, r);
}

/// A run that finds tags has read them in the image itself, whether it was shrunk or not, by the
/// configuration and the gray models that there were, from quads that were fitted to clusters of
/// the binary image; and the clusters were added to those that there were, between components that
/// were joined without an error to those that there were.
pub proof fn law_found_in_the_image_itself<S: Stages>(
    stages: StageRelations<S>,
    before: DecoderState<S>,
    src: Image<u8>,
    after: DecoderState<S>,
    r: Result<Vec<S::Detection>, AprilTagError<S::Error>>,
) -> (run: (UnionFind, Clusters<S::GradientInfo>, Vec<S::Quad>))
    requires
        stages.decodes(before, src, after, r),
        r is Ok,
    ensures
        (stages.connect)(after.bin_img, before.uf, run.0, Ok(())),
        (stages.cluster)(after.bin_img, run.0, before.clusters, after.uf, run.1),
        (stages.fit)(after.bin_img, run.1, before.config, after.clusters, run.2),
        (stages.read)(
            src,
            run.2,
            before.config,
            before.gray_model_pair,
            after.config,
            after.gray_model_pair,
            r->Ok_0,
        ),
{
    let (joined, connected): (UnionFind, Result<(), S::Error>) = choose|
        joined: UnionFind,
        connected: Result<(), S::Error>,
    |
        {
            &&& #[trigger] (stages.connect)(after.bin_img, before.uf, joined, connected)
            &&& connected is Ok
            &&& stages.decodes_components(before, src, joined, after, r)
        };
    let (grouped, quads): (Clusters<S::GradientInfo>, Vec<S::Quad>) = choose|
        grouped: Clusters<S::GradientInfo>,
        quads: Vec<S::Quad>,
    |
        {
            &&& #[trigger] (stages.cluster)(
                after.bin_img,
                joined,
                before.clusters,
                after.uf,
                grouped,
            )
            &&& #[trigger] (stages.fit)(
                after.bin_img,
                grouped,
                before.config,
                after.clusters,
                quads,
            )
            &&& (stages.read)(
                src,
                quads,
                before.config,
                before.gray_model_pair,
                after.config,
                after.gray_model_pair,
                r->Ok_0,
            )
        };
    lemma_one_success(connected);
    (joined, grouped, quads)
}

/// A run that fails does so with the error of thresholding, or, where that succeeded, with the
/// error of connecting; the clusters, the configuration and the gray models are as they were, and
/// after an error of thresholding so are the components.
pub proof fn law_failing_leaves_the_rest<S: Stages>(
    stages: StageRelations<S>,
    before: DecoderState<S>,
    src: Image<u8>,
    after: DecoderState<S>,
    r: Result<Vec<S::Detection>, AprilTagError<S::Error>>,
)
    requires
        stages.decodes(before, src, after, r),
        r is Err,
    ensures
        r->Err_0 is Stage,
        after.clusters == before.clusters,
        after.config == before.config,
        after.gray_model_pair == before.gray_model_pair,
        ({
            let img = if before.downscale_img is Some {
                after.downscale_img->Some_0
            } else {
                src
            };
            ||| after.uf == before.uf && (stages.threshold)(
                img,
                before.bin_img,
                before.tile_min_max,
                before.config.min_white_black_difference,
                after.bin_img,
                after.tile_min_max,
                Err(r->Err_0->Stage_0),
            )
            ||| (stages.connect)(
                after.bin_img,
                before.uf,
                after.uf,
                Err(r->Err_0->Stage_0),
            ) && (stages.threshold)(
                img,
                before.bin_img,
                before.tile_min_max,
                before.config.min_white_black_difference,
                after.bin_img,
                after.tile_min_max,
                Ok(()),
            )
        }),
{
    let _ = lemma_threshold_of_run(stages, before, src, after, r);
}

/// A run in which no stage fails finds tags.
pub proof fn law_no_failing_stage_no_error<S: Stages>(
    stages: StageRelations<S>,
    before: DecoderState<S>,
    src: Image<u8>,
    after: DecoderState<S>,
    r: Result<Vec<S::Detection>, AprilTagError<S::Error>>,
)
    requires
        stages.decodes(before, src, after, r),
        forall|
            img: Image<u8>,
            bin: Image<Pixel>,
            tiles: S::TileMinMax,
            difference: u8,
            new_bin: Image<Pixel>,
            new_tiles: S::TileMinMax,
            outcome: Result<(), S::Error>,
        | #[trigger]
            (stages.threshold)(img, bin, tiles, difference, new_bin, new_tiles, outcome)
                ==> outcome is Ok,
        forall|bin: Image<Pixel>, uf: UnionFind, new_uf: UnionFind, outcome: Result<(), S::Error>|
            #[trigger]
            (stages.connect)(bin, uf, new_uf, outcome) ==> outcome is Ok,
    ensures
        r is Ok,
{
}

/// A run in which thresholding always fails, or connecting always does, finds nothing.
pub proof fn law_failing_stage_ends_the_run<S: Stages>(
    stages: StageRelations<S>,
    before: DecoderState<S>,
    src: Image<u8>,
    after: DecoderState<S>,
    r: Result<Vec<S::Detection>, AprilTagError<S::Error>>,
)
    requires
        stages.decodes(before, src, after, r),
        ({
            ||| forall|
                img: Image<u8>,
                bin: Image<Pixel>,
                tiles: S::TileMinMax,
                difference: u8,
                new_bin: Image<Pixel>,
                new_tiles: S::TileMinMax,
                outcome: Result<(), S::Error>,
            | #[trigger]
                (stages.threshold)(img, bin, tiles, difference, new_bin, new_tiles, outcome)
                    ==> outcome is Err
            ||| forall|
                bin: Image<Pixel>,
                uf: UnionFind,
                new_uf: UnionFind,
                outcome: Result<(), S::Error>,
            | #[trigger]
                (stages.connect)(bin, uf, new_uf, outcome) ==> outcome is Err
        }),
    ensures
        r is Err,
{
}

/// Clearing resets the gray models that there were, joins no pixels, empties the clusters, and
/// leaves the rest.
pub proof fn law_clearing_resets<S: Stages>(
    stages: StageRelations<S>,
    before: DecoderState<S>,
    after: DecoderState<S>,
)
    requires
        stages.clears(before, after),
    ensures
        (stages.reset)(before.gray_model_pair, after.gray_model_pair),
        after.uf.parents@.len() == before.uf.parents@.len(),
        forall|i: int| 0 <= i < after.uf.parents@.len() ==> #[trigger] after.uf.parents@[i] == i,
        after.clusters@.dom() == Set::<(usize, usize)>::empty(),
        after.config == before.config,
        after.downscale_img == before.downscale_img,
        after.bin_img == before.bin_img,
        after.tile_min_max == before.tile_min_max,
{
    law_what_clearing_leaves(before, after);
}

} // verus!
