//! The stages of detection that a decoder runs.

use crate::config::DecodeTagsConfig;
use crate::image::{Image, ImageSize, Pixel};
use crate::union_find::UnionFind;
use std::collections::HashMap;
use vstd::prelude::*;

verus! {

/// The gradient points of an image, grouped by the pair of components that they lie between.
pub type Clusters<G> = HashMap<(usize, usize), Vec<G>>;

/// The stages of detection, with what they keep from one to the next. Nothing is assumed of what
/// a stage does.
pub trait Stages {
    /// Configures the fitting of quads.
    type FitQuadConfig: Default;

    /// The darkest and the brightest value of each tile of an image.
    type TileMinMax;

    /// A point on the boundary of two components.
    type GradientInfo;

    /// The models of white and of black by which bits are read.
    type GrayModelPair;

    /// A quad that may be the border of a tag.
    type Quad;

    /// A tag that was found.
    type Detection;

    /// Why a stage failed.
    type Error;

    /// Makes room for the extremes of an image of the given size in tiles of the given size.
    fn new_tile_min_max(img_size: ImageSize, tile_size: usize) -> Self::TileMinMax;

    /// Makes fresh models of white and of black.
    fn new_gray_model_pair() -> Self::GrayModelPair;

    /// Makes the models of white and of black fresh again.
    fn reset_gray_model_pair(gray_model_pair: &mut Self::GrayModelPair);

    /// Tells white from black in `src`, by the extremes around each pixel.
    fn adaptive_threshold(
        src: &Image<u8>,
        bin_img: &mut Image<Pixel>,
        tile_min_max: &mut Self::TileMinMax,
        min_white_black_difference: u8,
    ) -> Result<(), Self::Error>;

    /// Joins neighbouring pixels of one colour.
    fn find_connected_components(bin_img: &Image<Pixel>, uf: &mut UnionFind) -> Result<
        (),
        Self::Error,
    >;

    /// Groups the points at which white and black components meet.
    fn find_gradient_clusters(
        bin_img: &Image<Pixel>,
        uf: &mut UnionFind,
        clusters: &mut Clusters<Self::GradientInfo>,
    );

    /// Fits quads to the groups of points.
    fn fit_quads(
        bin_img: &Image<Pixel>,
        clusters: &mut Clusters<Self::GradientInfo>,
        config: &DecodeTagsConfig<Self::FitQuadConfig>,
    ) -> Vec<Self::Quad>;

    /// Reads the tags that the quads enclose.
    fn decode_tags(
        src: &Image<u8>,
        quads: &mut Vec<Self::Quad>,
        config: &mut DecodeTagsConfig<Self::FitQuadConfig>,
        gray_model_pair: &mut Self::GrayModelPair,
    ) -> Vec<Self::Detection>;
}

} // verus!
