//! Single-channel images, and the two operations on them that `kornia` supplies.

use kornia_image::allocator::CpuAllocator;
use kornia_image::ImageError;
use kornia_imgproc::interpolation::InterpolationMode;
use kornia_imgproc::resize::resize_fast_mono;
use vstd::prelude::*;

verus! {

/// The size of an image in pixels.
#[derive(Debug, Clone, Copy, PartialEq, Eq, Structural)]
pub struct ImageSize {
    /// Width of the image in pixels.
    pub width: usize,
    /// Height of the image in pixels.
    pub height: usize,
}

impl ImageSize {
    /// The number of pixels of an image of this size.
    pub open spec fn area(self) -> nat {
        (self.width * self.height) as nat
    }

    /// The pixels of an image of this size can be addressed, one byte each. That small sides are
    /// enough for it follows; it is said to spare callers the product.
    pub open spec fn addressable(self) -> bool {
        self.width <= i16::MAX && self.height <= i16::MAX || self.area() <= isize::MAX
    }

    /// The size of an image of this size that is shrunk `factor` times in either direction,
    /// fractions of a pixel dropped. A factor of zero or one leaves the size as it is.
    pub open spec fn shrunk(self, factor: usize) -> ImageSize {
        if factor <= 1 {
            self
        } else {
            ImageSize { width: self.width / factor, height: self.height / factor }
        }
    }
}

/// An image whose pixels can be addressed has no more pixels than there are addresses.
pub(crate) proof fn lemma_addressable(size: ImageSize)
    requires
        size.addressable(),
    ensures
        size.area() <= isize::MAX,
{
    if size.width <= i16::MAX && size.height <= i16::MAX {
        let (width, height) = (size.width as int, size.height as int);
        assert(width * height <= 0x7fff * 0x7fff) by (nonlinear_arith)
            requires
                0 <= width <= 0x7fff,
                0 <= height <= 0x7fff,
        ;
    }
}

impl From<[usize; 2]> for ImageSize {
    fn from(size: [usize; 2]) -> (r: Self) {
        ImageSize { width: size[0], height: size[1] }
    }
}

impl vstd::std_specs::convert::FromSpecImpl<[usize; 2]> for ImageSize {
    open spec fn obeys_from_spec() -> bool {
        true
    }

    open spec fn from_spec(size: [usize; 2]) -> Self {
        ImageSize { width: size@[0], height: size@[1] }
    }
}

/// A pixel of the binary image that thresholding produces.
#[derive(Debug, Clone, Copy, PartialEq, Eq, Structural)]
pub enum Pixel {
    /// Brighter than its surroundings.
    White,
    /// Darker than its surroundings.
    Black,
    /// In a region of too little contrast to tell.
    Skip,
}

/// A pixel type that takes up one byte and whose clones are copies.
pub(crate) trait BytePixel: Copy {

}

impl BytePixel for u8 {

}

impl BytePixel for Pixel {

}

/// A single-channel image: its pixels row by row, from the top left.
#[derive(Debug, Clone, PartialEq)]
pub struct Image<T> {
    /// The size of the image.
    pub size: ImageSize,
    /// The pixels of the image.
    pub data: Vec<T>,
}

impl<T> Image<T> {
    /// There is one value for each pixel.
    pub open spec fn wf(&self) -> bool {
        self.data@.len() == self.size.area()
    }

    /// The two images have the same size and the same pixels.
    pub open spec fn same_as(self, other: Self) -> bool {
        &&& self.size == other.size
        &&& self.data@ == other.data@
    }
}

/// Whether an image of size `src` can be resampled into one of size `dst`: there is a source
/// pixel to take for every pixel that is wanted, and the columns, also those of sixteen rows of
/// `dst` together, can be counted.
pub open spec fn resizable(src: ImageSize, dst: ImageSize) -> bool {
    &&& 0 < src.width <= isize::MAX
    &&& 0 < src.height || dst.height == 0
    &&& 0 < dst.width
    &&& 16 * dst.width <= isize::MAX
}

/// The side up to which rounding moves the places that resampling takes pixels from only where
/// [`nearest_place`] says so.
pub const MAX_PRECISE_SIDE: usize = 0x200_0000;

impl ImageSize {
    /// Neither side is longer than [`MAX_PRECISE_SIDE`].
    pub open spec fn precise(self) -> bool {
        self.width <= MAX_PRECISE_SIDE && self.height <= MAX_PRECISE_SIDE
    }
}

/// Of `src_len` places in a line, `place` is the one under the middle of the `i`th part when the
/// line is cut into `dst_len` equal parts. Where the middle falls between two places it is the
/// second, or, if the parts do not have a whole number of places each, perhaps the first.
pub open spec fn nearest_place(i: int, src_len: int, dst_len: int, place: int) -> bool {
    let halves = (2 * i + 1) * src_len;
    ||| place == halves / (2 * dst_len)
    ||| place == halves / (2 * dst_len) - 1 && halves % (2 * dst_len) == 0 && src_len % dst_len != 0
}

/// Each of `taken`, the pixels of an image of size `dst`, is the one of `pixels`, an image of size
/// `src`, that lies under its middle.
pub open spec fn takes_nearest(
    taken: Seq<u8>,
    pixels: Seq<u8>,
    src: ImageSize,
    dst: ImageSize,
) -> bool {
    forall|i: int|
        0 <= i < taken.len() ==> exists|x: int, y: int|
            {
                &&& #[trigger] nearest_place(
                    i % dst.width as int,
                    src.width as int,
                    dst.width as int,
                    x,
                )
                &&& #[trigger] nearest_place(
                    i / dst.width as int,
                    src.height as int,
                    dst.height as int,
                    y,
                )
                &&& #[trigger] taken[i] == pixels[y * src.width + x]
            }
}

/// The pixels that nearest-neighbour resampling of `pixels`, an image of size `src`, gives for an
/// image of size `dst`.
pub uninterp spec fn resampled(pixels: Seq<u8>, src: ImageSize, dst: ImageSize) -> Seq<u8>;

/// Calls `kornia_image::Image::from_size_val` for a single-channel image.
///
/// Claimed of it: where the pixels fit into memory it succeeds, with one pixel for each place in
/// the image, all of them `val`.
#[verifier::external_body]
pub(crate) fn filled_pixels<T: BytePixel>(size: ImageSize, val: T) -> (r: Result<
    Vec<T>,
    ImageError,
>)
    requires
        size.area() <= isize::MAX,
    ensures
        r is Ok,
        r->Ok_0@ == Seq::new(size.area(), |i: int| val),
{
    let size = kornia_image::ImageSize { width: size.width, height: size.height };
    let image = kornia_image::Image::<T, 1, CpuAllocator>::from_size_val(size, val, CpuAllocator)?;
    Ok(image.into_vec())
}

/// Calls `kornia_imgproc::resize::resize_fast_mono` with nearest-neighbour interpolation.
///
/// Claimed of it: it succeeds; it fills `dst` with what depends on the pixels of `src` and the two
/// sizes alone, and leaves the size of `dst` as it was; each pixel it writes is a pixel of `src`,
/// and, in images that are not too large for it, the one that lies under the middle of the pixel.
/// Left unsaid is which of two pixels it takes where that middle falls between them and the sizes
/// do not divide: the place is computed in floating point.
#[verifier::external_body]
pub(crate) fn resize_nearest(src: &Image<u8>, dst: &mut Image<u8>) -> (r: Result<(), ImageError>)
    requires
        src.wf(),
        old(dst).wf(),
        resizable(src.size, old(dst).size),
    ensures
        r is Ok,
        final(dst).size == old(dst).size,
        final(dst).data@ == resampled(src.data@, src.size, old(dst).size),
        final(dst).data@.len() == old(dst).size.area(),
        forall|i: int|
            0 <= i < final(dst).data@.len() ==> src.data@.contains(#[trigger] final(dst).data@[i]),
        src.size.precise() && old(dst).size.precise() ==> takes_nearest(
            final(dst).data@,
            src.data@,
            src.size,
            old(dst).size,
        ),
{
    let src_size = kornia_image::ImageSize { width: src.size.width, height: src.size.height };
    let dst_size = kornia_image::ImageSize { width: dst.size.width, height: dst.size.height };
    let from = kornia_image::Image::<u8, 1, CpuAllocator>::new(src_size, src.data.clone(), CpuAllocator)?;
    let mut to = kornia_image::Image::<u8, 1, CpuAllocator>::new(dst_size, std::mem::take(&mut dst.data), CpuAllocator)?;
    resize_fast_mono(&from, &mut to, InterpolationMode::Nearest)?;
    dst.data = to.into_vec();
    Ok(())
}

/// A size from a pair: the width comes first.
pub proof fn law_size_from_pair(pair: [usize; 2], size: ImageSize)
    requires
        size == <ImageSize as vstd::std_specs::convert::FromSpec<[usize; 2]>>::from_spec(pair),
    ensures
        size.width == pair@[0],
        size.height == pair@[1],
{
}

/// How many pixels an image has, and that an image is whole when it has a value for each.
pub proof fn law_pixels_of_an_image<T>(img: Image<T>)
    ensures
        img.size.area() == img.size.width * img.size.height,
        img.wf() <==> img.data@.len() == img.size.width * img.size.height,
{
    assert(img.size.width * img.size.height >= 0) by (nonlinear_arith);
}

/// Shrinking divides either side, dropping fractions: as many whole steps of `factor` pixels fit
/// into a side as the shrunk side has pixels, and no more.
pub proof fn law_shrinking_divides_the_sides(size: ImageSize, factor: usize)
    ensures
        factor <= 1 ==> size.shrunk(factor) == size,
        factor > 1 ==> {
            &&& size.shrunk(factor).width * factor <= size.width
            &&& size.width < (size.shrunk(factor).width + 1) * factor
            &&& size.shrunk(factor).height * factor <= size.height
            &&& size.height < (size.shrunk(factor).height + 1) * factor
        },
{
    if factor > 1 {
        let (w, h, k) = (size.width as int, size.height as int, factor as int);
        assert((w / k) * k <= w && w < (w / k + 1) * k) by (nonlinear_arith)
            requires
                k > 1,
        ;
        assert((h / k) * k <= h && h < (h / k + 1) * k) by (nonlinear_arith)
            requires
                k > 1,
        ;
    }
}

/// The sizes whose images can be made are those with no more pixels than there are addresses.
pub proof fn law_addressable_sizes(size: ImageSize)
    ensures
        size.addressable() <==> size.width * size.height <= isize::MAX,
{
    law_pixels_of_an_image(Image::<u8> { size, data: arbitrary() });
    if size.addressable() {
        lemma_addressable(size);
    }
}

/// Which images can be resampled: those with a pixel to take for each that is wanted, up to what
/// can be counted.
pub proof fn law_resizable_sizes(src: ImageSize, dst: ImageSize)
    ensures
        resizable(src, dst) <==> {
            &&& src.width > 0
            &&& src.height > 0 || dst.height == 0
            &&& dst.width > 0
            &&& src.width <= isize::MAX
            &&& dst.width * 16 <= isize::MAX
        },
{
}

/// The place that is taken for a part of a line lies on the line and touches the middle of the
/// part, all measured in the `2 * src_len * dst_len`th parts of the line.
pub proof fn law_nearest_place_touches_the_middle(i: int, src_len: int, dst_len: int, place: int)
    requires
        0 < src_len,
        0 <= i < dst_len,
        nearest_place(i, src_len, dst_len, place),
    ensures
        2 * dst_len * place <= (2 * i + 1) * src_len,
        (2 * i + 1) * src_len <= 2 * dst_len * (place + 1),
        0 <= place < src_len,
{
    let halves = (2 * i + 1) * src_len;
    let q = halves / (2 * dst_len);
    vstd::arithmetic::div_mod::lemma_fundamental_div_mod(halves, 2 * dst_len);
    vstd::arithmetic::div_mod::lemma_mod_bound(halves, 2 * dst_len);
    assert(2 * dst_len * (q + 1) == 2 * dst_len * q + 2 * dst_len) by (nonlinear_arith);
    assert(2 * dst_len * (q - 1) == 2 * dst_len * q - 2 * dst_len) by (nonlinear_arith);
    assert(0 < halves < 2 * dst_len * src_len) by (nonlinear_arith)
        requires
            halves == (2 * i + 1) * src_len,
            0 < src_len,
            0 <= i < dst_len,
    ;
    assert(q < src_len) by (nonlinear_arith)
        requires
            2 * dst_len * q <= halves,
            halves < 2 * dst_len * src_len,
            0 < dst_len,
    ;
    assert(q >= 0 && (halves % (2 * dst_len) == 0 ==> q >= 1)) by (nonlinear_arith)
        requires
            halves == 2 * dst_len * q + halves % (2 * dst_len),
            0 <= halves % (2 * dst_len) < 2 * dst_len,
            0 < halves,
            0 < dst_len,
    ;
}

} // verus!
