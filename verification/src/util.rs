//! Sizes in whole texels and in single precision, and a call-through helper.

use vstd::prelude::*;
use crate::ieee::{
    lemma_a_fifth_more, lemma_whole_numbers_survive, single_div, single_mul, single_of_u32,
    spec_exponent, spec_product, spec_product_is_ordinary, spec_quotient, spec_round_of,
    spec_single_of_u32, spec_truncation_of, truncated_u32_of_single, u32_of_single, HIDDEN_BIT,
};

verus! {

/// A width and a height in whole texels.
#[derive(Clone, Copy, Debug, PartialEq, Eq, Structural)]
pub struct Size {
    pub width: u32,
    pub height: u32,
}

/// A width and a height as IEEE-754 single-precision bit patterns.
#[derive(Clone, Copy, Debug, PartialEq, Eq, Structural)]
pub struct SizeF {
    pub width: u32,
    pub height: u32,
}

/// A rectangle in whole texels: its corner nearest the origin and its size.
#[derive(Clone, Copy, Debug, PartialEq, Eq, Structural)]
pub struct Rectangle {
    pub x: u32,
    pub y: u32,
    pub width: u32,
    pub height: u32,
}

impl Size {
    /// The size with the given width and height.
    pub fn new(width: u32, height: u32) -> (size: Size)
        ensures
            size == (Size { width, height }),
    {
        Size { width, height }
    }
}

/// Conversion of whole numbers to single precision.
pub trait Tof32 {
    type Output;

    /// What the conversion of `self` gives.
    spec fn spec_to_f32(self) -> Self::Output;

    /// Converts to single precision, rounding to nearest.
    fn to_f32(self) -> (converted: Self::Output)
        ensures
            converted == self.spec_to_f32(),
    ;
}

/// Conversion of single-precision values to whole numbers.
pub trait Tou32 {
    type Output;

    /// What the conversion of `self` gives.
    spec fn spec_to_u32(self) -> Self::Output;

    /// Converts to whole numbers, rounding to nearest.
    fn to_u32(self) -> (converted: Self::Output)
        ensures
            converted == self.spec_to_u32(),
    ;
}

impl Tof32 for Size {
    type Output = SizeF;

    open spec fn spec_to_f32(self) -> SizeF {
        SizeF {
            width: spec_single_of_u32(self.width as int) as u32,
            height: spec_single_of_u32(self.height as int) as u32,
        }
    }

    /// Each dimension becomes the single-precision value nearest to it.
    fn to_f32(self) -> (converted: SizeF) {
        SizeF { width: single_of_u32(self.width), height: single_of_u32(self.height) }
    }
}

impl Tou32 for SizeF {
    type Output = Size;

    open spec fn spec_to_u32(self) -> Size {
        Size {
            width: spec_round_of(self.width) as u32,
            height: spec_round_of(self.height) as u32,
        }
    }

    /// Each dimension is rounded to the nearest whole number, halves away
    /// from zero, and held within 32 unsigned bits.
    fn to_u32(self) -> (converted: Size) {
        Size { width: u32_of_single(self.width), height: u32_of_single(self.height) }
    }
}

/// A size below `2^24` in both dimensions survives the conversion to single
/// precision and back: such sizes reach the device exactly.
pub proof fn lemma_size_survives(size: Size)
    requires
        size.width < 0x100_0000,
        size.height < 0x100_0000,
    ensures
        size.spec_to_f32().spec_to_u32() == size,
{
    lemma_whole_numbers_survive(size.width);
    lemma_whole_numbers_survive(size.height);
}

/// The factor by which the render target exceeds the image fitted to the
/// window, so that small resizes need no new textures: 1.2 in single precision.
pub const MARGIN: u32 = 0x3f99_999a;

/// Scaling by a single-precision factor.
pub trait Resize: Sized {
    /// True when `self` can be scaled by `factor`.
    spec fn spec_resizable(&self, factor: u32) -> bool;

    /// What scaling `self` by `factor` gives.
    spec fn spec_resize(&self, factor: u32) -> Self;

    /// Scales both dimensions by `factor`.
    fn resize(&self, factor: u32) -> (resized: Self)
        requires
            self.spec_resizable(factor),
        ensures
            resized == self.spec_resize(factor),
    ;
}

impl Resize for SizeF {
    /// Both products must be zero or normal numbers.
    open spec fn spec_resizable(&self, factor: u32) -> bool {
        spec_product_is_ordinary(self.width, factor) && spec_product_is_ordinary(
            self.height,
            factor,
        )
    }

    open spec fn spec_resize(&self, factor: u32) -> SizeF {
        SizeF {
            width: spec_product(self.width, factor) as u32,
            height: spec_product(self.height, factor) as u32,
        }
    }

    /// Each dimension is multiplied by the factor, rounded to nearest.
    fn resize(&self, factor: u32) -> (resized: SizeF) {
        SizeF { width: single_mul(self.width, factor), height: single_mul(self.height, factor) }
    }
}

/// One dimension scaled by a single-precision factor and rounded to a whole
/// number within 32 unsigned bits, for any factor whatever. A factor that is
/// not a number, is negative or is too small to be a normal number gives 0;
/// so does any factor for a dimension of 0. A factor beyond `2^93`, infinity
/// included, gives the largest number. Any other factor gives the product in
/// single precision, rounded to nearest.
pub open spec fn spec_scaled(dimension: u32, factor: u32) -> u32 {
    if dimension == 0 || factor >= 0x7f80_0001 || factor < 0x80_0000 {
        0
    } else if factor >= 0x6e80_0000 {
        u32::MAX
    } else {
        spec_round_of(
            spec_product(spec_single_of_u32(dimension as int) as u32, factor) as u32,
        ) as u32
    }
}

/// Scales one dimension by a single-precision factor, as converting it,
/// multiplying and rounding back does.
pub fn scaled(dimension: u32, factor: u32) -> (result: u32)
    ensures
        result == spec_scaled(dimension, factor),
{
    if dimension == 0 || factor >= 0x7f80_0001 || factor < HIDDEN_BIT {
        0
    } else if factor >= 0x6e80_0000 {
        u32::MAX
    } else {
        assert(1 <= spec_exponent(factor) <= 220);
        u32_of_single(single_mul(single_of_u32(dimension), factor))
    }
}

impl Resize for Size {
    /// Whole numbers can be scaled by every factor.
    open spec fn spec_resizable(&self, factor: u32) -> bool {
        true
    }

    open spec fn spec_resize(&self, factor: u32) -> Size {
        Size { width: spec_scaled(self.width, factor), height: spec_scaled(self.height, factor) }
    }

    /// Each dimension is converted to single precision, multiplied by the
    /// factor and rounded back to a whole number. Every factor is taken.
    fn resize(&self, factor: u32) -> (resized: Size) {
        Size { width: scaled(self.width, factor), height: scaled(self.height, factor) }
    }
}

/// The size of an image of size `image_size` scaled to fit a window of size
/// `window_size` with its aspect ratio kept. All arithmetic is in single
/// precision. When the image is wider than the window in proportion, it
/// takes the window's width and its height follows; otherwise it takes the
/// window's height and its width follows. What follows is cut down to a
/// whole number. A window without height counts as wider than any image.
///
/// An image without width has no width in any window. An image with width
/// but without height is wider than every window that has height, and has
/// no height in it; in a window without height nothing is left of it.
pub open spec fn spec_calculate_image_size(window_size: Size, image_size: Size) -> Size {
    if image_size.width == 0 {
        Size { width: 0, height: window_size.height }
    } else if image_size.height == 0 {
        if window_size.height != 0 {
            Size { width: window_size.width, height: 0 }
        } else {
            Size { width: 0, height: 0 }
        }
    } else {
        let img_aspect = spec_quotient(
            spec_single_of_u32(image_size.width as int) as u32,
            spec_single_of_u32(image_size.height as int) as u32,
        ) as u32;
        let window_width = spec_single_of_u32(window_size.width as int) as u32;
        let window_height = spec_single_of_u32(window_size.height as int) as u32;
        if window_size.height != 0 && img_aspect > spec_quotient(window_width, window_height) {
            Size {
                width: window_size.width,
                height: spec_truncation_of(spec_quotient(window_width, img_aspect) as u32) as u32,
            }
        } else {
            Size {
                width: spec_truncation_of(spec_product(window_height, img_aspect) as u32) as u32,
                height: window_size.height,
            }
        }
    }
}

/// Fits an image of size `image_size` into a window of size `window_size`,
/// keeping its aspect ratio.
pub fn calculate_image_size(window_size: Size, image_size: Size) -> (fitted: Size)
    ensures
        fitted == spec_calculate_image_size(window_size, image_size),
{
    if image_size.width == 0 {
        return Size { width: 0, height: window_size.height };
    }
    if image_size.height == 0 {
        if window_size.height != 0 {
            return Size { width: window_size.width, height: 0 };
        }
        return Size { width: 0, height: 0 };
    }
    let img_aspect = single_div(single_of_u32(image_size.width), single_of_u32(image_size.height));
    let window_width = single_of_u32(window_size.width);
    let window_height = single_of_u32(window_size.height);
    // Positive single-precision values compare as their patterns do.
    let wider = window_size.height != 0 && img_aspect > single_div(window_width, window_height);
    if wider {
        Size {
            width: window_size.width,
            height: truncated_u32_of_single(single_div(window_width, img_aspect)),
        }
    } else {
        Size {
            width: truncated_u32_of_single(single_mul(window_height, img_aspect)),
            height: window_size.height,
        }
    }
}

/// The size of the render target for an image of `image_size` shown in a
/// window of `window_size`: the image fitted to the window, enlarged by the margin.
pub open spec fn spec_output_size(window_size: Size, image_size: Size) -> Size {
    spec_calculate_image_size(window_size, image_size).spec_resize(MARGIN)
}

/// The size of the render target for an image of `image_size` shown in a
/// window of `window_size`.
pub fn output_size(window_size: Size, image_size: Size) -> (size: Size)
    ensures
        size == spec_output_size(window_size, image_size),
{
    calculate_image_size(window_size, image_size).resize(MARGIN)
}

/// The margin is enough and no more than enough: for a window of less than
/// `2^23` texels either way that has the proportions of the image, so that
/// the image fitted to it fills it, the render target is at least as large
/// as the window and at most twice as large, either way.
pub proof fn lemma_margin_covers_the_window(window_size: Size, image_size: Size)
    requires
        window_size.width < 0x80_0000,
        window_size.height < 0x80_0000,
        spec_calculate_image_size(window_size, image_size) == window_size,
    ensures
        window_size.width <= spec_output_size(window_size, image_size).width <= 2
            * window_size.width,
        window_size.height <= spec_output_size(window_size, image_size).height <= 2
            * window_size.height,
{
    lemma_a_fifth_more(window_size.width);
    lemma_a_fifth_more(window_size.height);
}

/// Runs `f` once and returns what `f` returned. The label names the work
/// for whoever keeps time; no clock is read here.
pub fn timed<F: FnOnce() -> R, R>(label: &str, f: F) -> (result: R)
    requires
        f.requires(()),
    ensures
        f.ensures((), result),
{
    let _ = label;
    f()
}

} // verus!
