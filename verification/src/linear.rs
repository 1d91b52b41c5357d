//! The canonical image that every source is decoded to: a grid of
//! three-channel pixels in linear light, row after row.
//!
//! The library never computes with a sample, it only moves samples, so the
//! sample type is a parameter. Values above sensor white are kept as they
//! are: nothing here clamps.

use vstd::prelude::*;
use crate::error::DecodeError;

verus! {

/// What a [`LinearImage`] stands for.
pub struct LinearImageView<T> {
    pub width: nat,
    pub height: nat,
    pub pixels: Seq<(T, T, T)>,
}

/// Four-channel samples of `pixels`: red, green, blue of each pixel in
/// order, followed by `alpha`.
pub open spec fn with_alpha<T>(pixels: Seq<(T, T, T)>, alpha: T) -> Seq<T> {
    Seq::new(
        pixels.len() * 4,
        |k: int|
            if k % 4 == 0 {
                pixels[k / 4].0
            } else if k % 4 == 1 {
                pixels[k / 4].1
            } else if k % 4 == 2 {
                pixels[k / 4].2
            } else {
                alpha
            },
    )
}

/// A `width` by `height` image with one pixel for every position.
#[derive(Debug)]
pub struct LinearImage<T> {
    width: u32,
    height: u32,
    pixels: Vec<(T, T, T)>,
}

impl<T> View for LinearImage<T> {
    type V = LinearImageView<T>;

    closed spec fn view(&self) -> LinearImageView<T> {
        LinearImageView {
            width: self.width as nat,
            height: self.height as nat,
            pixels: self.pixels@,
        }
    }
}

impl<T> LinearImage<T> {
    #[verifier::type_invariant]
    spec fn complete(&self) -> bool {
        self.pixels@.len() == self.width * self.height
    }

    /// An image from decoded pixels. A pixel count other than
    /// `width * height` means that the decoder's output is corrupt.
    pub fn new(width: u32, height: u32, pixels: Vec<(T, T, T)>) -> (image: Result<
        LinearImage<T>,
        DecodeError,
    >)
        ensures
            image is Ok <==> pixels@.len() == width * height,
            image matches Ok(i) ==> i@ == (LinearImageView {
                width: width as nat,
                height: height as nat,
                pixels: pixels@,
            }),
            image matches Err(e) ==> e == DecodeError::Corrupt,
    {
        assert(width * height <= 0xffff_ffff * 0xffff_ffff) by (nonlinear_arith)
            requires
                0 <= width <= 0xffff_ffff,
                0 <= height <= 0xffff_ffff,
        ;
        if pixels.len() as u64 != width as u64 * height as u64 {
            return Err(DecodeError::Corrupt);
        }
        Ok(LinearImage { width, height, pixels })
    }

    /// Width in pixels.
    pub fn width(&self) -> (width: u32)
        ensures
            width == self@.width,
    {
        self.width
    }

    /// Height in pixels.
    pub fn height(&self) -> (height: u32)
        ensures
            height == self@.height,
    {
        self.height
    }

    /// The pixels, row after row; there are `width * height` of them.
    pub fn pixels(&self) -> (pixels: &Vec<(T, T, T)>)
        ensures
            pixels@ == self@.pixels,
            pixels@.len() == self@.width * self@.height,
    {
        proof {
            use_type_invariant(self);
        }
        &self.pixels
    }
}

impl<T: Copy> LinearImage<T> {
    /// The samples to upload into a four-channel texture: every pixel
    /// followed by `alpha`, so that a row of the image takes `4 * width`
    /// samples and nothing lies between rows.
    pub fn to_rgba(&self, alpha: T) -> (samples: Vec<T>)
        ensures
            samples@ == with_alpha(self@.pixels, alpha),
            samples@.len() == 4 * self@.width * self@.height,
    {
        proof {
            use_type_invariant(self);
        }
        let mut samples: Vec<T> = Vec::new();
        let mut i: usize = 0;
        while i < self.pixels.len()
            invariant
                i <= self.pixels@.len(),
                samples@ == with_alpha(self.pixels@.take(i as int), alpha),
            decreases self.pixels@.len() - i,
        {
            let (r, g, b) = self.pixels[i];
            samples.push(r);
            samples.push(g);
            samples.push(b);
            samples.push(alpha);
            proof {
                let before = with_alpha(self.pixels@.take(i as int), alpha);
                let after = with_alpha(self.pixels@.take(i + 1), alpha);
                assert forall|k: int| 0 <= k < after.len() implies samples@[k] == after[k] by {
                    if k < before.len() {
                        assert(samples@[k] == before[k]);
                    }
                }
                assert(samples@ =~= after);
            }
            i = i + 1;
        }
        proof {
            assert(self.pixels@.take(i as int) =~= self.pixels@);
            assert(4 * (self@.width * self@.height) == 4 * self@.width * self@.height)
                by (nonlinear_arith);
        }
        samples
    }
}

} // verus!
