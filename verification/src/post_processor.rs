//! Edge-aware smoothing of a resolved frame.
//!
//! Every interior pixel whose four neighbours differ strongly in luminance is
//! replaced by the average of its 3x3 neighbourhood; every other pixel is
//! kept. Luminance is the integer `2126 R + 7152 G + 722 B`, which is the
//! Rec. 709 weighting at a scale of 2 550 000 for white.

use crate::grid::{lemma_index_in_grid, lemma_index_splits, lemma_row_bounds};
use crate::pixel::{blue, green, pack, pack_spec, red, unpack};
use rayon::iter::{IndexedParallelIterator, ParallelIterator};
use rayon::slice::ParallelSliceMut;
use vstd::prelude::*;

verus! {

/// The luminance contrast above which a pixel is smoothed: one tenth of the
/// luminance of white.
pub const LUMA_THRESHOLD: u32 = 255_000;

/// What the pass is asked to do.
#[derive(Clone, Copy, Debug)]
pub struct PostProcessorOptions {
    pub fxaa: bool,
}

/// The smoothing pass for frames of one size.
pub struct PostProcessor {
    options: PostProcessorOptions,
    width: usize,
    height: usize,
    buffer: Vec<u32>,
}

/// The luminance of a pixel, between 0 and 2 550 000.
pub open spec fn luminance_spec(p: u32) -> int {
    2126 * red(p) + 7152 * green(p) + 722 * blue(p)
}

/// The distance between two numbers.
pub open spec fn distance(a: int, b: int) -> int {
    if a >= b {
        a - b
    } else {
        b - a
    }
}

/// The contrast at index `i`: the luminance distance of the left and right
/// neighbours plus that of the upper and lower neighbours.
pub open spec fn luma_delta(src: Seq<u32>, width: int, i: int) -> int {
    distance(luminance_spec(src[i - 1]), luminance_spec(src[i + 1])) + distance(
        luminance_spec(src[i - width]),
        luminance_spec(src[i + width]),
    )
}

/// The sum of a channel over the pixels at `j - 1`, `j` and `j + 1`.
pub open spec fn triple_sum(src: Seq<u32>, j: int, channel: spec_fn(u32) -> int) -> int {
    channel(src[j - 1]) + channel(src[j]) + channel(src[j + 1])
}

/// The sum of a channel over the 3x3 neighbourhood of index `i`.
pub open spec fn box_sum(src: Seq<u32>, width: int, i: int, channel: spec_fn(u32) -> int) -> int {
    triple_sum(src, i - width, channel) + triple_sum(src, i, channel) + triple_sum(
        src,
        i + width,
        channel,
    )
}

/// The unweighted average of the 3x3 neighbourhood of index `i`, channel by
/// channel, each rounded down.
pub open spec fn box_average(src: Seq<u32>, width: int, i: int) -> u32 {
    pack_spec(
        box_sum(src, width, i, |p: u32| red(p)) / 9,
        box_sum(src, width, i, |p: u32| green(p)) / 9,
        box_sum(src, width, i, |p: u32| blue(p)) / 9,
    ) as u32
}

/// Whether column `x` of row `y` lies on the frame's outermost ring.
pub open spec fn on_border(width: int, height: int, x: int, y: int) -> bool {
    x == 0 || x == width - 1 || y == 0 || y == height - 1
}

/// What the pass writes for an interior pixel at index `i`.
pub open spec fn smoothed(src: Seq<u32>, width: int, i: int) -> u32 {
    if luma_delta(src, width, i) > LUMA_THRESHOLD {
        box_average(src, width, i)
    } else {
        src[i]
    }
}

/// What the pass writes at column `x` of row `y`.
pub open spec fn fxaa_pixel(src: Seq<u32>, width: int, height: int, x: int, y: int) -> u32 {
    if on_border(width, height, x, y) {
        src[y * width + x]
    } else {
        smoothed(src, width, y * width + x)
    }
}

/// The whole frame after the pass.
pub open spec fn fxaa(src: Seq<u32>, width: int, height: int) -> Seq<u32> {
    Seq::new(src.len(), |i: int| fxaa_pixel(src, width, height, i % width, i / width))
}

/// What the pass makes of the pixel in column `x` of row `y`: a pixel on the
/// outermost ring is kept; a pixel within it is kept where the contrast of
/// its four neighbours is at most `LUMA_THRESHOLD`, and becomes the average
/// of its 3x3 neighbourhood where the contrast is greater.
pub proof fn lemma_fxaa_cases(src: Seq<u32>, width: int, height: int, x: int, y: int)
    requires
        0 <= x < width,
        0 <= y < height,
        src.len() == width * height,
    ensures
        0 <= y * width + x < src.len(),
        on_border(width, height, x, y) ==> fxaa(src, width, height)[y * width + x] == src[y
            * width + x],
        !on_border(width, height, x, y) && luma_delta(src, width, y * width + x) <= LUMA_THRESHOLD
            ==> fxaa(src, width, height)[y * width + x] == src[y * width + x],
        !on_border(width, height, x, y) && luma_delta(src, width, y * width + x) > LUMA_THRESHOLD
            ==> fxaa(src, width, height)[y * width + x] == box_average(src, width, y * width + x),
{
    lemma_row_bounds(width, height, y);
    lemma_index_splits(width, x, y);
}

/// Computes `distance`.
fn gap(a: u32, b: u32) -> (d: u32)
    ensures
        d == distance(a as int, b as int),
{
    if a >= b {
        a - b
    } else {
        b - a
    }
}

/// Sums the three channels over the pixels at `j - 1`, `j` and `j + 1`.
fn triple_sums(buffer: &[u32], j: usize) -> (s: (u32, u32, u32))
    requires
        1 <= j,
        j + 1 < buffer@.len(),
    ensures
        s.0 == triple_sum(buffer@, j as int, |p: u32| red(p)),
        s.1 == triple_sum(buffer@, j as int, |p: u32| green(p)),
        s.2 == triple_sum(buffer@, j as int, |p: u32| blue(p)),
        s.0 <= 765,
        s.1 <= 765,
        s.2 <= 765,
{
    let (r0, g0, b0) = unpack(buffer[j - 1]);
    let (r1, g1, b1) = unpack(buffer[j]);
    let (r2, g2, b2) = unpack(buffer[j + 1]);
    (
        r0 as u32 + r1 as u32 + r2 as u32,
        g0 as u32 + g1 as u32 + g2 as u32,
        b0 as u32 + b1 as u32 + b2 as u32,
    )
}

impl PostProcessor {
    /// The frame size that this pass was made for, as width and height.
    pub closed spec fn dims(&self) -> (usize, usize) {
        (self.width, self.height)
    }

    /// Whether smoothing is switched on.
    pub closed spec fn enabled(&self) -> bool {
        self.options.fxaa
    }

    /// The pass's own buffer holds one pixel for each pixel of the frame.
    pub closed spec fn wf(&self) -> bool {
        self.buffer@.len() == self.width * self.height
    }

    /// A pass for frames of `width` by `height` pixels.
    pub fn new(width: usize, height: usize, options: PostProcessorOptions) -> (p: PostProcessor)
        requires
            width * height <= usize::MAX,
        ensures
            p.wf(),
            p.dims() == (width, height),
            p.enabled() == options.fxaa,
    {
        PostProcessor { options, width, height, buffer: vec![0u32; width * height] }
    }

    /// Runs the pass over `buffer` in place, if it is switched on.
    pub fn process(&mut self, buffer: &mut [u32])
        requires
            old(self).wf(),
            old(buffer)@.len() == old(self).dims().0 * old(self).dims().1,
        ensures
            final(self).wf(),
            final(self).dims() == old(self).dims(),
            final(self).enabled() == old(self).enabled(),
            final(buffer)@ == if old(self).enabled() {
                fxaa(old(buffer)@, old(self).dims().0 as int, old(self).dims().1 as int)
            } else {
                old(buffer)@
            },
    {
        if self.options.fxaa {
            self.run_fxaa(buffer);
        }
    }

    /// Smooths `buffer` row by row into the pass's own buffer and copies the
    /// result back.
    fn run_fxaa(&mut self, buffer: &mut [u32])
        requires
            old(self).wf(),
            old(buffer)@.len() == old(self).dims().0 * old(self).dims().1,
        ensures
            final(self).wf(),
            final(self).dims() == old(self).dims(),
            final(self).enabled() == old(self).enabled(),
            final(buffer)@ == fxaa(
                old(buffer)@,
                old(self).dims().0 as int,
                old(self).dims().1 as int,
            ),
    {
        let width = self.width;
        let height = self.height;
        let ghost src = buffer@;
        if width == 0 || height == 0 {
            assert(src.len() == 0) by (nonlinear_arith)
                requires
                    src.len() == width * height,
                    width == 0 || height == 0,
            ;
            assert(buffer@ =~= fxaa(src, width as int, height as int));
            return ;
        }
        smooth_rows(&mut self.buffer, buffer, width, height);
        let n = buffer.len();
        let mut i: usize = 0;
        while i < n
            invariant
                i <= n,
                n == src.len(),
                buffer@.len() == n,
                self.buffer@.len() == n,
                forall|k: int| 0 <= k < i ==> buffer@[k] == self.buffer@[k],
            decreases n - i,
        {
            buffer[i] = self.buffer[i];
            i += 1;
        }
        assert(buffer@ =~= fxaa(src, width as int, height as int)) by {
            assert forall|k: int| 0 <= k < n implies buffer@[k] == fxaa_pixel(
                src,
                width as int,
                height as int,
                k % (width as int),
                k / (width as int),
            ) by {
                lemma_index_in_grid(width as int, height as int, k);
            }
        }
    }

    /// Writes the smoothed value of the interior pixel at column `x` of row
    /// `y` of `buffer` to `row[x]`.
    pub fn run_fxaa_for_pixel(buffer: &[u32], row: &mut [u32], x: usize, y: usize, width: usize)
        requires
            1 <= x,
            x + 1 < width,
            1 <= y,
            y * width + 2 * width <= buffer@.len(),
            old(row)@.len() == width,
        ensures
            final(row)@ == old(row)@.update(
                x as int,
                smoothed(buffer@, width as int, y * width + x),
            ),
    {
        proof {
            lemma_row_bounds(width as int, y + 1, y as int);
            lemma_row_bounds(width as int, y + 1, y - 1);
        }
        assert(buffer@.len() == buffer.len());
        let index = y * width + x;
        let left_luma = Self::luminance(buffer[index - 1]);
        let right_luma = Self::luminance(buffer[index + 1]);
        let top_luma = Self::luminance(buffer[index - width]);
        let bottom_luma = Self::luminance(buffer[index + width]);
        let luma_diff = gap(left_luma, right_luma) + gap(top_luma, bottom_luma);
        if luma_diff > LUMA_THRESHOLD {
            let (r0, g0, b0) = triple_sums(buffer, index - width);
            let (r1, g1, b1) = triple_sums(buffer, index);
            let (r2, g2, b2) = triple_sums(buffer, index + width);
            let r_avg = (r0 + r1 + r2) / 9;
            let g_avg = (g0 + g1 + g2) / 9;
            let b_avg = (b0 + b1 + b2) / 9;
            row[x] = pack(r_avg as u8, g_avg as u8, b_avg as u8);
        } else {
            row[x] = buffer[index];
        }
    }

    /// The luminance of a pixel.
    pub fn luminance(pixel: u32) -> (l: u32)
        ensures
            l == luminance_spec(pixel),
            l <= 2_550_000,
    {
        let (r, g, b) = unpack(pixel);
        2126 * (r as u32) + 7152 * (g as u32) + 722 * (b as u32)
    }
}

/// Fills `row` with row `y` of the smoothed frame.
pub fn fxaa_row(buffer: &[u32], row: &mut [u32], y: usize, width: usize, height: usize)
    requires
        y < height,
        buffer@.len() == width * height,
        old(row)@.len() == width,
    ensures
        final(row)@.len() == width,
        forall|x: int|
            0 <= x < width ==> final(row)@[x] == fxaa_pixel(
                buffer@,
                width as int,
                height as int,
                x,
                y as int,
            ),
{
    proof {
        lemma_row_bounds(width as int, height as int, y as int);
    }
    assert(buffer@.len() == buffer.len());
    let mut x: usize = 0;
    while x < width
        invariant
            x <= width,
            y < height,
            buffer@.len() <= usize::MAX,
            buffer@.len() == width * height,
            row@.len() == width,
            0 <= y * width,
            y * width + width <= width * height,
            forall|k: int|
                0 <= k < x ==> row@[k] == fxaa_pixel(
                    buffer@,
                    width as int,
                    height as int,
                    k,
                    y as int,
                ),
        decreases width - x,
    {
        if x == 0 || x == width - 1 || y == 0 || y == height - 1 {
            row[x] = buffer[y * width + x];
        } else {
            proof {
                lemma_row_bounds(width as int, height as int, y as int);
                lemma_row_bounds(width as int, height as int, y + 1);
            }
            PostProcessor::run_fxaa_for_pixel(buffer, row, x, y, width);
        }
        x += 1;
    }
}

/// Smooths every row of `src` into the matching row of `out`, the rows
/// shared out among the worker threads.
///
/// Calls rayon's `par_chunks_mut`, `enumerate` and `for_each`. The contract
/// claims that `out` is cut into consecutive rows of `width` pixels, that
/// `fxaa_row` runs once on each of them with the row's number, and that
/// nothing else touches `out`: each pixel then holds what `fxaa_row` ensures.
#[verifier::external_body]
fn smooth_rows(out: &mut Vec<u32>, src: &[u32], width: usize, height: usize)
    requires
        width > 0,
        src@.len() == width * height,
        old(out)@.len() == width * height,
    ensures
        final(out)@.len() == old(out)@.len(),
        forall|x: int, y: int|
            0 <= x < width && 0 <= y < height ==> #[trigger] final(out)@[y * width + x]
                == fxaa_pixel(src@, width as int, height as int, x, y),
{
    out.par_chunks_mut(width).enumerate().for_each(|(y, row)| fxaa_row(src, row, y, width, height));
}

} // verus!
