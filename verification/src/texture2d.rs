//! Textures of 8-bit RGBA texels, sampled at the nearest texel.

use crate::fixed::{Fixed, ONE};
use crate::grid::lemma_row_bounds;
use crate::vector::Vec4;
use vstd::prelude::*;

verus! {

/// One texel: red, green, blue and alpha, each from 0 to 255.
#[derive(Clone, Copy, Debug, PartialEq, Eq, Structural)]
pub struct Texel {
    pub r: u8,
    pub g: u8,
    pub b: u8,
    pub a: u8,
}

/// A texture of `width` by `height` texels, the top row first. It does not
/// change once it is made.
pub struct Texture2D {
    pixels: Vec<Texel>,
    width: usize,
    height: usize,
}

/// What a texture holds.
pub struct TextureData {
    pub width: nat,
    pub height: nat,
    pub texels: Seq<Texel>,
}

/// The channel value `c / 255` as a fixed-point number, rounded up: the
/// least number that gives `c` back when it is scaled by 255 and rounded
/// down.
pub open spec fn channel_to_fixed(c: u8) -> int {
    (c * ONE + 254) / 255
}

/// The colour of a texel, each channel between 0 and 1.
pub open spec fn texel_colour(t: Texel) -> Vec4 {
    Vec4 {
        x: channel_to_fixed(t.r) as i32,
        y: channel_to_fixed(t.g) as i32,
        z: channel_to_fixed(t.b) as i32,
        w: channel_to_fixed(t.a) as i32,
    }
}

/// The texel column (or row, counted from the bottom) that the coordinate
/// `t` names in a texture of `size` columns: `t * (size - 1)` rounded down
/// and held within the texture.
pub open spec fn texel_coordinate(t: Fixed, size: nat) -> int {
    let scaled = (t * (size - 1)) / (ONE as int);
    if scaled < 0 {
        0
    } else if scaled > size - 1 {
        size - 1
    } else {
        scaled
    }
}

/// Whether `bytes` holds the four channels of each texel of a texture of
/// `width` by `height` texels.
pub open spec fn holds_rgba8(width: usize, height: usize, bytes: Seq<u8>) -> bool {
    width >= 1 && height >= 1 && bytes.len() == 4 * (width * height)
}

/// The texels that `bytes` holds, four bytes each.
pub open spec fn texels_of(bytes: Seq<u8>) -> Seq<Texel> {
    Seq::new(
        bytes.len() / 4,
        |i: int|
            Texel { r: bytes[4 * i], g: bytes[4 * i + 1], b: bytes[4 * i + 2], a: bytes[4 * i + 3] },
    )
}

impl TextureData {
    /// The index of the texel that the coordinates name: `u` runs from the
    /// left edge to the right, `v` from the bottom row to the top.
    pub open spec fn texel_index(self, u: Fixed, v: Fixed) -> int {
        (self.height - 1 - texel_coordinate(v, self.height)) * self.width + texel_coordinate(
            u,
            self.width,
        )
    }

    /// The colour of the texel nearest to the coordinates.
    pub open spec fn sample_spec(self, u: Fixed, v: Fixed) -> Vec4 {
        texel_colour(self.texels[self.texel_index(u, v)])
    }
}

impl View for Texture2D {
    type V = TextureData;

    closed spec fn view(&self) -> TextureData {
        TextureData {
            width: self.width as nat,
            height: self.height as nat,
            texels: self.pixels@,
        }
    }
}

/// Computes `channel_to_fixed`.
fn channel(c: u8) -> (r: Fixed)
    ensures
        r == channel_to_fixed(c),
        0 <= r <= ONE,
{
    ((c as i32) * ONE + 254) / 255
}

/// Computes `texel_coordinate`.
fn coordinate(t: Fixed, size: usize) -> (c: usize)
    requires
        size >= 1,
    ensures
        c == texel_coordinate(t, size as nat),
        c < size,
{
    let last: i128 = (size - 1) as i128;
    assert(-0x8000_0000_0000_0000_0000_0000 <= t * last <= 0x8000_0000_0000_0000_0000_0000)
        by (nonlinear_arith)
        requires
            -0x8000_0000 <= t <= 0x7fff_ffff,
            0 <= last <= 0xffff_ffff_ffff_ffff,
    ;
    let scaled = match ((t as i128) * last).checked_div_euclid(65536) {
        Some(q) => q,
        None => 0,
    };
    if scaled < 0 {
        0
    } else if scaled > last {
        size - 1
    } else {
        scaled as usize
    }
}

impl Texture2D {
    #[verifier::type_invariant]
    spec fn well_formed(&self) -> bool {
        self.width >= 1 && self.height >= 1 && self.pixels@.len() == self.width * self.height
    }

    /// The texture of `width` by `height` texels that holds `pixels`, if
    /// there is a texel for every place and at least one place.
    pub fn new(width: usize, height: usize, pixels: Vec<Texel>) -> (texture: Option<Texture2D>)
        ensures
            texture is Some <==> width >= 1 && height >= 1 && pixels@.len() == width * height,
            texture matches Some(t) ==> t@ == (TextureData {
                width: width as nat,
                height: height as nat,
                texels: pixels@,
            }),
    {
        let len = pixels.len();
        if width == 0 || height == 0 {
            return None;
        }
        match width.checked_mul(height) {
            Some(n) => {
                if len == n {
                    Some(Texture2D { pixels, width, height })
                } else {
                    None
                }
            },
            None => None,
        }
    }

    /// The texture of `width` by `height` texels whose channels `bytes`
    /// holds: four bytes for each texel, red first, the top row first.
    pub fn from_rgba8(width: usize, height: usize, bytes: &[u8]) -> (texture: Option<Texture2D>)
        ensures
            texture is Some <==> holds_rgba8(width, height, bytes@),
            texture matches Some(t) ==> t@ == (TextureData {
                width: width as nat,
                height: height as nat,
                texels: texels_of(bytes@),
            }),
    {
        if width == 0 || height == 0 || bytes.len() % 4 != 0 {
            return None;
        }
        let n = bytes.len() / 4;
        assert(4 * n == bytes@.len());
        match width.checked_mul(height) {
            Some(count) => {
                if count != n {
                    return None;
                }
            },
            None => {
                return None;
            },
        }
        let mut pixels: Vec<Texel> = Vec::new();
        let mut i: usize = 0;
        while i < n
            invariant
                i <= n,
                4 * n == bytes@.len(),
                bytes@.len() <= usize::MAX,
                pixels@.len() == i,
                forall|k: int| 0 <= k < i ==> pixels@[k] == texels_of(bytes@)[k],
            decreases n - i,
        {
            pixels.push(
                Texel {
                    r: bytes[4 * i],
                    g: bytes[4 * i + 1],
                    b: bytes[4 * i + 2],
                    a: bytes[4 * i + 3],
                },
            );
            i += 1;
        }
        assert(pixels@ =~= texels_of(bytes@));
        Some(Texture2D { pixels, width, height })
    }

    /// The colour of the texel nearest to `(u, v)`, where `(0, 0)` is the
    /// bottom left corner and `(1, 1)` the top right one. Coordinates
    /// outside the texture name the nearest edge.
    pub fn sample(&self, u: Fixed, v: Fixed) -> (colour: Vec4)
        ensures
            colour == self@.sample_spec(u, v),
    {
        proof {
            use_type_invariant(self);
        }
        assert(self.pixels@.len() == self.pixels.len());
        let column = coordinate(u, self.width);
        let row = self.height - 1 - coordinate(v, self.height);
        proof {
            lemma_row_bounds(self.width as int, self.height as int, row as int);
        }
        let texel = self.pixels[row * self.width + column];
        Vec4 { x: channel(texel.r), y: channel(texel.g), z: channel(texel.b), w: channel(texel.a) }
    }
}

} // verus!
