//! The per-pixel fragment accumulator.
//!
//! A pixel keeps one background fragment, the nearest opaque surface seen so
//! far, and the translucent fragments in front of it in the order in which
//! they came. Resolving a pixel sorts the translucent fragments by depth,
//! blends them over the background and clears the pixel.

use crate::fixed::{clamp_to_fixed, product, scale_down, Fixed, ONE};
use crate::vector::{Vec3, Vec4};
use vstd::prelude::*;

verus! {

/// The least alpha that counts as fully opaque: 0.9999 rounded up.
pub const OPAQUE_ALPHA: Fixed = 65530;

/// The depth of a pixel on which nothing opaque was drawn. No fragment at
/// this depth is ever in front of anything.
pub const DEPTH_MAX: Fixed = 2147483647;

/// A shaded sample of one triangle at one pixel: a straight (not
/// premultiplied) RGBA colour, alpha in `w`, and a depth.
#[derive(Clone, Copy, Debug, PartialEq, Eq, Structural)]
pub struct Fragment {
    pub colour: Vec4,
    pub depth: Fixed,
}

/// The accumulator cell of one pixel.
pub struct RenderBufferPixel {
    fragments: Vec<Fragment>,
    background: Fragment,
}

/// What a pixel holds: its background and its translucent fragments in the
/// order of their arrival.
pub struct PixelState {
    pub background: Fragment,
    pub fragments: Seq<Fragment>,
}

/// One channel of `src` over `dst`: `src * alpha + dst * (1 - alpha)`.
pub open spec fn over_channel(src: int, dst: int, alpha: int) -> int {
    clamp_to_fixed((src * alpha + dst * (ONE - alpha)) / (ONE as int))
}

/// The colour `src` blended over the opaque colour `dst` by the alpha of
/// `src`.
pub open spec fn over(src: Vec4, dst: Vec3) -> Vec3 {
    Vec3 {
        x: over_channel(src.x as int, dst.x as int, src.w as int) as i32,
        y: over_channel(src.y as int, dst.y as int, src.w as int) as i32,
        z: over_channel(src.z as int, dst.z as int, src.w as int) as i32,
    }
}

/// `sorted` with `f` put behind every fragment that is not farther than `f`.
pub open spec fn insert_by_depth(sorted: Seq<Fragment>, f: Fragment) -> Seq<Fragment>
    decreases sorted.len(),
{
    if sorted.len() == 0 {
        seq![f]
    } else if sorted.last().depth <= f.depth {
        sorted.push(f)
    } else {
        insert_by_depth(sorted.drop_last(), f).push(sorted.last())
    }
}

/// The fragments in ascending depth; fragments of one depth keep the order
/// in which they came.
pub open spec fn sort_by_depth(fragments: Seq<Fragment>) -> Seq<Fragment>
    decreases fragments.len(),
{
    if fragments.len() == 0 {
        fragments
    } else {
        insert_by_depth(sort_by_depth(fragments.drop_last()), fragments.last())
    }
}

/// The colour that results from blending `fragments` over `base`, the first
/// fragment first; a fragment farther than `limit` is left out.
pub open spec fn composite(fragments: Seq<Fragment>, limit: Fixed, base: Vec3) -> Vec3
    decreases fragments.len(),
{
    if fragments.len() == 0 {
        base
    } else {
        let below = composite(fragments.drop_last(), limit, base);
        if fragments.last().depth > limit {
            below
        } else {
            over(fragments.last().colour, below)
        }
    }
}

/// Whether the depths of `s` never fall from one fragment to the next.
pub open spec fn ascending(s: Seq<Fragment>) -> bool {
    forall|i: int, j: int| 0 <= i <= j < s.len() ==> s[i].depth <= s[j].depth
}

impl PixelState {
    /// A pixel on which nothing was drawn: the clear colour, fully opaque,
    /// at the greatest depth.
    pub open spec fn cleared(background_colour: Vec3) -> PixelState {
        PixelState {
            background: Fragment {
                colour: Vec4 {
                    x: background_colour.x,
                    y: background_colour.y,
                    z: background_colour.z,
                    w: ONE,
                },
                depth: DEPTH_MAX,
            },
            fragments: Seq::empty(),
        }
    }

    /// The pixel after `fragment` has been handed to it: an opaque fragment
    /// takes the place of the background, any other joins the translucent
    /// ones. Depths are not compared here.
    pub open spec fn add_spec(self, fragment: Fragment) -> PixelState {
        if fragment.colour.w >= OPAQUE_ALPHA {
            PixelState { background: fragment, fragments: self.fragments }
        } else {
            PixelState { background: self.background, fragments: self.fragments.push(fragment) }
        }
    }

    /// The colour of the pixel: the translucent fragments that are not
    /// behind the background, blended over it from the nearest to the
    /// farthest. Each fragment is blended over what the background and the
    /// nearer fragments have given, so the farthest of them is laid on last:
    /// where more than one translucent fragment is in front of the
    /// background, this is not what a painter would do, who lays the nearest
    /// on last.
    pub open spec fn resolve_colour(self) -> Vec3 {
        composite(
            sort_by_depth(self.fragments),
            self.background.depth,
            Vec3 {
                x: self.background.colour.x,
                y: self.background.colour.y,
                z: self.background.colour.z,
            },
        )
    }
}

impl View for RenderBufferPixel {
    type V = PixelState;

    closed spec fn view(&self) -> PixelState {
        PixelState { background: self.background, fragments: self.fragments@ }
    }
}

/// Where `insert_by_depth` puts a fragment: at `j`, if every fragment from
/// `j` on is farther and the one before `j` is not.
proof fn lemma_insert_position(sorted: Seq<Fragment>, f: Fragment, j: int)
    requires
        0 <= j <= sorted.len(),
        forall|k: int| j <= k < sorted.len() ==> sorted[k].depth > f.depth,
        j == 0 || sorted[j - 1].depth <= f.depth,
    ensures
        insert_by_depth(sorted, f) == sorted.insert(j, f),
    decreases sorted.len() - j,
{
    if sorted.len() == 0 {
        assert(sorted.insert(j, f) =~= seq![f]);
    } else if j == sorted.len() {
        assert(sorted.insert(j, f) =~= sorted.push(f));
    } else {
        lemma_insert_position(sorted.drop_last(), f, j);
        assert(sorted.insert(j, f) =~= sorted.drop_last().insert(j, f).push(sorted.last()));
    }
}

/// Inserting keeps every fragment, adds the new one, and keeps the depths
/// ascending.
pub proof fn lemma_insert_by_depth(sorted: Seq<Fragment>, f: Fragment)
    requires
        ascending(sorted),
    ensures
        ascending(insert_by_depth(sorted, f)),
        insert_by_depth(sorted, f).to_multiset() == sorted.to_multiset().insert(f),
        insert_by_depth(sorted, f).len() == sorted.len() + 1,
    decreases sorted.len(),
{
    broadcast use vstd::seq_lib::group_to_multiset_ensures;

    if sorted.len() == 0 {
        assert(sorted =~= Seq::<Fragment>::empty());
        assert(seq![f] =~= Seq::<Fragment>::empty().push(f));
    } else if sorted.last().depth <= f.depth {
    } else {
        let rest = sorted.drop_last();
        let last = sorted.last();
        lemma_insert_by_depth(rest, f);
        let inner = insert_by_depth(rest, f);
        assert(sorted =~= rest.push(last));
        assert forall|i: int| 0 <= i < inner.len() implies (#[trigger] inner[i]).depth
            <= last.depth by {
            assert(inner.to_multiset().count(inner[i]) > 0);
            if inner[i] != f {
                assert(rest.to_multiset().count(inner[i]) > 0);
                let k = choose|k: int| 0 <= k < rest.len() && rest[k] == inner[i];
                assert(sorted[k] == inner[i]);
            }
        }
    }
}

/// Sorting keeps every fragment and leaves the depths ascending.
pub proof fn lemma_sort_by_depth(fragments: Seq<Fragment>)
    ensures
        ascending(sort_by_depth(fragments)),
        sort_by_depth(fragments).to_multiset() == fragments.to_multiset(),
        sort_by_depth(fragments).len() == fragments.len(),
    decreases fragments.len(),
{
    broadcast use vstd::seq_lib::group_to_multiset_ensures;

    if fragments.len() == 0 {
    } else {
        lemma_sort_by_depth(fragments.drop_last());
        lemma_insert_by_depth(sort_by_depth(fragments.drop_last()), fragments.last());
        assert(fragments =~= fragments.drop_last().push(fragments.last()));
    }
}

/// A pixel on which nothing was drawn resolves to its clear colour.
pub proof fn lemma_cleared_resolves_to_background(background_colour: Vec3)
    ensures
        PixelState::cleared(background_colour).resolve_colour() == background_colour,
{
    assert(sort_by_depth(Seq::<Fragment>::empty()) =~= Seq::<Fragment>::empty());
}

/// Computes `over`.
pub fn blend_over(src: &Vec4, dst: &Vec3) -> (c: Vec3)
    ensures
        c == over(*src, *dst),
{
    let keep: i128 = (ONE as i128) - (src.w as i128);
    Vec3 {
        x: scale_down(product(src.x, src.w) + wide_product(dst.x, keep)),
        y: scale_down(product(src.y, src.w) + wide_product(dst.y, keep)),
        z: scale_down(product(src.z, src.w) + wide_product(dst.z, keep)),
    }
}

/// The product of a fixed-point number and a weight of up to 33 bits.
fn wide_product(a: Fixed, b: i128) -> (r: i128)
    requires
        -0x1_0000_0000 <= b <= 0x1_0000_0000,
    ensures
        r == a * b,
        -0x8000_0000_0000_0000 <= r <= 0x8000_0000_0000_0000,
{
    assert(-0x8000_0000_0000_0000 <= a * b <= 0x8000_0000_0000_0000) by (nonlinear_arith)
        requires
            -0x8000_0000 <= a <= 0x7fff_ffff,
            -0x1_0000_0000 <= b <= 0x1_0000_0000,
    ;
    (a as i128) * b
}

/// Puts `f` into the ascending vector `sorted`.
fn insert_fragment(sorted: &mut Vec<Fragment>, f: Fragment)
    ensures
        final(sorted)@ == insert_by_depth(old(sorted)@, f),
{
    let mut j: usize = sorted.len();
    while j > 0 && sorted[j - 1].depth > f.depth
        invariant
            j <= sorted@.len(),
            sorted@ == old(sorted)@,
            forall|k: int| j <= k < sorted@.len() ==> sorted@[k].depth > f.depth,
        decreases j,
    {
        j -= 1;
    }
    proof {
        lemma_insert_position(sorted@, f, j as int);
    }
    sorted.insert(j, f);
}

/// The fragments in ascending depth.
fn sorted_fragments(fragments: &Vec<Fragment>) -> (sorted: Vec<Fragment>)
    ensures
        sorted@ == sort_by_depth(fragments@),
{
    let mut sorted: Vec<Fragment> = Vec::new();
    let mut i: usize = 0;
    while i < fragments.len()
        invariant
            i <= fragments@.len(),
            sorted@ == sort_by_depth(fragments@.take(i as int)),
        decreases fragments@.len() - i,
    {
        assert(fragments@.take(i + 1).drop_last() =~= fragments@.take(i as int));
        insert_fragment(&mut sorted, fragments[i]);
        i += 1;
    }
    assert(fragments@.take(i as int) =~= fragments@);
    sorted
}

impl RenderBufferPixel {
    /// A pixel on which nothing was drawn.
    pub fn new(background_colour: Vec3) -> (pixel: RenderBufferPixel)
        ensures
            pixel@ == PixelState::cleared(background_colour),
    {
        RenderBufferPixel {
            fragments: Vec::new(),
            background: Fragment { colour: background_colour.push(ONE), depth: DEPTH_MAX },
        }
    }

    /// Hands a fragment to the pixel. The caller has compared its depth with
    /// that of the background.
    pub fn add(&mut self, fragment: Fragment)
        ensures
            final(self)@ == old(self)@.add_spec(fragment),
    {
        if fragment.colour.w >= OPAQUE_ALPHA {
            self.background = fragment;
        } else {
            self.fragments.push(fragment);
        }
    }

    /// Returns the pixel's colour and clears the pixel to
    /// `background_colour`.
    pub fn resolve(&mut self, background_colour: Vec3) -> (colour: Vec3)
        ensures
            colour == old(self)@.resolve_colour(),
            final(self)@ == PixelState::cleared(background_colour),
    {
        let fragments = sorted_fragments(&self.fragments);
        let mut result_colour = self.background.colour.xyz();
        let background_depth = self.background.depth;
        let ghost base = result_colour;
        let mut i: usize = 0;
        while i < fragments.len()
            invariant
                i <= fragments@.len(),
                result_colour == composite(fragments@.take(i as int), background_depth, base),
            decreases fragments@.len() - i,
        {
            assert(fragments@.take(i + 1).drop_last() =~= fragments@.take(i as int));
            if fragments[i].depth <= background_depth {
                result_colour = blend_over(&fragments[i].colour, &result_colour);
            }
            i += 1;
        }
        assert(fragments@.take(i as int) =~= fragments@);
        self.fragments.clear();
        self.background = Fragment { colour: background_colour.push(ONE), depth: DEPTH_MAX };
        result_colour
    }

    /// The nearest opaque fragment seen so far.
    pub fn get_background(&self) -> (background: &Fragment)
        ensures
            *background == self@.background,
    {
        &self.background
    }
}

} // verus!
