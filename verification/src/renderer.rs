//! A frame from start to end: rasterise, then smooth.

use crate::alpha_buffer::PixelState;
use crate::post_processor::{fxaa, PostProcessor, PostProcessorOptions};
use crate::rasterizer::{colour_to_u32, RasterOptions, Rasterizer};
use vstd::prelude::*;

verus! {

/// The options of the two stages.
#[derive(Clone, Copy, Debug)]
pub struct RendererOptions {
    pub raster_options: RasterOptions,
    pub post_processor_options: PostProcessorOptions,
}

/// A rasteriser and a smoothing pass for one screen.
pub struct Renderer {
    pub rasterizer: Rasterizer,
    pub post_processor: PostProcessor,
}

/// The frame that the pixels resolve to, before smoothing.
pub open spec fn resolved_frame(cells: Seq<PixelState>) -> Seq<u32> {
    Seq::new(cells.len(), |i: int| colour_to_u32(cells[i].resolve_colour()))
}

impl Renderer {
    /// Both stages are made for the same screen.
    pub open spec fn wf(&self) -> bool {
        &&& self.rasterizer.wf()
        &&& self.post_processor.wf()
        &&& self.rasterizer.dims() == self.post_processor.dims()
        &&& self.rasterizer.cells().len() == self.rasterizer.dims().0 * self.rasterizer.dims().1
    }

    /// A renderer for a screen of `width` by `height` pixels.
    pub fn new(width: usize, height: usize, options: RendererOptions) -> (renderer: Renderer)
        requires
            width * height <= usize::MAX,
        ensures
            renderer.wf(),
            renderer.rasterizer.dims() == (width, height),
            renderer.rasterizer.options() == options.raster_options,
            renderer.post_processor.enabled() == options.post_processor_options.fxaa,
            forall|i: int|
                0 <= i < width * height ==> #[trigger] renderer.rasterizer.cells()[i]
                    == PixelState::cleared(options.raster_options.background_colour),
    {
        Self {
            rasterizer: Rasterizer::new(width, height, options.raster_options),
            post_processor: PostProcessor::new(width, height, options.post_processor_options),
        }
    }

    /// Renders the frame into `buffer`: the pixels are resolved and packed,
    /// then the frame is smoothed if smoothing is switched on. The pixels
    /// are left cleared for the next frame.
    pub fn render(&mut self, buffer: &mut [u32])
        requires
            old(self).wf(),
            old(buffer)@.len() == old(self).rasterizer.dims().0 * old(self).rasterizer.dims().1,
        ensures
            final(self).wf(),
            final(self).rasterizer.dims() == old(self).rasterizer.dims(),
            final(self).rasterizer.options() == old(self).rasterizer.options(),
            final(self).rasterizer.uniforms() == old(self).rasterizer.uniforms(),
            final(self).post_processor.enabled() == old(self).post_processor.enabled(),
            forall|i: int|
                0 <= i < old(buffer)@.len() ==> #[trigger] final(self).rasterizer.cells()[i]
                    == PixelState::cleared(old(self).rasterizer.options().background_colour),
            final(buffer)@ == if old(self).post_processor.enabled() {
                fxaa(
                    resolved_frame(old(self).rasterizer.cells()),
                    old(self).rasterizer.dims().0 as int,
                    old(self).rasterizer.dims().1 as int,
                )
            } else {
                resolved_frame(old(self).rasterizer.cells())
            },
    {
        self.rasterizer.render_to_buffer(buffer);
        assert(buffer@ =~= resolved_frame(old(self).rasterizer.cells()));
        self.post_processor.process(buffer);
    }
}

} // verus!
