//! The rendering bridge between the software rasterizer and the pixel
//! transport.
//!
//! The rasterizer produces one scanline at a time in RGB565 order; the
//! display accepts rectangular writes of BGR565 pixels. The bridge owns
//! the single reused scanline buffer, re-encodes each pixel, and turns
//! every scanline request into exactly one transport write covering
//! exactly the requested rectangle. It also tracks that the toolkit's
//! window surface is bound at most once.

use vstd::prelude::*;

use crate::color::{rgb565_to_bgr565, spec_rgb565_to_bgr565};

verus! {

/// The window surface was requested a second time; binding it is a
/// startup-time programming error and aborts initialization.
#[derive(Clone, Copy, PartialEq, Eq, Structural, Debug)]
pub enum BridgeError {
    SurfaceAlreadyBound,
}

/// What one pass of the cooperative repaint loop does next.
#[derive(Clone, Copy, PartialEq, Eq, Structural, Debug)]
pub enum LoopStep {
    PollAgain,
    RenderAndSleep,
}

/// The animation-aware skip of the repaint loop: while the toolkit
/// reports an active animation the pass polls again at once, without
/// repainting and without sleeping; otherwise it repaints if needed
/// and then sleeps one interval to yield the processor.
pub fn repaint_step(animations_active: bool) -> (r: LoopStep)
    ensures
        r == (if animations_active {
            LoopStep::PollAgain
        } else {
            LoopStep::RenderAndSleep
        }),
{
    if animations_active {
        LoopStep::PollAgain
    } else {
        LoopStep::RenderAndSleep
    }
}

/// One rectangular transport write: the region's top-left corner and
/// extent, and its pixels in row-major order, in the display's native
/// BGR565 encoding.
pub struct LineWrite {
    pub x: u32,
    pub y: u32,
    pub width: u32,
    pub height: u32,
    pub pixels: Vec<u16>,
}

/// The bridge: display extent, the reused scanline buffer, and whether
/// the window surface has been handed out.
pub struct Bridge {
    pub width: u32,
    pub height: u32,
    pub buffer: Vec<u16>,
    pub surface_bound: bool,
}

impl Bridge {
    /// The scanline buffer always spans exactly one display row.
    pub open spec fn wf(&self) -> bool {
        self.buffer@.len() == self.width
    }

    /// A bridge for a display of the given extent, with a cleared
    /// scanline buffer and no surface bound yet.
    pub fn new(width: u32, height: u32) -> (r: Bridge)
        requires
            width <= 4096,
        ensures
            r.wf(),
            r.width == width,
            r.height == height,
            !r.surface_bound,
    {
        Bridge { width, height, buffer: vec![0u16; width as usize], surface_bound: false }
    }

    /// Hand out the window surface. The surface exists once for the
    /// process lifetime: the first call succeeds and binds it, any
    /// later call fails and changes nothing.
    pub fn create_surface(&mut self) -> (r: Result<(), BridgeError>)
        ensures
            *final(self) == (Bridge { surface_bound: true, ..*old(self) }),
            r is Ok <==> !old(self).surface_bound,
            r is Err ==> r == Result::<(), BridgeError>::Err(BridgeError::SurfaceAlreadyBound)
                && *final(self) == *old(self),
    {
        if self.surface_bound {
            Err(BridgeError::SurfaceAlreadyBound)
        } else {
            self.surface_bound = true;
            Ok(())
        }
    }

    /// Consume one rasterized scanline: copy the rendered pixels for
    /// row `line`, columns `range_start` up to `range_end`, into the
    /// reused buffer, and return the single transport write for that
    /// exact rectangle — one row high, one pixel per requested column,
    /// each re-encoded from RGB565 to BGR565. Pixels of the buffer
    /// outside the requested range are left as they were.
    pub fn process_line(&mut self, line: u32, range_start: usize, range_end: usize, rendered: &Vec<
        u16,
    >) -> (w: LineWrite)
        requires
            old(self).wf(),
            range_start <= range_end,
            range_end <= old(self).width,
            line < old(self).height,
            rendered@.len() == range_end - range_start,
        ensures
            final(self).wf(),
            final(self).width == old(self).width,
            final(self).height == old(self).height,
            final(self).surface_bound == old(self).surface_bound,
            forall|i: int|
                range_start <= i < range_end ==> final(self).buffer@[i] == rendered@[i
                    - range_start],
            forall|i: int|
                0 <= i < old(self).buffer@.len() && !(range_start <= i < range_end) ==> final(self).buffer@[i]
                    == old(self).buffer@[i],
            w.x == range_start,
            w.y == line,
            w.width == range_end - range_start,
            w.height == 1,
            w.pixels@.len() == range_end - range_start,
            forall|i: int|
                0 <= i < w.pixels@.len() ==> w.pixels@[i] == spec_rgb565_to_bgr565(rendered@[i]),
    {
        let mut i: usize = 0;
        while i < range_end - range_start
            invariant
                range_start <= range_end <= self.buffer@.len(),
                i <= range_end - range_start,
                rendered@.len() == range_end - range_start,
                self.width == old(self).width,
                self.height == old(self).height,
                self.surface_bound == old(self).surface_bound,
                self.buffer@.len() == old(self).buffer@.len(),
                forall|j: int|
                    range_start <= j < range_start + i ==> self.buffer@[j] == rendered@[j
                        - range_start],
                forall|j: int|
                    0 <= j < old(self).buffer@.len() && !(range_start <= j < range_start + i)
                        ==> self.buffer@[j] == old(self).buffer@[j],
            decreases range_end - range_start - i,
        {
            self.buffer[range_start + i] = rendered[i];
            i = i + 1;
        }
        let count = range_end - range_start;
        let mut pixels: Vec<u16> = Vec::new();
        let mut k: usize = 0;
        while k < count
            invariant
                count == range_end - range_start,
                range_start <= range_end <= self.buffer@.len(),
                k <= count,
                rendered@.len() == count,
                pixels@.len() == k,
                forall|j: int|
                    range_start <= j < range_end ==> self.buffer@[j] == rendered@[j - range_start],
                forall|j: int| 0 <= j < k ==> pixels@[j] == spec_rgb565_to_bgr565(rendered@[j]),
            decreases count - k,
        {
            let p = self.buffer[range_start + k];
            pixels.push(rgb565_to_bgr565(p));
            k = k + 1;
        }
        LineWrite { x: range_start as u32, y: line, width: count as u32, height: 1, pixels }
    }
}

} // verus!
