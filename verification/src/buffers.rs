//! What travels between the two stages: requests for tiles, and painted
//! tiles.

use vstd::prelude::*;
use crate::content_age::ContentAge;
use crate::geometry::{Rect, Scalar, Size2D};
use crate::surface::{LeakState, NativePaintingGraphicsContext, NativeSurface, NativeSurfaceView, SurfaceRelease};

verus! {

/// A request from the compositor to the painter for one tile.
///
/// A request is a value: once made it never changes, whatever happens to the
/// layer that made it.
#[derive(Clone, Copy, Debug, PartialEq, Eq, Structural)]
pub struct BufferRequest {
    /// The rectangle, in device pixels, that the tile will cover on screen.
    pub screen_rect: Rect<usize>,
    /// The rectangle, in page coordinates, that the tile shows.
    pub page_rect: Rect<Scalar>,
    /// The age of the layer's content when the request was made.
    pub content_age: ContentAge,
}

impl BufferRequest {
    pub fn new(screen_rect: Rect<usize>, page_rect: Rect<Scalar>, content_age: ContentAge) -> (request:
        BufferRequest)
        ensures
            request == (BufferRequest { screen_rect, page_rect, content_age }),
    {
        BufferRequest { screen_rect, page_rect, content_age }
    }
}

/// A painted tile: a native surface and what is known about its pixels.
#[derive(Debug)]
pub struct LayerBuffer {
    /// The surface that holds the pixels. It can be shared between threads
    /// or processes and is never reclaimed by itself.
    pub native_surface: NativeSurface,
    /// The rectangle in the containing layer that the tile shows.
    pub rect: Rect<Scalar>,
    /// The rectangle, in device pixels, that the tile covers on screen.
    pub screen_pos: Rect<usize>,
    /// The scale at which the tile was painted.
    pub resolution: Scalar,
    /// Length of a row, in pixels.
    pub stride: usize,
    /// Whether the tile was painted on the CPU.
    pub painted_with_cpu: bool,
    /// The age of the layer's content when the tile was asked for.
    pub content_age: ContentAge,
}

impl LayerBuffer {
    /// Whether `after` is this buffer with its surface in the given state
    /// and nothing else changed.
    pub open spec fn same_but_leak_state(&self, after: LayerBuffer, state: LeakState) -> bool {
        &&& after.native_surface@ == (NativeSurfaceView {
            handle: self.native_surface@.handle,
            leak_state: state,
        })
        &&& after.rect == self.rect
        &&& after.screen_pos == self.screen_pos
        &&& after.resolution == self.resolution
        &&& after.stride == self.stride
        &&& after.painted_with_cpu == self.painted_with_cpu
        &&& after.content_age == self.content_age
    }

    /// Whether the memory estimate fits a machine word.
    pub open spec fn mem_fits(&self) -> bool {
        self.screen_pos.size.width * self.screen_pos.size.height <= usize::MAX
    }

    /// A cheap estimate of the memory that the tile takes: the number of
    /// pixels it covers on screen, whatever their format.
    pub fn get_mem(&self) -> (mem: usize)
        requires
            self.mem_fits(),
        ensures
            mem == self.screen_pos.size.width * self.screen_pos.size.height,
    {
        self.screen_pos.size.width * self.screen_pos.size.height
    }

    /// The size of the tile on screen.
    pub fn get_size_2d(&self) -> (size: Size2D<usize>)
        ensures
            size == self.screen_pos.size,
    {
        self.screen_pos.size
    }

    /// Second half of a hand-over: the side that has just taken the buffer
    /// tells its tracker to watch the surface.
    pub fn mark_wont_leak(&mut self)
        ensures
            old(self).same_but_leak_state(*final(self), LeakState::Watched),
    {
        self.native_surface.mark_wont_leak()
    }

    /// Destroys the buffer. Only the painting role holds the context that
    /// this takes.
    pub fn destroy(self, graphics_context: &NativePaintingGraphicsContext) -> (release:
        SurfaceRelease)
        ensures
            release == (SurfaceRelease {
                handle: self.native_surface@.handle,
                context: graphics_context@,
            }),
    {
        self.native_surface.destroy(graphics_context)
    }
}

/// One generation of painted tiles, handed over as a whole.
#[derive(Debug)]
pub struct LayerBufferSet {
    pub buffers: Vec<Box<LayerBuffer>>,
}

impl LayerBufferSet {
    /// First half of a hand-over of the whole set: every surface in it is
    /// marked as leaving this side. Nothing else about any buffer changes,
    /// and the buffers stay in their places.
    pub fn mark_will_leak(&mut self)
        ensures
            final(self).buffers@.len() == old(self).buffers@.len(),
            forall|i: int|
                #![trigger old(self).buffers@[i]]
                #![trigger final(self).buffers@[i]]
                0 <= i < old(self).buffers@.len() ==> old(self).buffers@[i].same_but_leak_state(
                    *final(self).buffers@[i],
                    LeakState::Suppressed,
                ),
    {
        let n: usize = self.buffers.len();
        let mut k: usize = 0;
        while k < n
            invariant
                k <= n,
                self.buffers@.len() == n,
                old(self).buffers@.len() == n,
                forall|i: int|
                    #![trigger old(self).buffers@[i]]
                    #![trigger self.buffers@[i]]
                    0 <= i < k ==> old(self).buffers@[i].same_but_leak_state(
                        *self.buffers@[i],
                        LeakState::Suppressed,
                    ),
                forall|i: int| k <= i < n ==> #[trigger] self.buffers@[i] == old(self).buffers@[i],
            decreases n - k,
        {
            self.buffers[k].native_surface.mark_will_leak();
            k = k + 1;
        }
    }
}

} // verus!
