//! Native surfaces and the leak-tracking handshake.
//!
//! A native surface is a platform resource that nothing reclaims by itself.
//! A tracker on each side of a thread or process boundary watches the
//! surfaces that its side answers for. Handing a surface across takes two
//! steps: the side that gives it away marks it with `mark_will_leak`, so that
//! its tracker stops watching, and the side that takes it marks it with
//! `mark_wont_leak`, so that its own tracker starts.

use vstd::prelude::*;

verus! {

/// What the local tracker has been told about a surface.
#[derive(Clone, Copy, Debug, PartialEq, Eq, Structural)]
pub enum LeakState {
    /// The tracker watches the surface: this side must destroy it. Every
    /// surface starts here.
    Watched,
    /// The tracker has been told to let the surface go: another side has
    /// taken over, or is about to.
    Suppressed,
}

/// The capability of the painting role: whoever holds one may destroy
/// surfaces. The library hands it through and never looks inside.
#[derive(Debug)]
pub struct NativePaintingGraphicsContext {
    id: u64,
}

impl View for NativePaintingGraphicsContext {
    type V = u64;

    closed spec fn view(&self) -> u64 {
        self.id
    }
}

impl NativePaintingGraphicsContext {
    /// The token for the platform context with the given identity.
    pub fn from_id(id: u64) -> (context: NativePaintingGraphicsContext)
        ensures
            context@ == id,
    {
        NativePaintingGraphicsContext { id }
    }

    /// The identity of the platform context.
    pub fn id(&self) -> (id: u64)
        ensures
            id == self@,
    {
        self.id
    }
}

/// What a `NativeSurface` is, as a value: the platform handle and the state
/// of the handshake.
pub struct NativeSurfaceView {
    pub handle: u64,
    pub leak_state: LeakState,
}

/// An owned handle to a platform surface.
#[derive(Debug)]
pub struct NativeSurface {
    handle: u64,
    leak_state: LeakState,
}

impl View for NativeSurface {
    type V = NativeSurfaceView;

    closed spec fn view(&self) -> NativeSurfaceView {
        NativeSurfaceView { handle: self.handle, leak_state: self.leak_state }
    }
}

/// The order to release a platform surface, made out by `destroy`.
#[derive(Clone, Copy, Debug, PartialEq, Eq, Structural)]
pub struct SurfaceRelease {
    /// The platform handle to release.
    pub handle: u64,
    /// The painting context to release it with.
    pub context: u64,
}

impl NativeSurface {
    /// Takes charge of the platform surface with the given handle. The
    /// tracker watches it from now on.
    pub fn from_handle(handle: u64) -> (surface: NativeSurface)
        ensures
            surface@ == (NativeSurfaceView { handle, leak_state: LeakState::Watched }),
    {
        NativeSurface { handle, leak_state: LeakState::Watched }
    }

    /// The platform handle.
    pub fn handle(&self) -> (handle: u64)
        ensures
            handle == self@.handle,
    {
        self.handle
    }

    /// The state of the handshake.
    pub fn leak_state(&self) -> (state: LeakState)
        ensures
            state == self@.leak_state,
    {
        self.leak_state
    }

    /// First half of a hand-over: tells the tracker to stop watching.
    pub fn mark_will_leak(&mut self)
        ensures
            final(self)@ == (NativeSurfaceView {
                handle: old(self)@.handle,
                leak_state: LeakState::Suppressed,
            }),
    {
        self.leak_state = LeakState::Suppressed;
    }

    /// Second half of a hand-over: tells the tracker to watch again.
    pub fn mark_wont_leak(&mut self)
        ensures
            final(self)@ == (NativeSurfaceView {
                handle: old(self)@.handle,
                leak_state: LeakState::Watched,
            }),
    {
        self.leak_state = LeakState::Watched;
    }

    /// Gives the surface up for good. The value is consumed, so no surface
    /// is destroyed twice; what comes back names the handle that the
    /// platform is to release and the context to do it with.
    pub fn destroy(self, graphics_context: &NativePaintingGraphicsContext) -> (release:
        SurfaceRelease)
        ensures
            release == (SurfaceRelease { handle: self@.handle, context: graphics_context@ }),
    {
        SurfaceRelease { handle: self.handle, context: graphics_context.id }
    }
}

} // verus!
