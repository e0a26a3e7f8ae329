//! The swapchain: image store and frame lifecycle controller.
//!
//! [`SwapchainInner`] owns the runtime's frame stream and swapchain
//! handles, the non-owning views over the swapchain's GPU textures, and
//! the frame state machine. Every lifecycle call first consults the
//! machine — an out-of-order call is rejected with a state error before
//! any runtime call is made — then makes its one runtime call through a
//! trusted wrapper, and only on success steps the machine forward. The
//! index the runtime hands out at acquire is checked against the
//! texture sequence before it is stored, so a stored index is always a
//! valid position.
//!
//! [`Swapchain`] tags the store by the graphics backend of the running
//! session and dispatches by an explicit match over the capability set.

use vstd::prelude::*;
use crate::bindings::{
    StereoTexture, StreamHandle, SwapchainHandle, UnderlayLayer, frame_stream_begin,
    swapchain_acquire_image, swapchain_wait_image, swapchain_release_image, texture_eye_view,
    submit_layers,
};
use crate::composition::{Resolution, LayerPlan, layers_for, plan_layers, projection_content};
use crate::lifecycle::{FrameLifecycle, FramePhase, FrameOp, FrameError};

verus! {

/// True when `b`'s frame bookkeeping (phase, acquired index, texture
/// count) equals `a`'s.
pub open spec fn same_bookkeeping(a: SwapchainInner, b: SwapchainInner) -> bool {
    &&& b.phase() == a.phase()
    &&& b.acquired_index() == a.acquired_index()
    &&& b.image_count() == a.image_count()
}

/// The swapchain image store and frame lifecycle controller for one
/// running session.
pub struct SwapchainInner {
    pub(crate) stream: StreamHandle,
    pub(crate) handle: SwapchainHandle,
    pub(crate) buffers: Vec<StereoTexture>,
    pub(crate) lifecycle: FrameLifecycle,
}

impl SwapchainInner {
    /// Well-formed: the state machine's texture count is the stored
    /// texture sequence's length; the handle's waited flag holds
    /// exactly in the waited phase, so the wait and release calls meet
    /// the runtime handle's own sequencing assertions; and every stored
    /// texture has the checked stereo shape. The constructor
    /// establishes all of it and every method preserves it.
    pub closed spec fn wf(self) -> bool {
        &&& self.lifecycle.image_count() == self.buffers@.len()
        &&& (self.handle.image_waited() <==> self.lifecycle.current_phase()
            == FramePhase::Waited)
        &&& forall|i: int|
            0 <= i < self.buffers@.len() ==> (#[trigger] self.buffers@[i]).is_stereo()
    }

    /// The phase of the frame in flight.
    pub closed spec fn phase(self) -> FramePhase {
        self.lifecycle.current_phase()
    }

    /// The image index recorded by the most recent acquire, if any.
    pub closed spec fn acquired_index(self) -> Option<usize> {
        self.lifecycle.acquired_index()
    }

    /// How many textures back the swapchain.
    pub closed spec fn image_count(self) -> usize {
        self.lifecycle.image_count()
    }

    /// Take over the runtime handles and the swapchain's textures.
    ///
    /// `buffers` are the stereo textures the runtime enumerated for
    /// this swapchain, in the runtime's index order, each taken over
    /// through [`crate::bindings::stereo_texture`] (checked two-layer
    /// shape, held non-owning: the store never frees them). The
    /// swapchain handle comes with no image waited, as a freshly
    /// created one does.
    pub fn new(
        stream: StreamHandle,
        handle: SwapchainHandle,
        buffers: Vec<StereoTexture>,
    ) -> (r: SwapchainInner)
        requires
            !handle.image_waited(),
            forall|i: int| 0 <= i < buffers@.len() ==> (#[trigger] buffers@[i]).is_stereo(),
        ensures
            r.wf(),
            r.phase() == FramePhase::Idle,
            r.acquired_index() is None,
            r.image_count() == buffers@.len(),
    {
        let count = buffers.len();
        SwapchainInner { stream, handle, buffers, lifecycle: FrameLifecycle::new(count) }
    }

    pub fn phase_now(&self) -> (r: FramePhase)
        ensures
            r == self.phase(),
    {
        self.lifecycle.phase()
    }

    pub fn image_index(&self) -> (r: Option<usize>)
        ensures
            r == self.acquired_index(),
            r matches Some(i) ==> i < self.image_count(),
    {
        self.lifecycle.image_index()
    }

    pub fn buffer_count(&self) -> (r: usize)
        ensures
            r == self.image_count(),
    {
        self.lifecycle.buffer_count()
    }

    /// Open the frame stream for this frame's submission.
    ///
    /// Legal only when no frame is in flight; out of order it is
    /// rejected with a state error and nothing changes, the runtime
    /// untouched. When the runtime refuses, its code is handed back
    /// unchanged and the machine stays idle.
    pub fn begin(&mut self) -> (r: Result<(), FrameError>)
        requires
            old(self).wf(),
        ensures
            final(self).wf(),
            old(self).phase() != FramePhase::Idle ==> {
                &&& r == Err::<(), FrameError>(FrameError::State(old(self).phase()))
                &&& same_bookkeeping(*old(self), *final(self))
            },
            old(self).phase() == FramePhase::Idle ==> {
                &&& r is Ok ==> final(self).phase() == FramePhase::Begun
                &&& r matches Err(e) ==> e is Runtime && same_bookkeeping(*old(self), *final(self))
                &&& final(self).acquired_index() == old(self).acquired_index()
                &&& final(self).image_count() == old(self).image_count()
            },
    {
        if let Err(e) = self.lifecycle.check(FrameOp::Begin) {
            return Err(e);
        }
        match frame_stream_begin(&mut self.stream) {
            Ok(()) => {
                self.lifecycle.advance(FrameOp::Begin);
                Ok(())
            },
            Err(code) => Err(FrameError::Runtime(code.into_raw())),
        }
    }

    /// Ask the runtime for this frame's image index and record it.
    ///
    /// Legal only right after `begin`. An index outside the texture
    /// sequence is rejected instead of stored, so the recorded index is
    /// always a valid position. A runtime failure (a lost swapchain) is
    /// handed back unchanged — fatal for this session, the caller
    /// decides about recreation.
    pub fn acquire_image(&mut self) -> (r: Result<(), FrameError>)
        requires
            old(self).wf(),
        ensures
            final(self).wf(),
            old(self).phase() != FramePhase::Begun ==> {
                &&& r == Err::<(), FrameError>(FrameError::State(old(self).phase()))
                &&& same_bookkeeping(*old(self), *final(self))
            },
            old(self).phase() == FramePhase::Begun ==> {
                &&& r is Ok ==> final(self).phase() == FramePhase::Acquired
                    && (final(self).acquired_index() matches Some(i)
                    && i < final(self).image_count())
                &&& r matches Err(e) ==> (e is Runtime || e is ImageOutOfRange)
                    && same_bookkeeping(*old(self), *final(self))
                &&& final(self).image_count() == old(self).image_count()
            },
    {
        if let Err(e) = self.lifecycle.check(FrameOp::Acquire) {
            return Err(e);
        }
        match swapchain_acquire_image(&mut self.handle) {
            Ok(index) => self.lifecycle.record_acquired(index),
            Err(code) => Err(FrameError::Runtime(code.into_raw())),
        }
    }

    /// Block until the acquired image is safe to render into — the
    /// protocol's single blocking point, with an unbounded wait.
    ///
    /// Legal only right after a successful acquire.
    pub fn wait_image(&mut self) -> (r: Result<(), FrameError>)
        requires
            old(self).wf(),
        ensures
            final(self).wf(),
            old(self).phase() != FramePhase::Acquired ==> {
                &&& r == Err::<(), FrameError>(FrameError::State(old(self).phase()))
                &&& same_bookkeeping(*old(self), *final(self))
            },
            old(self).phase() == FramePhase::Acquired ==> {
                &&& r is Ok ==> final(self).phase() == FramePhase::Waited
                &&& r matches Err(e) ==> e is Runtime && same_bookkeeping(*old(self), *final(self))
                &&& final(self).acquired_index() == old(self).acquired_index()
                &&& final(self).image_count() == old(self).image_count()
            },
    {
        if let Err(e) = self.lifecycle.check(FrameOp::Wait) {
            return Err(e);
        }
        match swapchain_wait_image(&mut self.handle) {
            Ok(()) => {
                self.lifecycle.advance(FrameOp::Wait);
                Ok(())
            },
            Err(code) => Err(FrameError::Runtime(code.into_raw())),
        }
    }

    /// Hand the rendered image back to the runtime for display queuing.
    ///
    /// Legal only after a successful wait, once rendering is done.
    pub fn release_image(&mut self) -> (r: Result<(), FrameError>)
        requires
            old(self).wf(),
        ensures
            final(self).wf(),
            old(self).phase() != FramePhase::Waited ==> {
                &&& r == Err::<(), FrameError>(FrameError::State(old(self).phase()))
                &&& same_bookkeeping(*old(self), *final(self))
            },
            old(self).phase() == FramePhase::Waited ==> {
                &&& r is Ok ==> final(self).phase() == FramePhase::Released
                &&& r matches Err(e) ==> e is Runtime && same_bookkeeping(*old(self), *final(self))
                &&& final(self).acquired_index() == old(self).acquired_index()
                &&& final(self).image_count() == old(self).image_count()
            },
    {
        if let Err(e) = self.lifecycle.check(FrameOp::Release) {
            return Err(e);
        }
        match swapchain_release_image(&mut self.handle) {
            Ok(()) => {
                self.lifecycle.advance(FrameOp::Release);
                Ok(())
            },
            Err(code) => Err(FrameError::Runtime(code.into_raw())),
        }
    }

    /// Two render-target views over the texture at the acquired index:
    /// a 2D single-layer view of array layer 0 (left eye) and one of
    /// array layer 1 (right eye).
    ///
    /// Legal only while an image acquired this frame is held (acquired
    /// or waited); otherwise rejected with a state error. The recorded
    /// index is a valid position by the store's invariant, so the
    /// lookup cannot go out of bounds.
    pub fn get_render_views(&self) -> (r: Result<(wgpu::TextureView, wgpu::TextureView), FrameError>)
        requires
            self.wf(),
        ensures
            r is Ok <==> (self.phase() == FramePhase::Acquired || self.phase()
                == FramePhase::Waited),
            r matches Err(e) ==> e == FrameError::State(self.phase()),
    {
        let phase = self.lifecycle.phase();
        let held = match phase {
            FramePhase::Acquired | FramePhase::Waited => true,
            _ => false,
        };
        if !held {
            return Err(FrameError::State(phase));
        }
        match self.lifecycle.image_index() {
            Some(index) => {
                let texture = &self.buffers[index];
                Ok((texture_eye_view(texture, 0), texture_eye_view(texture, 1)))
            },
            None => Err(FrameError::State(phase)),
        }
    }

    /// End the frame: assemble the layer list and submit it.
    ///
    /// Legal only after the image was released. An empty view array is
    /// the degenerate no-op frame: the call succeeds, nothing is
    /// submitted, and the lifecycle still completes back to idle. A
    /// view array of length one is rejected with an error — the stereo
    /// protocol locates two views or none — and nothing changes.
    /// Otherwise the submitted list is exactly the assembled plan that
    /// is handed back: the projection layer over the first two views
    /// last, preceded by the supplied passthrough layer.
    pub fn end<'p>(
        &mut self,
        predicted_display_time: openxr::Time,
        views: &[openxr::View],
        stage: &openxr::Space,
        resolution: Resolution,
        environment_blend_mode: openxr::EnvironmentBlendMode,
        passthrough_layer: Option<&'p UnderlayLayer<'p>>,
    ) -> (r: Result<Vec<LayerPlan<&'p UnderlayLayer<'p>>>, FrameError>)
        requires
            old(self).wf(),
        ensures
            final(self).wf(),
            old(self).phase() != FramePhase::Released ==> {
                &&& r matches Err(e) && e == FrameError::State(old(self).phase())
                &&& same_bookkeeping(*old(self), *final(self))
            },
            old(self).phase() == FramePhase::Released ==> {
                &&& views@.len() == 0 ==> r is Ok
                &&& views@.len() == 1 ==> (r matches Err(e) && e
                    == FrameError::IncompleteStereoPair)
                &&& r matches Ok(layers) ==> layers@ == layers_for(
                    views@,
                    resolution,
                    passthrough_layer,
                ) && final(self).phase() == FramePhase::Idle
                &&& r matches Err(e) ==> (e is Runtime || e is IncompleteStereoPair)
                    && same_bookkeeping(*old(self), *final(self))
                &&& views@.len() != 1 ==> (r matches Err(e) ==> e is Runtime)
                &&& final(self).acquired_index() == old(self).acquired_index()
                &&& final(self).image_count() == old(self).image_count()
            },
    {
        if let Err(e) = self.lifecycle.check(FrameOp::End) {
            return Err(e);
        }
        let layers = match plan_layers(views, resolution, passthrough_layer) {
            Ok(layers) => layers,
            Err(e) => {
                return Err(e);
            },
        };
        if layers.len() == 0 {
            self.lifecycle.advance(FrameOp::End);
            return Ok(layers);
        }
        let projection = projection_content(views, resolution, passthrough_layer.is_some());
        match submit_layers(
            &mut self.stream,
            &self.handle,
            predicted_display_time,
            environment_blend_mode,
            stage,
            passthrough_layer,
            &projection,
        ) {
            Ok(()) => {
                self.lifecycle.advance(FrameOp::End);
                Ok(layers)
            },
            Err(code) => Err(FrameError::Runtime(code.into_raw())),
        }
    }
}

/// The running session's swapchain, tagged by the graphics backend.
/// Operations dispatch by an explicit match over the capability set.
pub enum Swapchain {
    Vulkan(SwapchainInner),
}

impl Swapchain {
    /// The store behind the live variant.
    pub open spec fn inner(self) -> SwapchainInner {
        match self {
            Swapchain::Vulkan(inner) => inner,
        }
    }

    /// See [`SwapchainInner::begin`].
    pub fn begin(&mut self) -> (r: Result<(), FrameError>)
        requires
            old(self).inner().wf(),
        ensures
            final(self).inner().wf(),
            old(self).inner().phase() != FramePhase::Idle ==> {
                &&& r == Err::<(), FrameError>(FrameError::State(old(self).inner().phase()))
                &&& same_bookkeeping(old(self).inner(), final(self).inner())
            },
            old(self).inner().phase() == FramePhase::Idle ==> {
                &&& r is Ok ==> final(self).inner().phase() == FramePhase::Begun
                &&& r matches Err(e) ==> e is Runtime && same_bookkeeping(
                    old(self).inner(),
                    final(self).inner(),
                )
                &&& final(self).inner().acquired_index() == old(self).inner().acquired_index()
                &&& final(self).inner().image_count() == old(self).inner().image_count()
            },
    {
        match self {
            Swapchain::Vulkan(inner) => inner.begin(),
        }
    }

    /// See [`SwapchainInner::acquire_image`].
    pub fn acquire_image(&mut self) -> (r: Result<(), FrameError>)
        requires
            old(self).inner().wf(),
        ensures
            final(self).inner().wf(),
            old(self).inner().phase() != FramePhase::Begun ==> {
                &&& r == Err::<(), FrameError>(FrameError::State(old(self).inner().phase()))
                &&& same_bookkeeping(old(self).inner(), final(self).inner())
            },
            old(self).inner().phase() == FramePhase::Begun ==> {
                &&& r is Ok ==> final(self).inner().phase() == FramePhase::Acquired
                    && (final(self).inner().acquired_index() matches Some(i)
                    && i < final(self).inner().image_count())
                &&& r matches Err(e) ==> (e is Runtime || e is ImageOutOfRange)
                    && same_bookkeeping(old(self).inner(), final(self).inner())
                &&& final(self).inner().image_count() == old(self).inner().image_count()
            },
    {
        match self {
            Swapchain::Vulkan(inner) => inner.acquire_image(),
        }
    }

    /// See [`SwapchainInner::wait_image`].
    pub fn wait_image(&mut self) -> (r: Result<(), FrameError>)
        requires
            old(self).inner().wf(),
        ensures
            final(self).inner().wf(),
            old(self).inner().phase() != FramePhase::Acquired ==> {
                &&& r == Err::<(), FrameError>(FrameError::State(old(self).inner().phase()))
                &&& same_bookkeeping(old(self).inner(), final(self).inner())
            },
            old(self).inner().phase() == FramePhase::Acquired ==> {
                &&& r is Ok ==> final(self).inner().phase() == FramePhase::Waited
                &&& r matches Err(e) ==> e is Runtime && same_bookkeeping(
                    old(self).inner(),
                    final(self).inner(),
                )
                &&& final(self).inner().acquired_index() == old(self).inner().acquired_index()
                &&& final(self).inner().image_count() == old(self).inner().image_count()
            },
    {
        match self {
            Swapchain::Vulkan(inner) => inner.wait_image(),
        }
    }

    /// See [`SwapchainInner::release_image`].
    pub fn release_image(&mut self) -> (r: Result<(), FrameError>)
        requires
            old(self).inner().wf(),
        ensures
            final(self).inner().wf(),
            old(self).inner().phase() != FramePhase::Waited ==> {
                &&& r == Err::<(), FrameError>(FrameError::State(old(self).inner().phase()))
                &&& same_bookkeeping(old(self).inner(), final(self).inner())
            },
            old(self).inner().phase() == FramePhase::Waited ==> {
                &&& r is Ok ==> final(self).inner().phase() == FramePhase::Released
                &&& r matches Err(e) ==> e is Runtime && same_bookkeeping(
                    old(self).inner(),
                    final(self).inner(),
                )
                &&& final(self).inner().acquired_index() == old(self).inner().acquired_index()
                &&& final(self).inner().image_count() == old(self).inner().image_count()
            },
    {
        match self {
            Swapchain::Vulkan(inner) => inner.release_image(),
        }
    }

    /// See [`SwapchainInner::get_render_views`].
    pub fn get_render_views(&self) -> (r: Result<
        (wgpu::TextureView, wgpu::TextureView),
        FrameError,
    >)
        requires
            self.inner().wf(),
        ensures
            r is Ok <==> (self.inner().phase() == FramePhase::Acquired || self.inner().phase()
                == FramePhase::Waited),
            r matches Err(e) ==> e == FrameError::State(self.inner().phase()),
    {
        match self {
            Swapchain::Vulkan(inner) => inner.get_render_views(),
        }
    }

    /// See [`SwapchainInner::end`].
    pub fn end<'p>(
        &mut self,
        predicted_display_time: openxr::Time,
        views: &[openxr::View],
        stage: &openxr::Space,
        resolution: Resolution,
        environment_blend_mode: openxr::EnvironmentBlendMode,
        passthrough_layer: Option<&'p UnderlayLayer<'p>>,
    ) -> (r: Result<Vec<LayerPlan<&'p UnderlayLayer<'p>>>, FrameError>)
        requires
            old(self).inner().wf(),
        ensures
            final(self).inner().wf(),
            old(self).inner().phase() != FramePhase::Released ==> {
                &&& r matches Err(e) && e == FrameError::State(old(self).inner().phase())
                &&& same_bookkeeping(old(self).inner(), final(self).inner())
            },
            old(self).inner().phase() == FramePhase::Released ==> {
                &&& views@.len() == 0 ==> r is Ok
                &&& views@.len() == 1 ==> (r matches Err(e) && e
                    == FrameError::IncompleteStereoPair)
                &&& r matches Ok(layers) ==> layers@ == layers_for(
                    views@,
                    resolution,
                    passthrough_layer,
                ) && final(self).inner().phase() == FramePhase::Idle
                &&& r matches Err(e) ==> (e is Runtime || e is IncompleteStereoPair)
                    && same_bookkeeping(old(self).inner(), final(self).inner())
                &&& views@.len() != 1 ==> (r matches Err(e) ==> e is Runtime)
                &&& final(self).inner().acquired_index() == old(self).inner().acquired_index()
                &&& final(self).inner().image_count() == old(self).inner().image_count()
            },
    {
        match self {
            Swapchain::Vulkan(inner) => inner.end(
                predicted_display_time,
                views,
                stage,
                resolution,
                environment_blend_mode,
                passthrough_layer,
            ),
        }
    }
}

} // verus!
