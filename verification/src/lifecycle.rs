//! The frame lifecycle controller's state machine.
//!
//! An XR runtime demands that every produced frame walks one strict
//! sequence: begin the frame, acquire a swapchain image, wait until the
//! image is safe to render into, release the image, and end the frame
//! with the composited layers. This module holds that protocol as a
//! pure state machine: which operation is legal in which phase, what
//! phase each operation leads to, and the bookkeeping of the acquired
//! image index. The swapchain itself consults this machine before every
//! runtime call, so an out-of-order call is rejected here without ever
//! reaching the runtime.

use vstd::prelude::*;

verus! {

/// The stages of one frame's protocol, in the order the runtime
/// contract prescribes them. After a frame ends the machine returns to
/// `Idle`.
#[derive(Clone, Copy, PartialEq, Eq, Structural, Debug)]
pub enum FramePhase {
    /// No frame is in flight; beginning a frame is the only legal step.
    Idle,
    /// The frame stream is open; an image may be acquired.
    Begun,
    /// An image index has been acquired and recorded.
    Acquired,
    /// The acquired image is safe to render into.
    Waited,
    /// The image has been handed back for display queuing; the frame
    /// awaits its end-of-frame submission.
    Released,
}

/// The five lifecycle operations a caller can issue.
#[derive(Clone, Copy, PartialEq, Eq, Structural, Debug)]
pub enum FrameOp {
    Begin,
    Acquire,
    Wait,
    Release,
    End,
}

/// What a lifecycle call can fail with.
#[derive(Clone, Copy, PartialEq, Eq, Structural, Debug)]
pub enum FrameError {
    /// A call into the XR runtime or the graphics backend failed;
    /// carries the raw runtime result code. Fatal for the current
    /// session; the caller decides about recreation.
    Runtime(i32),
    /// A lifecycle call was issued out of sequence; carries the phase
    /// the controller was actually in.
    State(FramePhase),
    /// The runtime handed back an image index that is no valid position
    /// in the texture sequence.
    ImageOutOfRange { index: u32, count: usize },
    /// The frame's view array holds a single view: a stereo frame
    /// locates two views, or none for the degenerate no-op frame.
    IncompleteStereoPair,
}

/// The phase an operation must be issued from.
pub open spec fn required_phase(op: FrameOp) -> FramePhase {
    match op {
        FrameOp::Begin => FramePhase::Idle,
        FrameOp::Acquire => FramePhase::Begun,
        FrameOp::Wait => FramePhase::Acquired,
        FrameOp::Release => FramePhase::Waited,
        FrameOp::End => FramePhase::Released,
    }
}

/// The phase reached when an operation succeeds.
pub open spec fn next_phase(op: FrameOp) -> FramePhase {
    match op {
        FrameOp::Begin => FramePhase::Begun,
        FrameOp::Acquire => FramePhase::Acquired,
        FrameOp::Wait => FramePhase::Waited,
        FrameOp::Release => FramePhase::Released,
        FrameOp::End => FramePhase::Idle,
    }
}

/// The pure frame state machine: the current phase, the image index the
/// runtime last handed out, and how many textures back the swapchain.
///
/// The index is `None` until the first acquire; once set it is always a
/// valid position in the texture sequence.
pub struct FrameLifecycle {
    phase: FramePhase,
    image_index: Option<usize>,
    buffer_count: usize,
}

impl FrameLifecycle {
    /// A recorded index is always in bounds, and every phase in which an
    /// image is held this frame has a recorded index.
    #[verifier::type_invariant]
    spec fn inv(self) -> bool {
        &&& (self.image_index matches Some(i) ==> i < self.buffer_count)
        &&& ((self.phase == FramePhase::Acquired || self.phase == FramePhase::Waited
            || self.phase == FramePhase::Released) ==> self.image_index is Some)
    }

    /// The phase the machine is in.
    pub closed spec fn current_phase(self) -> FramePhase {
        self.phase
    }

    /// The image index recorded by the most recent acquire, if any.
    pub closed spec fn acquired_index(self) -> Option<usize> {
        self.image_index
    }

    /// How many textures back the swapchain.
    pub closed spec fn image_count(self) -> usize {
        self.buffer_count
    }

    /// A fresh machine for a swapchain of `buffer_count` textures: no
    /// frame in flight, no image acquired yet.
    pub fn new(buffer_count: usize) -> (r: FrameLifecycle)
        ensures
            r.current_phase() == FramePhase::Idle,
            r.acquired_index() is None,
            r.image_count() == buffer_count,
    {
        FrameLifecycle { phase: FramePhase::Idle, image_index: None, buffer_count }
    }

    pub fn phase(&self) -> (r: FramePhase)
        ensures
            r == self.current_phase(),
    {
        self.phase
    }

    /// The recorded image index. Whenever one is recorded it is a valid
    /// position in the texture sequence: `i < image_count()`. In every
    /// phase that holds an image this frame an index is recorded.
    pub fn image_index(&self) -> (r: Option<usize>)
        ensures
            r == self.acquired_index(),
            r matches Some(i) ==> i < self.image_count(),
            (self.current_phase() == FramePhase::Acquired || self.current_phase()
                == FramePhase::Waited || self.current_phase() == FramePhase::Released)
                ==> r is Some,
    {
        proof {
            use_type_invariant(&*self);
        }
        self.image_index
    }

    pub fn buffer_count(&self) -> (r: usize)
        ensures
            r == self.image_count(),
    {
        self.buffer_count
    }

    /// Whether `op` may be issued now. Exactly the calls issued in
    /// protocol order are admitted; any other is rejected with a state
    /// error naming the phase the machine was in, and nothing changes.
    pub fn check(&self, op: FrameOp) -> (r: Result<(), FrameError>)
        ensures
            r is Ok <==> self.current_phase() == required_phase(op),
            r is Err ==> r == Err::<(), FrameError>(FrameError::State(self.current_phase())),
    {
        let need: FramePhase = match op {
            FrameOp::Begin => FramePhase::Idle,
            FrameOp::Acquire => FramePhase::Begun,
            FrameOp::Wait => FramePhase::Acquired,
            FrameOp::Release => FramePhase::Waited,
            FrameOp::End => FramePhase::Released,
        };
        if self.phase == need {
            Ok(())
        } else {
            Err(FrameError::State(self.phase))
        }
    }

    /// Step the machine after the runtime accepted `op`. The acquire
    /// step records an index and goes through [`Self::record_acquired`]
    /// instead.
    pub fn advance(&mut self, op: FrameOp)
        requires
            old(self).current_phase() == required_phase(op),
            op != FrameOp::Acquire,
        ensures
            final(self).current_phase() == next_phase(op),
            final(self).acquired_index() == old(self).acquired_index(),
            final(self).image_count() == old(self).image_count(),
    {
        proof {
            use_type_invariant(&*self);
        }
        let next: FramePhase = match op {
            FrameOp::Begin => FramePhase::Begun,
            FrameOp::Acquire => FramePhase::Acquired,
            FrameOp::Wait => FramePhase::Waited,
            FrameOp::Release => FramePhase::Released,
            FrameOp::End => FramePhase::Idle,
        };
        self.phase = next;
    }

    /// Record the image index the runtime handed out for this frame. An
    /// index inside the texture sequence is stored and the machine moves
    /// to `Acquired`; one outside it is rejected and nothing changes, so
    /// a stored index is always a valid position.
    pub fn record_acquired(&mut self, index: u32) -> (r: Result<(), FrameError>)
        requires
            old(self).current_phase() == FramePhase::Begun,
        ensures
            (index as usize) < old(self).image_count() ==> {
                &&& r is Ok
                &&& final(self).current_phase() == FramePhase::Acquired
                &&& final(self).acquired_index() == Some(index as usize)
                &&& final(self).image_count() == old(self).image_count()
            },
            (index as usize) >= old(self).image_count() ==> {
                &&& r == Err::<(), FrameError>(FrameError::ImageOutOfRange {
                    index,
                    count: old(self).image_count(),
                })
                &&& *final(self) == *old(self)
            },
    {
        proof {
            use_type_invariant(&*self);
        }
        let idx: usize = index as usize;
        if idx < self.buffer_count {
            self.image_index = Some(idx);
            self.phase = FramePhase::Acquired;
            Ok(())
        } else {
            Err(FrameError::ImageOutOfRange { index, count: self.buffer_count })
        }
    }
}

} // verus!
