use vstd::prelude::*;
use crate::error::{Error, ErrorKind};

verus! {

/// What acquiring the next swapchain image reported.
#[derive(Clone, Copy, Debug, PartialEq, Eq, Structural)]
pub enum AcquireResult {
    Acquired(u32),
    Suboptimal(u32),
    OutOfDate,
    Failed,
}

/// What presenting a frame reported.
#[derive(Clone, Copy, Debug, PartialEq, Eq, Structural)]
pub enum PresentResult {
    Presented,
    Suboptimal,
    OutOfDate,
    Failed,
}

/// Where the current frame stands.
#[derive(Clone, Copy, Debug, PartialEq, Eq, Structural)]
pub enum FramePhase {
    /// Between frames.
    Idle,
    /// Waiting on the completion fence of the current slot.
    WaitingFence,
    /// The slot's fence was seen signaled; the next image is to be acquired.
    Acquiring,
    /// An image was acquired and the render pass is open.
    Recording,
}

/// The slot and image that the current frame submits and presents.
#[derive(Clone, Copy, Debug, PartialEq, Eq, Structural)]
pub struct SubmitTarget {
    pub frame_index: usize,
    pub image_index: u32,
}

/// The model of the frame orchestration state.
pub struct FrameModel {
    pub frame_count: nat,
    pub frame_index: nat,
    pub image_index: u32,
    pub need_reinit: bool,
    pub phase: FramePhase,
}

impl FrameModel {
    pub open spec fn wf(self) -> bool {
        self.frame_count > 0 && self.frame_index < self.frame_count
    }

    /// After `begin_frame`: a pending reinitialisation is consumed and the
    /// slots start over, then the fence wait begins.
    pub open spec fn after_begin(self) -> FrameModel {
        if self.need_reinit {
            FrameModel { frame_index: 0, image_index: 0, need_reinit: false, phase: FramePhase::WaitingFence, ..self }
        } else {
            FrameModel { phase: FramePhase::WaitingFence, ..self }
        }
    }

    /// After the fence of the current slot was polled.
    pub open spec fn after_fence(self, signaled: bool) -> FrameModel {
        if signaled {
            FrameModel { phase: FramePhase::Acquiring, ..self }
        } else {
            self
        }
    }

    /// After the result of the image acquisition was reported.
    pub open spec fn after_acquire(self, result: AcquireResult) -> FrameModel {
        match result {
            AcquireResult::Acquired(i) => FrameModel { image_index: i, phase: FramePhase::Recording, ..self },
            _ => FrameModel { need_reinit: true, phase: FramePhase::Idle, ..self },
        }
    }

    /// After the result of presenting was reported: the slot advances
    /// round-robin on success, and a reinitialisation is flagged otherwise.
    pub open spec fn after_present(self, result: PresentResult) -> FrameModel {
        if result == PresentResult::Presented {
            FrameModel { frame_index: (self.frame_index + 1) % self.frame_count, phase: FramePhase::Idle, ..self }
        } else {
            FrameModel { need_reinit: true, phase: FramePhase::Idle, ..self }
        }
    }

    /// A whole frame that acquires image `image` and presents successfully.
    pub open spec fn after_frame(self, image: u32) -> FrameModel {
        self.after_begin().after_fence(true).after_acquire(AcquireResult::Acquired(image)).after_present(
            PresentResult::Presented,
        )
    }

    /// A run of successful frames, one per acquired image.
    pub open spec fn after_frames(self, images: Seq<u32>) -> FrameModel
        decreases images.len(),
    {
        if images.len() == 0 {
            self
        } else {
            self.after_frames(images.drop_last()).after_frame(images.last())
        }
    }
}

/// The decisions of the frame loop over a fixed pool of in-flight slots. The
/// caller performs the driver work that each step names and reports back.
pub struct FrameState {
    frame_count: usize,
    frame_index: usize,
    image_index: u32,
    need_reinit: bool,
    phase: FramePhase,
}

impl View for FrameState {
    type V = FrameModel;

    closed spec fn view(&self) -> FrameModel {
        FrameModel {
            frame_count: self.frame_count as nat,
            frame_index: self.frame_index as nat,
            image_index: self.image_index,
            need_reinit: self.need_reinit,
            phase: self.phase,
        }
    }
}

impl FrameState {
    pub fn new(frame_count: usize) -> (r: FrameState)
        requires
            frame_count > 0,
        ensures
            r@ == (FrameModel {
                frame_count: frame_count as nat,
                frame_index: 0,
                image_index: 0,
                need_reinit: false,
                phase: FramePhase::Idle,
            }),
            r@.wf(),
    {
        FrameState { frame_count, frame_index: 0, image_index: 0, need_reinit: false, phase: FramePhase::Idle }
    }

    pub fn frame_count(&self) -> (r: usize)
        ensures
            r == self@.frame_count,
    {
        self.frame_count
    }

    pub fn current_frame_index(&self) -> (r: usize)
        ensures
            r == self@.frame_index,
    {
        self.frame_index
    }

    pub fn image_index(&self) -> (r: u32)
        ensures
            r == self@.image_index,
    {
        self.image_index
    }

    pub fn needs_reinit(&self) -> (r: bool)
        ensures
            r == self@.need_reinit,
    {
        self.need_reinit
    }

    pub fn phase(&self) -> (r: FramePhase)
        ensures
            r == self@.phase,
    {
        self.phase
    }

    /// Starts a frame. Returns true when a reinitialisation was pending: the
    /// caller then tears the pipeline down and rebuilds it once, before the
    /// fence wait, and treats viewport and scissor as stale.
    pub fn begin_frame(&mut self) -> (reinitialized: bool)
        requires
            old(self)@.wf(),
            old(self)@.phase == FramePhase::Idle,
        ensures
            final(self)@ == old(self)@.after_begin(),
            final(self)@.wf(),
            reinitialized == old(self)@.need_reinit,
            !final(self)@.need_reinit,
    {
        let reinitialized = self.need_reinit;
        if self.need_reinit {
            self.need_reinit = false;
            self.frame_index = 0;
            self.image_index = 0;
        }
        self.phase = FramePhase::WaitingFence;
        reinitialized
    }

    /// Reports whether the current slot's completion fence is signaled. Only
    /// a signaled fence lets the frame go on; the caller then resets it and
    /// acquires the next image.
    pub fn fence_status(&mut self, signaled: bool) -> (proceed: bool)
        requires
            old(self)@.wf(),
            old(self)@.phase == FramePhase::WaitingFence,
        ensures
            final(self)@ == old(self)@.after_fence(signaled),
            final(self)@.wf(),
            proceed == signaled,
    {
        if signaled {
            self.phase = FramePhase::Acquiring;
        }
        signaled
    }

    /// Reports the acquisition result. Anything but a clean acquisition flags
    /// a reinitialisation for the next `begin_frame` and aborts this frame.
    pub fn image_acquired(&mut self, result: AcquireResult) -> (r: Result<u32, Error>)
        requires
            old(self)@.wf(),
            old(self)@.phase == FramePhase::Acquiring,
        ensures
            final(self)@ == old(self)@.after_acquire(result),
            final(self)@.wf(),
            match result {
                AcquireResult::Acquired(i) => r.is_ok() && r.unwrap() == i,
                AcquireResult::Failed => r.is_err() && r.unwrap_err().spec_kind() == ErrorKind::GenericGpu,
                _ => r.is_err() && r.unwrap_err().spec_kind() == ErrorKind::SwapchainStale,
            },
    {
        match result {
            AcquireResult::Acquired(i) => {
                self.image_index = i;
                self.phase = FramePhase::Recording;
                Ok(i)
            },
            AcquireResult::Failed => {
                self.need_reinit = true;
                self.phase = FramePhase::Idle;
                Err(Error::new(ErrorKind::GenericGpu, "failed to acquire swapchain image"))
            },
            _ => {
                self.need_reinit = true;
                self.phase = FramePhase::Idle;
                Err(Error::new(ErrorKind::SwapchainStale, "pipeline needs to be reinitialized"))
            },
        }
    }

    /// The slot and image to submit and present; an error when no frame is
    /// being recorded.
    pub fn submit_target(&self) -> (r: Result<SubmitTarget, Error>)
        ensures
            r.is_ok() == (self@.phase == FramePhase::Recording),
            r.is_ok() ==> r.unwrap() == (SubmitTarget {
                frame_index: self@.frame_index as usize,
                image_index: self@.image_index,
            }),
            r.is_err() ==> r.unwrap_err().spec_kind() == ErrorKind::SwapchainStale,
    {
        if self.phase != FramePhase::Recording {
            return Err(Error::new(ErrorKind::SwapchainStale, "pipeline needs to be reinitialized"));
        }
        Ok(SubmitTarget { frame_index: self.frame_index, image_index: self.image_index })
    }

    /// Reports the present result of the submitted frame.
    pub fn frame_presented(&mut self, result: PresentResult)
        requires
            old(self)@.wf(),
            old(self)@.phase == FramePhase::Recording,
        ensures
            final(self)@ == old(self)@.after_present(result),
            final(self)@.wf(),
            result == PresentResult::Presented ==> final(self)@.frame_index == (old(self)@.frame_index + 1)
                % old(self)@.frame_count,
            result != PresentResult::Presented ==> final(self)@.frame_index == old(self)@.frame_index
                && final(self)@.need_reinit,
    {
        if result == PresentResult::Presented {
            self.frame_index = (self.frame_index + 1) % self.frame_count;
        } else {
            self.need_reinit = true;
        }
        self.phase = FramePhase::Idle;
    }
}

/// Without a pending reinitialisation, the slot index cycles round-robin: a
/// run of `n` successful frames moves it from `i` to `(i + n) mod slot_count`,
/// and it always stays below the slot count.
pub proof fn lemma_frame_index_round_robin(m: FrameModel, images: Seq<u32>)
    requires
        m.wf(),
        !m.need_reinit,
        m.phase == FramePhase::Idle,
    ensures
        m.after_frames(images).frame_index == (m.frame_index + images.len()) % m.frame_count,
        m.after_frames(images).wf(),
        !m.after_frames(images).need_reinit,
        m.after_frames(images).phase == FramePhase::Idle,
        m.after_frames(images).frame_count == m.frame_count,
    decreases images.len(),
{
    if images.len() > 0 {
        let prev = images.drop_last();
        lemma_frame_index_round_robin(m, prev);
        let p = m.after_frames(prev);
        let n = m.frame_count as int;
        let a = (m.frame_index + prev.len()) as int;
        // p's index is a mod n, and one step on is (a + 1) mod n
        vstd::arithmetic::div_mod::lemma_add_mod_noop_right(1, a, n);
        assert(m.after_frames(images) == p.after_frame(images.last()));
        assert(((p.frame_index as int) + 1) % n == (1 + a) % n);
    } else {
        vstd::arithmetic::div_mod::lemma_small_mod(m.frame_index, m.frame_count);
    }
}

/// A present that is not clean never advances the slot index, and flags
/// exactly one reinitialisation, which the next `begin_frame` consumes.
pub proof fn lemma_failed_present_holds_index(m: FrameModel, result: PresentResult)
    requires
        m.wf(),
        result != PresentResult::Presented,
    ensures
        m.after_present(result).frame_index == m.frame_index,
        m.after_present(result).need_reinit,
        !m.after_present(result).after_begin().need_reinit,
{
}

/// The fence wait is the only way on: while the current slot's fence is not
/// signaled the frame stays waiting, however often it is polled, and only a
/// frame that has seen it signaled can acquire an image.
pub proof fn lemma_fence_gates_acquire(m: FrameModel)
    requires
        m.phase == FramePhase::WaitingFence,
    ensures
        m.after_fence(false) == m,
        m.after_fence(false).phase == FramePhase::WaitingFence,
        m.after_fence(true).phase == FramePhase::Acquiring,
        m.after_fence(true).frame_index == m.frame_index,
{
}

} // verus!
