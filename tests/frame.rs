use gamekit::error::ErrorKind;
use gamekit::frame::{AcquireResult, FramePhase, FrameState, PresentResult};

fn run_frame(state: &mut FrameState, image: u32, present: PresentResult) -> bool {
    let reinit = state.begin_frame();
    assert!(state.fence_status(true));
    assert_eq!(state.image_acquired(AcquireResult::Acquired(image)).unwrap(), image);
    let target = state.submit_target().unwrap();
    assert_eq!(target.image_index, image);
    state.frame_presented(present);
    reinit
}

#[test]
fn frame_index_cycles_round_robin() {
    let mut state = FrameState::new(2);
    let mut seen = vec![];
    for image in 0..5u32 {
        seen.push(state.current_frame_index());
        assert!(!run_frame(&mut state, image % 3, PresentResult::Presented));
    }
    assert_eq!(seen, vec![0, 1, 0, 1, 0]);
    assert_eq!(state.current_frame_index(), 1);
}

#[test]
fn frame_index_cycles_over_three_slots() {
    let mut state = FrameState::new(3);
    for _ in 0..7 {
        run_frame(&mut state, 0, PresentResult::Presented);
    }
    assert_eq!(state.current_frame_index(), 7 % 3);
}

#[test]
fn failed_present_does_not_advance() {
    let mut state = FrameState::new(2);
    run_frame(&mut state, 0, PresentResult::Presented);
    assert_eq!(state.current_frame_index(), 1);
    run_frame(&mut state, 1, PresentResult::Suboptimal);
    assert_eq!(state.current_frame_index(), 1);
    assert!(state.needs_reinit());
}

#[test]
fn fence_not_signaled_blocks_frame() {
    let mut state = FrameState::new(2);
    assert!(!state.begin_frame());
    for _ in 0..10 {
        assert!(!state.fence_status(false));
        assert_eq!(state.phase(), FramePhase::WaitingFence);
    }
    assert!(state.fence_status(true));
    assert_eq!(state.phase(), FramePhase::Acquiring);
}

#[test]
fn two_suboptimal_presents_rebuild_once_each() {
    let mut state = FrameState::new(2);
    assert!(!run_frame(&mut state, 0, PresentResult::Presented));
    // first suboptimal present
    assert!(!run_frame(&mut state, 1, PresentResult::Suboptimal));
    assert!(state.needs_reinit());
    // the next frame rebuilds exactly once, and is itself suboptimal
    assert!(run_frame(&mut state, 0, PresentResult::Suboptimal));
    assert!(state.needs_reinit());
    // the frame after that rebuilds exactly once more
    let reinit = state.begin_frame();
    assert!(reinit);
    assert!(!state.needs_reinit());
    assert_eq!(state.current_frame_index(), 0);
    assert!(state.fence_status(true));
    state.image_acquired(AcquireResult::Acquired(0)).unwrap();
    state.frame_presented(PresentResult::Presented);
    // and then no more rebuilds
    assert!(!run_frame(&mut state, 1, PresentResult::Presented));
}

#[test]
fn suboptimal_acquire_aborts_frame() {
    let mut state = FrameState::new(2);
    state.begin_frame();
    state.fence_status(true);
    let err = state.image_acquired(AcquireResult::Suboptimal(1)).unwrap_err();
    assert_eq!(err.kind(), ErrorKind::SwapchainStale);
    assert!(state.needs_reinit());
    assert_eq!(state.phase(), FramePhase::Idle);
    assert_eq!(state.submit_target().unwrap_err().kind(), ErrorKind::SwapchainStale);
    assert!(state.begin_frame());
}

#[test]
fn out_of_date_acquire_is_stale() {
    let mut state = FrameState::new(2);
    state.begin_frame();
    state.fence_status(true);
    let err = state.image_acquired(AcquireResult::OutOfDate).unwrap_err();
    assert_eq!(err.kind(), ErrorKind::SwapchainStale);
}

#[test]
fn failed_acquire_is_surfaced() {
    let mut state = FrameState::new(2);
    state.begin_frame();
    state.fence_status(true);
    let err = state.image_acquired(AcquireResult::Failed).unwrap_err();
    assert_eq!(err.kind(), ErrorKind::GenericGpu);
    assert!(state.needs_reinit());
}

#[test]
fn rebuild_resets_slots() {
    let mut state = FrameState::new(2);
    run_frame(&mut state, 0, PresentResult::Presented);
    run_frame(&mut state, 1, PresentResult::OutOfDate);
    assert_eq!(state.current_frame_index(), 1);
    assert!(state.begin_frame());
    assert_eq!(state.current_frame_index(), 0);
    assert_eq!(state.frame_count(), 2);
}
