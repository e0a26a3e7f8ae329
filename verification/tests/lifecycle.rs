//! The frame state machine: protocol order, rejection of out-of-order
//! calls, and validity of the recorded image index.

use xr_frame_core::lifecycle::{FrameError, FrameLifecycle, FrameOp, FramePhase};

fn drive_one_frame(machine: &mut FrameLifecycle, index: u32) {
    machine.check(FrameOp::Begin).unwrap();
    machine.advance(FrameOp::Begin);
    machine.check(FrameOp::Acquire).unwrap();
    machine.record_acquired(index).unwrap();
    machine.check(FrameOp::Wait).unwrap();
    machine.advance(FrameOp::Wait);
    machine.check(FrameOp::Release).unwrap();
    machine.advance(FrameOp::Release);
    machine.check(FrameOp::End).unwrap();
    machine.advance(FrameOp::End);
}

#[test]
fn full_frame_walks_the_phases() {
    let mut machine = FrameLifecycle::new(3);
    assert_eq!(machine.phase(), FramePhase::Idle);
    assert_eq!(machine.image_index(), None);
    assert_eq!(machine.buffer_count(), 3);

    machine.check(FrameOp::Begin).unwrap();
    machine.advance(FrameOp::Begin);
    assert_eq!(machine.phase(), FramePhase::Begun);

    machine.check(FrameOp::Acquire).unwrap();
    machine.record_acquired(2).unwrap();
    assert_eq!(machine.phase(), FramePhase::Acquired);
    assert_eq!(machine.image_index(), Some(2));

    machine.check(FrameOp::Wait).unwrap();
    machine.advance(FrameOp::Wait);
    assert_eq!(machine.phase(), FramePhase::Waited);

    machine.check(FrameOp::Release).unwrap();
    machine.advance(FrameOp::Release);
    assert_eq!(machine.phase(), FramePhase::Released);

    machine.check(FrameOp::End).unwrap();
    machine.advance(FrameOp::End);
    assert_eq!(machine.phase(), FramePhase::Idle);
    // the index from the finished frame stays recorded, and stays valid
    assert_eq!(machine.image_index(), Some(2));
}

#[test]
fn out_of_order_calls_are_rejected_with_state_error() {
    let mut machine = FrameLifecycle::new(2);

    // nothing but begin is legal from idle
    assert_eq!(machine.check(FrameOp::Acquire), Err(FrameError::State(FramePhase::Idle)));
    assert_eq!(machine.check(FrameOp::Wait), Err(FrameError::State(FramePhase::Idle)));
    assert_eq!(machine.check(FrameOp::Release), Err(FrameError::State(FramePhase::Idle)));
    assert_eq!(machine.check(FrameOp::End), Err(FrameError::State(FramePhase::Idle)));

    machine.check(FrameOp::Begin).unwrap();
    machine.advance(FrameOp::Begin);

    // a second begin, or skipping ahead, is rejected and names the phase
    assert_eq!(machine.check(FrameOp::Begin), Err(FrameError::State(FramePhase::Begun)));
    assert_eq!(machine.check(FrameOp::Wait), Err(FrameError::State(FramePhase::Begun)));
    assert_eq!(machine.check(FrameOp::End), Err(FrameError::State(FramePhase::Begun)));

    machine.record_acquired(0).unwrap();
    assert_eq!(machine.check(FrameOp::Acquire), Err(FrameError::State(FramePhase::Acquired)));
    assert_eq!(machine.check(FrameOp::Release), Err(FrameError::State(FramePhase::Acquired)));

    machine.advance(FrameOp::Wait);
    assert_eq!(machine.check(FrameOp::Wait), Err(FrameError::State(FramePhase::Waited)));

    machine.advance(FrameOp::Release);
    assert_eq!(machine.check(FrameOp::Begin), Err(FrameError::State(FramePhase::Released)));
}

#[test]
fn acquire_rejects_an_index_outside_the_texture_sequence() {
    let mut machine = FrameLifecycle::new(2);
    machine.advance(FrameOp::Begin);
    assert_eq!(
        machine.record_acquired(5),
        Err(FrameError::ImageOutOfRange { index: 5, count: 2 }),
    );
    // nothing was stored and the phase did not move
    assert_eq!(machine.phase(), FramePhase::Begun);
    assert_eq!(machine.image_index(), None);

    // the boundary index is already out of range
    assert_eq!(
        machine.record_acquired(2),
        Err(FrameError::ImageOutOfRange { index: 2, count: 2 }),
    );

    // a valid index is stored
    machine.record_acquired(1).unwrap();
    assert_eq!(machine.image_index(), Some(1));
}

#[test]
fn empty_texture_sequence_admits_no_acquire() {
    let mut machine = FrameLifecycle::new(0);
    machine.advance(FrameOp::Begin);
    assert_eq!(
        machine.record_acquired(0),
        Err(FrameError::ImageOutOfRange { index: 0, count: 0 }),
    );
    assert_eq!(machine.image_index(), None);
}

#[test]
fn recorded_index_is_valid_over_many_frames() {
    let mut machine = FrameLifecycle::new(4);
    let indices: [u32; 10] = [0, 3, 1, 2, 3, 0, 0, 2, 1, 3];
    for (frame, index) in indices.iter().enumerate() {
        drive_one_frame(&mut machine, *index);
        match machine.image_index() {
            Some(i) => assert!(i < machine.buffer_count(), "frame {}", frame),
            None => panic!("an index must be recorded after acquire"),
        }
    }
}
